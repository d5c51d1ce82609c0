//! What a run is asked to do, as the command line and the environment
//! give it.

use crate::request::Token;
use vstd::prelude::*;
use vstd::string::*;

verus! {

/// The locale that is used where none is given.
pub const DEFAULT_LOCALE: &'static str = "en";

/// A value that the command line had to give was not there.
#[derive(Debug, PartialEq, Eq)]
pub struct CmdArgMissing {
    pub arg: String,
}

/// What a run is asked to do.
#[derive(Debug, PartialEq, Eq)]
pub struct Settings {
    /// The path of the input file.
    pub path: String,
    pub token: Token,
    pub project_name: String,
    pub locale: String,
}

/// What `Settings` stand for.
pub ghost struct SettingsView {
    pub path: Seq<char>,
    pub token: Seq<char>,
    pub project_name: Seq<char>,
    pub locale: Seq<char>,
}

impl View for Settings {
    type V = SettingsView;

    open spec fn view(&self) -> SettingsView {
        SettingsView {
            path: self.path@,
            token: self.token@,
            project_name: self.project_name@,
            locale: self.locale@,
        }
    }
}

/// The credential of a run: the one from the command line, else the one
/// from the environment.
pub open spec fn credential(argument: Option<Seq<char>>, environment: Option<Seq<char>>) -> Option<
    Seq<char>,
> {
    if argument is Some {
        argument
    } else {
        environment
    }
}

/// The settings that the given values make, or the name of the first value
/// that is missing: the file, then the credential, then the project.
pub open spec fn settings_of(
    file: Option<Seq<char>>,
    token_argument: Option<Seq<char>>,
    token_environment: Option<Seq<char>>,
    project_name: Option<Seq<char>>,
    locale: Option<Seq<char>>,
) -> Result<SettingsView, Seq<char>> {
    match (file, credential(token_argument, token_environment), project_name) {
        (None, _, _) => Err("FILE"@),
        (Some(_), None, _) => Err("access-token"@),
        (Some(_), Some(_), None) => Err("PROJECT_NAME"@),
        (Some(path), Some(token), Some(project_name)) => Ok(
            SettingsView {
                path,
                token,
                project_name,
                locale: match locale {
                    Some(locale) => locale,
                    None => DEFAULT_LOCALE@,
                },
            },
        ),
    }
}

impl Settings {
    /// Puts the settings of a run together. The credential of the command
    /// line goes before that of the environment, and a locale that was not
    /// given is `en`. A missing file, credential or project is refused by
    /// its name.
    pub fn resolve(
        file: Option<String>,
        token_argument: Option<String>,
        token_environment: Option<String>,
        project_name: Option<String>,
        locale: Option<String>,
    ) -> (resolved: Result<Settings, CmdArgMissing>)
        ensures
            match settings_of(
                file.deep_view(),
                token_argument.deep_view(),
                token_environment.deep_view(),
                project_name.deep_view(),
                locale.deep_view(),
            ) {
                Ok(settings) => resolved matches Ok(s) && s@ == settings,
                Err(missing) => resolved matches Err(e) && e.arg@ == missing,
            },
    {
        let path = match file {
            Some(path) => path,
            None => {
                return Err(CmdArgMissing { arg: String::from_str("FILE") });
            },
        };
        let token = match token_argument {
            Some(token) => token,
            None => match token_environment {
                Some(token) => token,
                None => {
                    return Err(CmdArgMissing { arg: String::from_str("access-token") });
                },
            },
        };
        let locale = match locale {
            Some(locale) => locale,
            None => String::from_str(DEFAULT_LOCALE),
        };
        let project_name = match project_name {
            Some(project_name) => project_name,
            None => {
                return Err(CmdArgMissing { arg: String::from_str("PROJECT_NAME") });
            },
        };
        Ok(Settings { path, token: Token(token), project_name, locale })
    }
}

} // verus!
