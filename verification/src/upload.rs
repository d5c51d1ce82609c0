//! The upload, step by step: find the project and the locale, create the
//! keys, attach the translations.
//!
//! The upload itself sends nothing. It says what is to be done next, is told
//! what came of it, and decides from that how to go on.

pub mod laws;
pub mod model;
pub mod protocol;
pub mod state;

pub use self::protocol::{Action, Event, Shape, UploadError};
pub use self::state::{Stage, Upload};

use self::model::{
    after_advanced, after_key, after_locales, after_malformed, after_projects, after_status,
    after_success, after_unreachable, create_from, failed, initial, outstanding, transition,
    upload_from, Outcome,
};
use self::protocol::ActionView;
use crate::keys::{create_key, upload_translation, Key};
use crate::records::NewKey;
use crate::request::{check_status, Request, Token};
use crate::resolver::{
    find_locale, find_project, list_locales, list_projects, projects_request, Locale, Named,
    Project,
};
use vstd::prelude::*;

verus! {

/// Whether an exec outcome is the one that the model gives.
pub open spec fn agrees(got: (Stage, Option<Action>), with: Outcome) -> bool {
    got.0@ == with.0 && got.1.deep_view() == with.1
}

/// Prepares again the request whose status is awaited, if there is one.
pub fn outstanding_request(token: &Token, stage: &Stage) -> (request: Option<Request>)
    ensures
        request.deep_view() == outstanding(token@, stage@),
{
    match stage {
        Stage::Projects { reading, .. } => if !*reading {
            Some(list_projects(token))
        } else {
            None
        },
        Stage::Locales { project, reading, .. } => if !*reading {
            Some(list_locales(project, token))
        } else {
            None
        },
        Stage::Keys { project, current, reading, .. } => if !*reading {
            Some(create_key(project, current, token))
        } else {
            None
        },
        Stage::Translations { project, locale, pair, advancing, .. } => if !*advancing {
            Some(upload_translation(project, locale, pair, token))
        } else {
            None
        },
        _ => None,
    }
}

/// Goes on with the translations of `pairs`: sends the first, or ends the
/// upload where none is left.
pub fn upload_translations(
    token: &Token,
    project: Project,
    locale: Locale,
    pairs: Vec<(Key, String)>,
) -> (next: (Stage, Option<Action>))
    ensures
        agrees(next, upload_from(token@, project@, locale@, pairs.deep_view())),
{
    let mut later = pairs;
    if later.len() == 0 {
        (Stage::Succeeded, Some(Action::Finish))
    } else {
        let pair = later.remove(0);
        let request = upload_translation(&project, &locale, &pair, token);
        proof {
            assert(pair.deep_view() == pairs.deep_view()[0]);
            assert(later.deep_view() == pairs.deep_view().drop_first());
        }
        (
            Stage::Translations { project, locale, pair, later, advancing: false },
            Some(Action::Send(request)),
        )
    }
}

/// Goes on with the keys of `keys`: asks for the first, or turns to the
/// translations where none is left.
pub fn create_keys(
    token: &Token,
    project: Project,
    locale: Locale,
    keys: Vec<NewKey>,
    created: Vec<(Key, String)>,
) -> (next: (Stage, Option<Action>))
    ensures
        agrees(
            next,
            create_from(token@, project@, locale@, keys.deep_view(), created.deep_view()),
        ),
{
    let mut rest = keys;
    if rest.len() == 0 {
        upload_translations(token, project, locale, created)
    } else {
        let current = rest.remove(0);
        let request = create_key(&project, &current, token);
        proof {
            assert(current@ == keys.deep_view()[0]);
            assert(rest.deep_view() == keys.deep_view().drop_first());
        }
        (
            Stage::Keys { project, locale, current, rest, created, reading: false },
            Some(Action::Send(request)),
        )
    }
}

/// Stops the upload with `error`.
fn fail(error: UploadError) -> (next: (Stage, Option<Action>))
    ensures
        agrees(next, failed(error@)),
{
    (Stage::Failed, Some(Action::Abort(error)))
}

/// Goes on after a good status.
fn on_success(stage: Stage) -> (next: (Stage, Option<Action>))
    ensures
        agrees(next, after_success(stage@)),
{
    match stage {
        Stage::Projects { records, reading } => (
            Stage::Projects { records, reading: true },
            Some(Action::Decode(Shape::Projects)),
        ),
        Stage::Locales { records, project, reading } => (
            Stage::Locales { records, project, reading: true },
            Some(Action::Decode(Shape::Locales)),
        ),
        Stage::Keys { project, locale, current, rest, created, reading } => (
            Stage::Keys { project, locale, current, rest, created, reading: true },
            Some(Action::Decode(Shape::Key)),
        ),
        Stage::Translations { project, locale, pair, later, advancing } => (
            Stage::Translations { project, locale, pair, later, advancing: true },
            Some(Action::Advance),
        ),
        Stage::Succeeded => (Stage::Succeeded, None),
        Stage::Failed => (Stage::Failed, None),
    }
}

/// Takes the status of the answer to the request that was sent.
fn on_status(token: &Token, stage: Stage, status: u16) -> (next: (Stage, Option<Action>))
    ensures
        agrees(next, after_status(token@, stage@, status)),
{
    match outstanding_request(token, &stage) {
        Some(request) => match check_status(request, status) {
            Ok(()) => on_success(stage),
            Err(failure) => fail(UploadError::RequestFailed(failure)),
        },
        None => (stage, None),
    }
}

/// Takes the news that the request did not reach the service.
fn on_unreachable(token: &Token, stage: Stage, message: String) -> (next: (Stage, Option<Action>))
    ensures
        agrees(next, after_unreachable(token@, stage@, message@)),
{
    let awaited = match &stage {
        Stage::Projects { reading, .. } => !*reading,
        Stage::Locales { reading, .. } => !*reading,
        Stage::Keys { reading, .. } => !*reading,
        Stage::Translations { advancing, .. } => !*advancing,
        _ => false,
    };
    if awaited {
        fail(UploadError::Transport(message))
    } else {
        (stage, None)
    }
}

/// Takes the news that the body did not have the expected shape.
fn on_malformed(stage: Stage, message: String) -> (next: (Stage, Option<Action>))
    ensures
        agrees(next, after_malformed(stage@, message@)),
{
    let awaited = match &stage {
        Stage::Projects { reading, .. } => *reading,
        Stage::Locales { reading, .. } => *reading,
        Stage::Keys { reading, .. } => *reading,
        _ => false,
    };
    if awaited {
        fail(UploadError::Deserialization(message))
    } else {
        (stage, None)
    }
}

/// Takes the listed projects.
fn on_projects(
    token: &Token,
    project_name: &String,
    stage: Stage,
    projects: Vec<Project>,
) -> (next: (Stage, Option<Action>))
    ensures
        agrees(next, after_projects(token@, project_name@, stage@, projects.deep_view())),
{
    match stage {
        Stage::Projects { records, reading } => if reading {
            match find_project(projects, project_name.as_str()) {
                Ok(project) => {
                    let request = list_locales(&project, token);
                    (
                        Stage::Locales { records, project, reading: false },
                        Some(Action::Send(request)),
                    )
                },
                Err(missing) => fail(UploadError::ProjectNotFound(missing)),
            }
        } else {
            (Stage::Projects { records, reading }, None)
        },
        other => (other, None),
    }
}

/// Takes the listed locales.
fn on_locales(
    token: &Token,
    locale_name: &String,
    stage: Stage,
    locales: Vec<Locale>,
) -> (next: (Stage, Option<Action>))
    ensures
        agrees(next, after_locales(token@, locale_name@, stage@, locales.deep_view())),
{
    match stage {
        Stage::Locales { records, project, reading } => if reading {
            match find_locale(locales, locale_name.as_str()) {
                Ok(locale) => {
                    let created: Vec<(Key, String)> = Vec::new();
                    proof {
                        assert(created.deep_view() == Seq::<(Named, Seq<char>)>::empty());
                    }
                    create_keys(token, project, locale, records, created)
                },
                Err(missing) => fail(UploadError::LocaleNotFound(missing)),
            }
        } else {
            (Stage::Locales { records, project, reading }, None)
        },
        other => (other, None),
    }
}

/// Takes a created key.
fn on_key(token: &Token, stage: Stage, key: Key) -> (next: (Stage, Option<Action>))
    ensures
        agrees(next, after_key(token@, stage@, key@)),
{
    match stage {
        Stage::Keys { project, locale, current, rest, created, reading } => if reading {
            let mut created = created;
            let ghost before = created.deep_view();
            let pair = (key, current.string);
            created.push(pair);
            proof {
                assert(created.deep_view() == before.push((key@, current@.value)));
            }
            create_keys(token, project, locale, rest, created)
        } else {
            (Stage::Keys { project, locale, current, rest, created, reading }, None)
        },
        other => (other, None),
    }
}

/// Takes the news that the progress display was advanced.
fn on_advanced(token: &Token, stage: Stage) -> (next: (Stage, Option<Action>))
    ensures
        agrees(next, after_advanced(token@, stage@)),
{
    match stage {
        Stage::Translations { project, locale, pair, later, advancing } => if advancing {
            upload_translations(token, project, locale, later)
        } else {
            (Stage::Translations { project, locale, pair, later, advancing }, None)
        },
        other => (other, None),
    }
}

impl Upload {
    /// Takes what came of the last action, and says what is to be done
    /// next. An event that is not the one awaited changes nothing and asks
    /// for nothing; after the end of the upload no event is awaited.
    pub fn step(self, event: Event) -> (next: (Upload, Option<Action>))
        ensures
            (next.0@, next.1.deep_view()) == transition(self@, event@),
    {
        let Upload { token, project_name, locale_name, stage } = self;
        let (stage, action) = match event {
            Event::Status(status) => on_status(&token, stage, status),
            Event::Unreachable(message) => on_unreachable(&token, stage, message),
            Event::Projects(projects) => on_projects(&token, &project_name, stage, projects),
            Event::Locales(locales) => on_locales(&token, &locale_name, stage, locales),
            Event::Key(key) => on_key(&token, stage, key),
            Event::Malformed(message) => on_malformed(stage, message),
            Event::Advanced => on_advanced(&token, stage),
        };
        (Upload { token, project_name, locale_name, stage }, action)
    }

    /// Whether every translation is attached.
    pub fn has_succeeded(&self) -> (done: bool)
        ensures
            done == (self@.stage is Succeeded),
    {
        match &self.stage {
            Stage::Succeeded => true,
            _ => false,
        }
    }

    /// Whether the upload has stopped at a failure.
    pub fn has_failed(&self) -> (stopped: bool)
        ensures
            stopped == (self@.stage is Failed),
    {
        match &self.stage {
            Stage::Failed => true,
            _ => false,
        }
    }
}

/// Begins the upload of `keys` to the project called `project_name`, in the
/// locale called `locale`: the first thing to do is to ask for the
/// projects.
pub fn upload_keys(
    keys: Vec<NewKey>,
    project_name: &str,
    token: &Token,
    locale: &str,
) -> (begun: (Upload, Action))
    ensures
        begun.0@ == initial(keys.deep_view(), project_name@, token@, locale@),
        begun.1@ == ActionView::Send(projects_request(token@)),
{
    let request = list_projects(token);
    let upload = Upload {
        token: Token(token.0.clone()),
        project_name: project_name.to_owned(),
        locale_name: locale.to_owned(),
        stage: Stage::Projects { records: keys, reading: false },
    };
    (upload, Action::Send(request))
}

} // verus!
