use phrase_upload_keys::request::Token;
use phrase_upload_keys::settings::{CmdArgMissing, Settings, DEFAULT_LOCALE};

fn some(text: &str) -> Option<String> {
    Some(text.to_string())
}

fn missing(arg: &str) -> Result<Settings, CmdArgMissing> {
    Err(CmdArgMissing { arg: arg.to_string() })
}

#[test]
fn all_values_given() {
    let resolved = Settings::resolve(some("in.txt"), some("cli"), some("env"), some("Demo"), some("de"));
    assert_eq!(
        resolved,
        Ok(Settings {
            path: "in.txt".to_string(),
            token: Token("cli".to_string()),
            project_name: "Demo".to_string(),
            locale: "de".to_string(),
        })
    );
}

#[test]
fn credential_of_the_command_line_goes_first() {
    let resolved = Settings::resolve(some("f"), some("cli"), some("env"), some("P"), None).unwrap();
    assert_eq!(resolved.token, Token("cli".to_string()));
}

#[test]
fn credential_of_the_environment_is_the_fallback() {
    let resolved = Settings::resolve(some("f"), None, some("env"), some("P"), None).unwrap();
    assert_eq!(resolved.token, Token("env".to_string()));
}

#[test]
fn locale_defaults_to_en() {
    assert_eq!(DEFAULT_LOCALE, "en");
    let resolved = Settings::resolve(some("f"), some("t"), None, some("P"), None).unwrap();
    assert_eq!(resolved.locale, "en");
}

#[test]
fn missing_credential_is_refused() {
    assert_eq!(Settings::resolve(some("f"), None, None, some("P"), some("en")), missing("access-token"));
}

#[test]
fn missing_file_is_refused_first() {
    assert_eq!(Settings::resolve(None, some("t"), None, some("P"), None), missing("FILE"));
    assert_eq!(Settings::resolve(None, None, None, None, None), missing("FILE"));
}

#[test]
fn missing_credential_is_refused_before_missing_project() {
    assert_eq!(Settings::resolve(some("f"), None, None, None, None), missing("access-token"));
}

#[test]
fn missing_project_is_refused() {
    assert_eq!(Settings::resolve(some("f"), some("t"), None, None, some("en")), missing("PROJECT_NAME"));
    assert_eq!(Settings::resolve(some("f"), None, some("t"), None, None), missing("PROJECT_NAME"));
}
