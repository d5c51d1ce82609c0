use phrase_upload_keys::resolver::{
    find_locale, find_project, Locale, LocaleNotFound, Project, ProjectNotFound,
};

fn project(id: &str, name: &str) -> Project {
    Project { id: id.to_string(), name: name.to_string() }
}

fn locale(id: &str, name: &str) -> Locale {
    Locale { id: id.to_string(), name: name.to_string() }
}

fn projects() -> Vec<Project> {
    vec![project("1", "Website"), project("2", "Demo"), project("3", "Demo App")]
}

#[test]
fn project_is_found_by_its_name() {
    assert_eq!(find_project(projects(), "Demo"), Ok(project("2", "Demo")));
    assert_eq!(find_project(projects(), "Website"), Ok(project("1", "Website")));
    assert_eq!(find_project(projects(), "Demo App"), Ok(project("3", "Demo App")));
}

#[test]
fn project_name_in_other_case_is_not_found() {
    for name in ["demo", "DEMO", "dEMO", "website"] {
        assert_eq!(
            find_project(projects(), name),
            Err(ProjectNotFound { name: name.to_string() })
        );
    }
}

#[test]
fn part_of_a_project_name_is_not_found() {
    for name in ["Dem", "emo", "Demo ", " Demo", "Demo Ap", "Web", "", "Demo App 2"] {
        assert_eq!(
            find_project(projects(), name),
            Err(ProjectNotFound { name: name.to_string() })
        );
    }
}

#[test]
fn first_of_two_projects_of_one_name_is_taken() {
    let listed = vec![project("a", "Other"), project("b", "Twin"), project("c", "Twin")];
    assert_eq!(find_project(listed, "Twin"), Ok(project("b", "Twin")));
    let listed = vec![project("b", "Twin"), project("c", "Twin"), project("d", "Twin")];
    assert_eq!(find_project(listed, "Twin"), Ok(project("b", "Twin")));
}

#[test]
fn nothing_is_found_among_no_projects() {
    assert_eq!(find_project(vec![], "Demo"), Err(ProjectNotFound { name: "Demo".to_string() }));
}

#[test]
fn project_is_not_found_by_its_identifier() {
    assert_eq!(find_project(projects(), "2"), Err(ProjectNotFound { name: "2".to_string() }));
}

#[test]
fn locale_is_found_by_its_name() {
    let listed = vec![locale("x", "de"), locale("y", "en"), locale("z", "en-GB")];
    assert_eq!(find_locale(listed, "en"), Ok(locale("y", "en")));
}

#[test]
fn locale_name_in_other_case_or_in_part_is_not_found() {
    for name in ["EN", "En", "e", "en-", "en-G", "n", ""] {
        let listed = vec![locale("x", "de"), locale("y", "en"), locale("z", "en-GB")];
        assert_eq!(find_locale(listed, name), Err(LocaleNotFound { name: name.to_string() }));
    }
}

#[test]
fn first_of_two_locales_of_one_name_is_taken() {
    let listed = vec![locale("x", "en"), locale("y", "en")];
    assert_eq!(find_locale(listed, "en"), Ok(locale("x", "en")));
}

#[test]
fn last_locale_is_found() {
    let listed = vec![locale("x", "de"), locale("y", "fr"), locale("z", "en")];
    assert_eq!(find_locale(listed, "en"), Ok(locale("z", "en")));
}
