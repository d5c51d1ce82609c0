//! Projects and locales of the service, found by their names.

use crate::request::{phrase_req, request_for, Method, Request, RequestView, Token, Verb};
use vstd::prelude::*;
use vstd::string::*;

verus! {

/// A project of the service.
#[derive(Debug, PartialEq, Eq)]
pub struct Project {
    pub id: String,
    pub name: String,
}

/// A locale of a project.
#[derive(Debug, PartialEq, Eq)]
pub struct Locale {
    pub id: String,
    pub name: String,
}

/// What the service's projects, locales and keys stand for: an identifier
/// and a name.
pub ghost struct Named {
    pub id: Seq<char>,
    pub name: Seq<char>,
}

impl View for Project {
    type V = Named;

    open spec fn view(&self) -> Named {
        Named { id: self.id@, name: self.name@ }
    }
}

impl DeepView for Project {
    type V = Named;

    open spec fn deep_view(&self) -> Named {
        self@
    }
}

impl View for Locale {
    type V = Named;

    open spec fn view(&self) -> Named {
        Named { id: self.id@, name: self.name@ }
    }
}

impl DeepView for Locale {
    type V = Named;

    open spec fn deep_view(&self) -> Named {
        self@
    }
}

/// No project has the name that was asked for.
#[derive(Debug, PartialEq, Eq)]
pub struct ProjectNotFound {
    pub name: String,
}

/// No locale of the project has the name that was asked for.
#[derive(Debug, PartialEq, Eq)]
pub struct LocaleNotFound {
    pub name: String,
}

/// The path under which the service lists the projects.
pub const PROJECTS_PATH: &'static str = "/api/v2/projects";

/// The path of what belongs to a project: the project's own path, and
/// `tail` behind it.
pub open spec fn project_path(project_id: Seq<char>, tail: Seq<char>) -> Seq<char> {
    "/api/v2/projects/"@ + project_id + tail
}

/// The path under which the service lists the locales of a project.
pub open spec fn locales_path(project_id: Seq<char>) -> Seq<char> {
    project_path(project_id, "/locales"@)
}

/// The request that lists the projects.
pub open spec fn projects_request(token: Seq<char>) -> RequestView {
    request_for(Verb::Get, PROJECTS_PATH@, token)
}

/// The request that lists the locales of a project.
pub open spec fn locales_request(project: Named, token: Seq<char>) -> RequestView {
    request_for(Verb::Get, locales_path(project.id), token)
}

/// Whether `items[i]` is called `name`, letter for letter, and no item
/// before it is.
pub open spec fn is_first_named(items: Seq<Named>, name: Seq<char>, i: int) -> bool {
    &&& 0 <= i < items.len()
    &&& items[i].name == name
    &&& forall|j: int| 0 <= j < i ==> (#[trigger] items[j]).name != name
}

/// Whether some item is called `name`, letter for letter.
pub open spec fn has_named(items: Seq<Named>, name: Seq<char>) -> bool {
    exists|i: int| 0 <= i < items.len() && (#[trigger] items[i]).name == name
}

/// The first item that is called `name`, if there is one.
pub open spec fn lookup(items: Seq<Named>, name: Seq<char>) -> Option<Named> {
    if exists|i: int| is_first_named(items, name, i) {
        Some(items[choose|i: int| is_first_named(items, name, i)])
    } else {
        None
    }
}

/// A lookup finds the item at `i` if that is the first one of that name.
pub proof fn lemma_lookup_first(items: Seq<Named>, name: Seq<char>, i: int)
    requires
        is_first_named(items, name, i),
    ensures
        lookup(items, name) == Some(items[i]),
{
    let k = choose|k: int| is_first_named(items, name, k);
    assert(is_first_named(items, name, k));
    if k < i {
        assert(items[k].name != name);
    }
    if i < k {
        assert(items[i].name != name);
    }
}

/// A lookup finds something exactly if some item has the name, letter for
/// letter: a name that differs in case, or is only part of an item's name,
/// finds nothing.
pub proof fn lemma_lookup_exact(items: Seq<Named>, name: Seq<char>)
    ensures
        lookup(items, name) is Some <==> has_named(items, name),
        lookup(items, name) matches Some(found) ==> found.name == name,
    decreases items.len(),
{
    if has_named(items, name) {
        let i = choose|i: int| 0 <= i < items.len() && (#[trigger] items[i]).name == name;
        lemma_first_exists(items, name, i);
    }
    if lookup(items, name) is Some {
        let k = choose|k: int| is_first_named(items, name, k);
        assert(is_first_named(items, name, k));
        assert(items[k].name == name);
    }
}

/// Where an item at `i` has the name, there is a first one that has it.
proof fn lemma_first_exists(items: Seq<Named>, name: Seq<char>, i: int)
    requires
        0 <= i < items.len(),
        items[i].name == name,
    ensures
        exists|k: int| is_first_named(items, name, k),
    decreases i,
{
    if forall|j: int| 0 <= j < i ==> (#[trigger] items[j]).name != name {
        assert(is_first_named(items, name, i));
    } else {
        let j = choose|j: int| 0 <= j < i && (#[trigger] items[j]).name == name;
        lemma_first_exists(items, name, j);
    }
}

impl Project {
    /// The path of what belongs to this project.
    pub fn path(&self, tail: &str) -> (path: String)
        ensures
            path@ == project_path(self.id@, tail@),
    {
        let mut path = String::from_str("/api/v2/projects/");
        path.append(self.id.as_str());
        path.append(tail);
        path
    }
}

/// Prepares the request that lists the projects.
pub fn list_projects(token: &Token) -> (request: Request)
    ensures
        request@ == projects_request(token@),
{
    phrase_req(Method::Get, PROJECTS_PATH, token)
}

/// Prepares the request that lists the locales of `project`.
pub fn list_locales(project: &Project, token: &Token) -> (request: Request)
    ensures
        request@ == locales_request(project@, token@),
{
    let path = project.path("/locales");
    phrase_req(Method::Get, path.as_str(), token)
}

/// Picks from the listed projects the first one called `name`, letter for
/// letter; without one, the lookup fails and names what was asked for.
pub fn find_project(projects: Vec<Project>, name: &str) -> (found: Result<Project, ProjectNotFound>)
    ensures
        match lookup(projects.deep_view(), name@) {
            Some(project) => found matches Ok(p) && p@ == project,
            None => found matches Err(e) && e.name@ == name@,
        },
{
    let mut list = projects;
    let wanted = name.to_owned();
    let ghost items = projects.deep_view();
    let mut i: usize = 0;
    while i < list.len()
        invariant
            i <= list.len(),
            wanted@ == name@,
            items == projects.deep_view(),
            items == list.deep_view(),
            forall|j: int| 0 <= j < i ==> (#[trigger] items[j]).name != name@,
        decreases list.len() - i,
    {
        assert(items[i as int] == list[i as int]@);
        if list[i].name == wanted {
            proof {
                lemma_lookup_first(items, name@, i as int);
            }
            let project = list.swap_remove(i);
            return Ok(project);
        }
        i = i + 1;
    }
    proof {
        assert forall|k: int| !is_first_named(items, name@, k) by {
            if 0 <= k < items.len() {
                assert(items[k].name != name@);
            }
        }
    }
    Err(ProjectNotFound { name: wanted })
}

/// Picks from the listed locales the first one called `name`, letter for
/// letter; without one, the lookup fails and names what was asked for.
pub fn find_locale(locales: Vec<Locale>, name: &str) -> (found: Result<Locale, LocaleNotFound>)
    ensures
        match lookup(locales.deep_view(), name@) {
            Some(locale) => found matches Ok(l) && l@ == locale,
            None => found matches Err(e) && e.name@ == name@,
        },
{
    let mut list = locales;
    let wanted = name.to_owned();
    let ghost items = locales.deep_view();
    let mut i: usize = 0;
    while i < list.len()
        invariant
            i <= list.len(),
            wanted@ == name@,
            items == locales.deep_view(),
            items == list.deep_view(),
            forall|j: int| 0 <= j < i ==> (#[trigger] items[j]).name != name@,
        decreases list.len() - i,
    {
        assert(items[i as int] == list[i as int]@);
        if list[i].name == wanted {
            proof {
                lemma_lookup_first(items, name@, i as int);
            }
            let locale = list.swap_remove(i);
            return Ok(locale);
        }
        i = i + 1;
    }
    proof {
        assert forall|k: int| !is_first_named(items, name@, k) by {
            if 0 <= k < items.len() {
                assert(items[k].name != name@);
            }
        }
    }
    Err(LocaleNotFound { name: wanted })
}

} // verus!
