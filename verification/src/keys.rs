//! Keys of a project, and the requests that create them and attach their
//! translations.

use crate::records::{NewKey, Record};
use crate::request::{phrase_req, request_for, Method, Request, RequestView, Token, Verb};
use crate::resolver::{project_path, Locale, Named, Project};
use vstd::prelude::*;
use vstd::string::*;

verus! {

/// A key as the service holds it.
#[derive(Debug, PartialEq, Eq)]
pub struct Key {
    pub id: String,
    pub name: String,
}

impl View for Key {
    type V = Named;

    open spec fn view(&self) -> Named {
        Named { id: self.id@, name: self.name@ }
    }
}

impl DeepView for Key {
    type V = Named;

    open spec fn deep_view(&self) -> Named {
        self@
    }
}

/// The path under which a project's keys are created.
pub open spec fn keys_path(project_id: Seq<char>) -> Seq<char> {
    project_path(project_id, "/keys"@)
}

/// The path under which a project's translations are created.
pub open spec fn translations_path(project_id: Seq<char>) -> Seq<char> {
    project_path(project_id, "/translations"@)
}

/// The request that creates the key of `record` in a project: a form with
/// the key's name.
pub open spec fn create_key_request(project: Named, record: Record, token: Seq<char>)
    -> RequestView {
    request_for(Verb::Post(seq![("name"@, record.key)]), keys_path(project.id), token)
}

/// The request that attaches a translation to a created key: a form with
/// the locale, the key and the content, in this order.
pub open spec fn upload_translation_request(
    project: Named,
    locale: Named,
    pair: (Named, Seq<char>),
    token: Seq<char>,
) -> RequestView {
    request_for(
        Verb::Post(seq![("locale_id"@, locale.id), ("key_id"@, pair.0.id), ("content"@, pair.1)]),
        translations_path(project.id),
        token,
    )
}

/// Prepares the request that creates `key` in `project`.
pub fn create_key(project: &Project, key: &NewKey, token: &Token) -> (request: Request)
    ensures
        request@ == create_key_request(project@, key@, token@),
{
    let mut params: Vec<(String, String)> = Vec::new();
    params.push((String::from_str("name"), key.key.clone()));
    proof {
        assert(params.deep_view() == seq![("name"@, key@.key)]);
    }
    let path = project.path("/keys");
    phrase_req(Method::Post(params), path.as_str(), token)
}

/// Prepares the request that attaches to a created key, in `locale`, the
/// translation it is paired with.
pub fn upload_translation(
    project: &Project,
    locale: &Locale,
    pair: &(Key, String),
    token: &Token,
) -> (request: Request)
    ensures
        request@ == upload_translation_request(project@, locale@, pair.deep_view(), token@),
{
    let mut params: Vec<(String, String)> = Vec::new();
    params.push((String::from_str("locale_id"), locale.id.clone()));
    params.push((String::from_str("key_id"), pair.0.id.clone()));
    params.push((String::from_str("content"), pair.1.clone()));
    proof {
        assert(params.deep_view() == seq![
            ("locale_id"@, locale@.id),
            ("key_id"@, pair.deep_view().0.id),
            ("content"@, pair.deep_view().1),
        ]);
    }
    let path = project.path("/translations");
    phrase_req(Method::Post(params), path.as_str(), token)
}

} // verus!
