//! How far an upload has come.

use crate::keys::Key;
use crate::records::{NewKey, Record};
use crate::request::Token;
use crate::resolver::{Locale, Named, Project};
use vstd::prelude::*;

verus! {

/// How far an upload has come, with what it still has to work on.
#[derive(Debug, PartialEq, Eq)]
pub enum Stage {
    /// The projects were asked for. `reading`: the status was good and the
    /// body is being read.
    Projects { records: Vec<NewKey>, reading: bool },
    /// The project is known, and its locales were asked for.
    Locales { records: Vec<NewKey>, project: Project, reading: bool },
    /// Project and locale are known. The creation of the key of `current`
    /// was asked for; `rest` follows it, and `created` holds the keys made
    /// so far, each with its translation.
    Keys {
        project: Project,
        locale: Locale,
        current: NewKey,
        rest: Vec<NewKey>,
        created: Vec<(Key, String)>,
        reading: bool,
    },
    /// All keys are made. The translation of `pair` was sent; `later`
    /// follows it. `advancing`: the status was good and the progress
    /// display is being advanced.
    Translations {
        project: Project,
        locale: Locale,
        pair: (Key, String),
        later: Vec<(Key, String)>,
        advancing: bool,
    },
    /// Every translation is attached.
    Succeeded,
    /// The upload stopped at the first failure.
    Failed,
}

/// What a `Stage` stands for.
pub ghost enum StageView {
    Projects { records: Seq<Record>, reading: bool },
    Locales { records: Seq<Record>, project: Named, reading: bool },
    Keys {
        project: Named,
        locale: Named,
        current: Record,
        rest: Seq<Record>,
        created: Seq<(Named, Seq<char>)>,
        reading: bool,
    },
    Translations {
        project: Named,
        locale: Named,
        pair: (Named, Seq<char>),
        later: Seq<(Named, Seq<char>)>,
        advancing: bool,
    },
    Succeeded,
    Failed,
}

impl View for Stage {
    type V = StageView;

    open spec fn view(&self) -> StageView {
        match self {
            Stage::Projects { records, reading } => StageView::Projects {
                records: records.deep_view(),
                reading: *reading,
            },
            Stage::Locales { records, project, reading } => StageView::Locales {
                records: records.deep_view(),
                project: project@,
                reading: *reading,
            },
            Stage::Keys { project, locale, current, rest, created, reading } => StageView::Keys {
                project: project@,
                locale: locale@,
                current: current@,
                rest: rest.deep_view(),
                created: created.deep_view(),
                reading: *reading,
            },
            Stage::Translations { project, locale, pair, later, advancing } => {
                StageView::Translations {
                    project: project@,
                    locale: locale@,
                    pair: pair.deep_view(),
                    later: later.deep_view(),
                    advancing: *advancing,
                }
            },
            Stage::Succeeded => StageView::Succeeded,
            Stage::Failed => StageView::Failed,
        }
    }
}

/// An upload: what it was asked to do, and how far it has come.
#[derive(Debug, PartialEq, Eq)]
pub struct Upload {
    pub token: Token,
    pub project_name: String,
    pub locale_name: String,
    pub stage: Stage,
}

/// What an `Upload` stands for.
pub ghost struct UploadView {
    pub token: Seq<char>,
    pub project_name: Seq<char>,
    pub locale_name: Seq<char>,
    pub stage: StageView,
}

impl View for Upload {
    type V = UploadView;

    open spec fn view(&self) -> UploadView {
        UploadView {
            token: self.token@,
            project_name: self.project_name@,
            locale_name: self.locale_name@,
            stage: self.stage@,
        }
    }
}

} // verus!
