//! What an upload does with each event: the stage that follows, and the
//! action to take.

use crate::keys::{create_key_request, upload_translation_request};
use crate::records::Record;
use crate::request::{failure_of, is_success, RequestView};
use crate::resolver::{locales_request, lookup, projects_request, Named};
use crate::upload::protocol::{ActionView, EventView, Failure, Shape};
use crate::upload::state::{StageView, UploadView};
use vstd::prelude::*;

verus! {

/// A stage and the action that goes with it; no action where the event was
/// not the one awaited.
pub type Outcome = (StageView, Option<ActionView>);

/// The request that was sent and whose status is awaited, if there is one.
pub open spec fn outstanding(token: Seq<char>, stage: StageView) -> Option<RequestView> {
    match stage {
        StageView::Projects { reading, .. } if !reading => Some(projects_request(token)),
        StageView::Locales { project, reading, .. } if !reading => Some(
            locales_request(project, token),
        ),
        StageView::Keys { project, current, reading, .. } if !reading => Some(
            create_key_request(project, current, token),
        ),
        StageView::Translations { project, locale, pair, advancing, .. } if !advancing => Some(
            upload_translation_request(project, locale, pair, token),
        ),
        _ => None,
    }
}

/// The shape of the body that is being read, if one is.
pub open spec fn reading(stage: StageView) -> Option<Shape> {
    match stage {
        StageView::Projects { reading, .. } if reading => Some(Shape::Projects),
        StageView::Locales { reading, .. } if reading => Some(Shape::Locales),
        StageView::Keys { reading, .. } if reading => Some(Shape::Key),
        _ => None,
    }
}

/// Whether the upload has ended, well or not.
pub open spec fn is_over(stage: StageView) -> bool {
    stage is Succeeded || stage is Failed
}

/// The upload stops with a failure.
pub open spec fn failed(failure: Failure) -> Outcome {
    (StageView::Failed, Some(ActionView::Abort(failure)))
}

/// Attaches the translations of `pairs`, the first one first; with none
/// left the upload is complete.
pub open spec fn upload_from(
    token: Seq<char>,
    project: Named,
    locale: Named,
    pairs: Seq<(Named, Seq<char>)>,
) -> Outcome {
    if pairs.len() == 0 {
        (StageView::Succeeded, Some(ActionView::Finish))
    } else {
        (
            StageView::Translations {
                project,
                locale,
                pair: pairs[0],
                later: pairs.drop_first(),
                advancing: false,
            },
            Some(
                ActionView::Send(upload_translation_request(project, locale, pairs[0], token)),
            ),
        )
    }
}

/// Creates the keys of `records`, the first one first; with none left the
/// translations of the created keys follow.
pub open spec fn create_from(
    token: Seq<char>,
    project: Named,
    locale: Named,
    records: Seq<Record>,
    created: Seq<(Named, Seq<char>)>,
) -> Outcome {
    if records.len() == 0 {
        upload_from(token, project, locale, created)
    } else {
        (
            StageView::Keys {
                project,
                locale,
                current: records[0],
                rest: records.drop_first(),
                created,
                reading: false,
            },
            Some(ActionView::Send(create_key_request(project, records[0], token))),
        )
    }
}

/// How the upload goes on after a good status.
pub open spec fn after_success(stage: StageView) -> Outcome {
    match stage {
        StageView::Projects { records, reading } => (
            StageView::Projects { records, reading: true },
            Some(ActionView::Decode(Shape::Projects)),
        ),
        StageView::Locales { records, project, reading } => (
            StageView::Locales { records, project, reading: true },
            Some(ActionView::Decode(Shape::Locales)),
        ),
        StageView::Keys { project, locale, current, rest, created, reading } => (
            StageView::Keys { project, locale, current, rest, created, reading: true },
            Some(ActionView::Decode(Shape::Key)),
        ),
        StageView::Translations { project, locale, pair, later, advancing } => (
            StageView::Translations { project, locale, pair, later, advancing: true },
            Some(ActionView::Advance),
        ),
        _ => (stage, None),
    }
}

/// A status came: a good one lets the upload go on, any other is a failure
/// of the request that was sent.
pub open spec fn after_status(token: Seq<char>, stage: StageView, status: u16) -> Outcome {
    match outstanding(token, stage) {
        Some(request) => if is_success(status) {
            after_success(stage)
        } else {
            failed(Failure::RequestFailed(failure_of(request, status)))
        },
        None => (stage, None),
    }
}

/// The request did not reach the service.
pub open spec fn after_unreachable(token: Seq<char>, stage: StageView, message: Seq<char>)
    -> Outcome {
    if outstanding(token, stage) is Some {
        failed(Failure::Transport(message))
    } else {
        (stage, None)
    }
}

/// The body did not have the expected shape.
pub open spec fn after_malformed(stage: StageView, message: Seq<char>) -> Outcome {
    if reading(stage) is Some {
        failed(Failure::Deserialization(message))
    } else {
        (stage, None)
    }
}

/// The projects came: the one that was asked for is looked up, and its
/// locales are asked for.
pub open spec fn after_projects(
    token: Seq<char>,
    project_name: Seq<char>,
    stage: StageView,
    projects: Seq<Named>,
) -> Outcome {
    match stage {
        StageView::Projects { records, reading } if reading => match lookup(
            projects,
            project_name,
        ) {
            Some(project) => (
                StageView::Locales { records, project, reading: false },
                Some(ActionView::Send(locales_request(project, token))),
            ),
            None => failed(Failure::ProjectNotFound(project_name)),
        },
        _ => (stage, None),
    }
}

/// The locales came: the one that was asked for is looked up, and the
/// creation of the keys begins.
pub open spec fn after_locales(
    token: Seq<char>,
    locale_name: Seq<char>,
    stage: StageView,
    locales: Seq<Named>,
) -> Outcome {
    match stage {
        StageView::Locales { records, project, reading } if reading => match lookup(
            locales,
            locale_name,
        ) {
            Some(locale) => create_from(token, project, locale, records, Seq::empty()),
            None => failed(Failure::LocaleNotFound(locale_name)),
        },
        _ => (stage, None),
    }
}

/// A key was created: it is paired with the translation of its record, and
/// the next key follows.
pub open spec fn after_key(token: Seq<char>, stage: StageView, key: Named) -> Outcome {
    match stage {
        StageView::Keys { project, locale, current, rest, created, reading } if reading => {
            create_from(token, project, locale, rest, created.push((key, current.value)))
        },
        _ => (stage, None),
    }
}

/// The progress display was advanced: the next translation follows.
pub open spec fn after_advanced(token: Seq<char>, stage: StageView) -> Outcome {
    match stage {
        StageView::Translations { project, locale, later, advancing, .. } if advancing => {
            upload_from(token, project, locale, later)
        },
        _ => (stage, None),
    }
}

/// The stage that follows an event, and the action to take. An event that
/// is not the one awaited changes nothing and asks for nothing.
pub open spec fn outcome(upload: UploadView, event: EventView) -> Outcome {
    match event {
        EventView::Status(status) => after_status(upload.token, upload.stage, status),
        EventView::Unreachable(message) => after_unreachable(upload.token, upload.stage, message),
        EventView::Projects(projects) => after_projects(
            upload.token,
            upload.project_name,
            upload.stage,
            projects,
        ),
        EventView::Locales(locales) => after_locales(
            upload.token,
            upload.locale_name,
            upload.stage,
            locales,
        ),
        EventView::Key(key) => after_key(upload.token, upload.stage, key),
        EventView::Malformed(message) => after_malformed(upload.stage, message),
        EventView::Advanced => after_advanced(upload.token, upload.stage),
    }
}

/// The upload after an event, and the action to take.
pub open spec fn transition(upload: UploadView, event: EventView) -> (
    UploadView,
    Option<ActionView>,
) {
    let (stage, action) = outcome(upload, event);
    (UploadView { stage, ..upload }, action)
}

/// An upload that has not begun: the projects were asked for.
pub open spec fn initial(
    records: Seq<Record>,
    project_name: Seq<char>,
    token: Seq<char>,
    locale_name: Seq<char>,
) -> UploadView {
    UploadView {
        token,
        project_name,
        locale_name,
        stage: StageView::Projects { records, reading: false },
    }
}

} // verus!
