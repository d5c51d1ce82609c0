//! What holds of every upload, whatever is reported to it.

use crate::keys::{create_key_request, upload_translation_request};
use crate::records::Record;
use crate::request::{authorization_of, failure_of, is_success, url_of};
use crate::resolver::{lookup, Named};
use crate::upload::model::{create_from, initial, is_over, outstanding, transition};
use crate::upload::protocol::{ActionView, EventView, Failure, Shape};
use crate::upload::state::{StageView, UploadView};
use vstd::prelude::*;

verus! {

/// The translations of records.
pub open spec fn values_of(records: Seq<Record>) -> Seq<Seq<char>> {
    records.map_values(|record: Record| record.value)
}

/// The translations that created keys are paired with.
pub open spec fn contents_of(pairs: Seq<(Named, Seq<char>)>) -> Seq<Seq<char>> {
    pairs.map_values(|pair: (Named, Seq<char>)| pair.1)
}

/// The translations that an upload has still to attach and to report to the
/// progress display, in the order in which it will do so.
pub open spec fn unattached(stage: StageView) -> Seq<Seq<char>> {
    match stage {
        StageView::Projects { records, .. } => values_of(records),
        StageView::Locales { records, .. } => values_of(records),
        StageView::Keys { current, rest, created, .. } => contents_of(created) + seq![
            current.value,
        ] + values_of(rest),
        StageView::Translations { pair, later, .. } => seq![pair.1] + contents_of(later),
        StageView::Succeeded => Seq::empty(),
        StageView::Failed => Seq::empty(),
    }
}

/// Whether `event` reports that the progress display was advanced for a
/// translation that the upload had attached.
pub open spec fn completes_one(stage: StageView, event: EventView) -> bool {
    match (stage, event) {
        (StageView::Translations { advancing, .. }, EventView::Advanced) => advancing,
        _ => false,
    }
}

/// After its end an upload takes no event: nothing changes, and nothing is
/// asked for.
pub proof fn lemma_end_is_final(upload: UploadView, event: EventView)
    requires
        is_over(upload.stage),
    ensures
        transition(upload, event) == (upload, None::<ActionView>),
{
}

/// What an upload was asked to do stays as it is: the credential, and the
/// names of the project and of the locale.
pub proof fn lemma_settings_kept(upload: UploadView, event: EventView)
    ensures
        transition(upload, event).0.token == upload.token,
        transition(upload, event).0.project_name == upload.project_name,
        transition(upload, event).0.locale_name == upload.locale_name,
{
}

/// Every request that an upload asks to send, a read or a form, carries the
/// upload's credential in its `Authorization` header and goes to its path
/// at the service; and it is then the request whose status is awaited.
pub proof fn lemma_requests_carry_credential(upload: UploadView, event: EventView)
    ensures
        transition(upload, event).1 matches Some(ActionView::Send(request)) ==> {
            &&& request.authorization == authorization_of(upload.token)
            &&& request.url == url_of(request.path)
            &&& outstanding(upload.token, transition(upload, event).0.stage) == Some(request)
        },
{
}

/// A status outside 200 to 299 ends the upload with the failure of the
/// request that was sent, under its path and method; a status from 200 to
/// 299 ends nothing.
pub proof fn lemma_status_decides(upload: UploadView, status: u16)
    requires
        outstanding(upload.token, upload.stage) is Some,
    ensures
        ({
            let request = outstanding(upload.token, upload.stage)->0;
            let (after, action) = transition(upload, EventView::Status(status));
            if is_success(status) {
                !(after.stage is Failed) && !(action matches Some(ActionView::Abort(_)))
            } else {
                after.stage is Failed && action == Some(
                    ActionView::Abort(Failure::RequestFailed(failure_of(request, status))),
                )
            }
        }),
{
}

/// An upload fails with a request failure only on a status outside 200 to
/// 299, and then with the path and method of the request that was sent.
pub proof fn lemma_request_failure_has_cause(upload: UploadView, event: EventView)
    ensures
        transition(upload, event).1 matches Some(
            ActionView::Abort(Failure::RequestFailed(failure)),
        ) ==> {
            &&& event matches EventView::Status(status)
            &&& !is_success(status)
            &&& outstanding(upload.token, upload.stage) matches Some(request)
            &&& failure == failure_of(request, status)
        },
{
}

/// The first failure ends the upload: with an action to abort goes the
/// failed stage, and from there nothing more is asked for.
pub proof fn lemma_failure_stops(upload: UploadView, event: EventView, later: EventView)
    requires
        transition(upload, event).1 matches Some(ActionView::Abort(_)),
    ensures
        transition(upload, event).0.stage is Failed,
        transition(transition(upload, event).0, later).1 is None,
{
}

/// Creating the keys of `records` leaves to attach what the created keys
/// are paired with, and then the translations of `records`.
proof fn lemma_unattached_create(
    token: Seq<char>,
    project: Named,
    locale: Named,
    records: Seq<Record>,
    created: Seq<(Named, Seq<char>)>,
)
    ensures
        unattached(create_from(token, project, locale, records, created).0) == contents_of(created)
            + values_of(records),
{
    if records.len() == 0 {
        if created.len() > 0 {
            assert(seq![created[0].1] + contents_of(created.drop_first()) == contents_of(created));
        }
        assert(contents_of(created) + values_of(records) == contents_of(created));
    } else {
        assert(seq![records[0].value] + values_of(records.drop_first()) == values_of(records));
        assert(contents_of(created) + seq![records[0].value] + values_of(records.drop_first())
            == contents_of(created) + values_of(records));
    }
}

/// The translations are attached in the order of the records, none left
/// out and none twice: unless the upload fails, what is still to attach
/// stays as it is, but for the first, which goes when the progress display
/// has been advanced for it.
pub proof fn lemma_translations_in_order(upload: UploadView, event: EventView)
    ensures
        ({
            let after = transition(upload, event).0;
            !(after.stage is Failed) ==> unattached(after.stage) == if completes_one(
                upload.stage,
                event,
            ) {
                unattached(upload.stage).drop_first()
            } else {
                unattached(upload.stage)
            }
        }),
{
    let after = transition(upload, event).0;
    if !(after.stage is Failed) {
        match (upload.stage, event) {
            (StageView::Locales { records, project, reading }, EventView::Locales(locales)) => {
                if reading {
                    let locale = lookup(locales, upload.locale_name)->0;
                    lemma_unattached_create(
                        upload.token,
                        project,
                        locale,
                        records,
                        Seq::empty(),
                    );
                    assert(contents_of(Seq::empty()) + values_of(records) == values_of(records));
                }
            },
            (
                StageView::Keys { project, locale, current, rest, created, reading },
                EventView::Key(key),
            ) => {
                if reading {
                    let grown = created.push((key, current.value));
                    lemma_unattached_create(upload.token, project, locale, rest, grown);
                    assert(contents_of(grown) == contents_of(created) + seq![current.value]);
                }
            },
            (
                StageView::Translations { project, locale, pair, later, advancing },
                EventView::Advanced,
            ) => {
                if advancing {
                    if later.len() > 0 {
                        assert(seq![later[0].1] + contents_of(later.drop_first()) == contents_of(
                            later,
                        ));
                    }
                    assert((seq![pair.1] + contents_of(later)).drop_first() == contents_of(
                        later,
                    ));
                }
            },
            _ => {},
        }
    }
}

/// The form that is sent for a translation carries the translation that is
/// the first still to attach, for the key that was created for it.
pub proof fn lemma_translation_sent_is_first(upload: UploadView, event: EventView)
    ensures
        ({
            let (after, action) = transition(upload, event);
            match (after.stage, action) {
                (
                    StageView::Translations { project, locale, pair, advancing, .. },
                    Some(action),
                ) => {
                    &&& pair.1 == unattached(after.stage)[0]
                    &&& action == if advancing {
                        ActionView::Advance
                    } else {
                        ActionView::Send(
                            upload_translation_request(project, locale, pair, upload.token),
                        )
                    }
                },
                _ => true,
            }
        }),
{
}

/// The key that is asked for is that of the first record whose key is not
/// yet made, and it will be paired with that record's translation.
pub proof fn lemma_key_sent_is_first(upload: UploadView, event: EventView)
    ensures
        ({
            let (after, action) = transition(upload, event);
            match (after.stage, action) {
                (StageView::Keys { project, current, created, reading, .. }, Some(action)) => {
                    &&& current.value == unattached(after.stage)[created.len() as int]
                    &&& action == if reading {
                        ActionView::Decode(Shape::Key)
                    } else {
                        ActionView::Send(create_key_request(project, current, upload.token))
                    }
                },
                _ => true,
            }
        }),
{
}

/// The upload after a series of events, taken one after the other.
pub open spec fn after_all(upload: UploadView, events: Seq<EventView>) -> UploadView
    decreases events.len(),
{
    if events.len() == 0 {
        upload
    } else {
        transition(after_all(upload, events.drop_last()), events.last()).0
    }
}

/// How often, in a series of events, the progress display was advanced for
/// a translation that the upload had attached.
pub open spec fn advances(upload: UploadView, events: Seq<EventView>) -> nat
    decreases events.len(),
{
    if events.len() == 0 {
        0
    } else {
        let earlier = events.drop_last();
        advances(upload, earlier) + if completes_one(
            after_all(upload, earlier).stage,
            events.last(),
        ) {
            1nat
        } else {
            0nat
        }
    }
}

/// Whatever is reported to an upload, as long as it has not failed the
/// progress display was advanced once for each translation that is no
/// longer to attach.
pub proof fn lemma_progress_counts_translations(upload: UploadView, events: Seq<EventView>)
    ensures
        !(after_all(upload, events).stage is Failed) ==> advances(upload, events) + unattached(
            after_all(upload, events).stage,
        ).len() == unattached(upload.stage).len(),
    decreases events.len(),
{
    if events.len() > 0 && !(after_all(upload, events).stage is Failed) {
        let earlier = events.drop_last();
        let before = after_all(upload, earlier);
        if before.stage is Failed {
            lemma_end_is_final(before, events.last());
        }
        lemma_progress_counts_translations(upload, earlier);
        lemma_translations_in_order(before, events.last());
    }
}

/// An upload that succeeds has advanced the progress display exactly once
/// for every record that it was given.
pub proof fn lemma_success_advances_once_per_record(
    records: Seq<Record>,
    project_name: Seq<char>,
    token: Seq<char>,
    locale_name: Seq<char>,
    events: Seq<EventView>,
)
    requires
        after_all(initial(records, project_name, token, locale_name), events).stage is Succeeded,
    ensures
        advances(initial(records, project_name, token, locale_name), events) == records.len(),
{
    lemma_progress_counts_translations(
        initial(records, project_name, token, locale_name),
        events,
    );
}

} // verus!
