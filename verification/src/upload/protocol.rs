//! What passes between an upload and whoever carries it out: the actions it
//! asks for, the events it is told of, and the errors it ends with.

use crate::keys::Key;
use crate::request::{Request, RequestFailed, RequestFailedView, RequestView};
use crate::resolver::{Locale, LocaleNotFound, Named, Project, ProjectNotFound};
use vstd::prelude::*;

verus! {

/// Why an upload stopped.
#[derive(Debug, PartialEq, Eq)]
pub enum UploadError {
    /// The service answered a request with a status outside 200 to 299.
    RequestFailed(RequestFailed),
    /// No project has the name that was asked for.
    ProjectNotFound(ProjectNotFound),
    /// No locale of the project has the name that was asked for.
    LocaleNotFound(LocaleNotFound),
    /// A request could not be carried to the service, or no answer came.
    Transport(String),
    /// An answer did not have the expected shape.
    Deserialization(String),
}

/// What an `UploadError` stands for.
pub ghost enum Failure {
    RequestFailed(RequestFailedView),
    ProjectNotFound(Seq<char>),
    LocaleNotFound(Seq<char>),
    Transport(Seq<char>),
    Deserialization(Seq<char>),
}

impl View for UploadError {
    type V = Failure;

    open spec fn view(&self) -> Failure {
        match self {
            UploadError::RequestFailed(e) => Failure::RequestFailed(e@),
            UploadError::ProjectNotFound(e) => Failure::ProjectNotFound(e.name@),
            UploadError::LocaleNotFound(e) => Failure::LocaleNotFound(e.name@),
            UploadError::Transport(message) => Failure::Transport(message@),
            UploadError::Deserialization(message) => Failure::Deserialization(message@),
        }
    }
}

/// What the body of an answer is expected to hold.
#[derive(Debug, PartialEq, Eq)]
pub enum Shape {
    /// A list of projects.
    Projects,
    /// A list of locales.
    Locales,
    /// One key.
    Key,
}

/// What is to be done next.
#[derive(Debug, PartialEq, Eq)]
pub enum Action {
    /// Send the request, and report the status of the answer.
    Send(Request),
    /// Read the body of the last answer, and report what it holds.
    Decode(Shape),
    /// Advance the progress display by one, and report that it was done.
    Advance,
    /// The upload is complete.
    Finish,
    /// The upload has failed.
    Abort(UploadError),
}

/// What an `Action` stands for.
pub ghost enum ActionView {
    Send(RequestView),
    Decode(Shape),
    Advance,
    Finish,
    Abort(Failure),
}

impl View for Action {
    type V = ActionView;

    open spec fn view(&self) -> ActionView {
        match self {
            Action::Send(request) => ActionView::Send(request@),
            Action::Decode(shape) => ActionView::Decode(*shape),
            Action::Advance => ActionView::Advance,
            Action::Finish => ActionView::Finish,
            Action::Abort(error) => ActionView::Abort(error@),
        }
    }
}

impl DeepView for Action {
    type V = ActionView;

    open spec fn deep_view(&self) -> ActionView {
        self@
    }
}

/// What came of the last action.
#[derive(Debug, PartialEq, Eq)]
pub enum Event {
    /// The request was answered with this status.
    Status(u16),
    /// The request could not be carried to the service, or no answer came.
    Unreachable(String),
    /// The body held these projects.
    Projects(Vec<Project>),
    /// The body held these locales.
    Locales(Vec<Locale>),
    /// The body held this key.
    Key(Key),
    /// The body did not have the expected shape.
    Malformed(String),
    /// The progress display was advanced.
    Advanced,
}

/// What an `Event` stands for.
pub ghost enum EventView {
    Status(u16),
    Unreachable(Seq<char>),
    Projects(Seq<Named>),
    Locales(Seq<Named>),
    Key(Named),
    Malformed(Seq<char>),
    Advanced,
}

impl View for Event {
    type V = EventView;

    open spec fn view(&self) -> EventView {
        match self {
            Event::Status(status) => EventView::Status(*status),
            Event::Unreachable(message) => EventView::Unreachable(message@),
            Event::Projects(projects) => EventView::Projects(projects.deep_view()),
            Event::Locales(locales) => EventView::Locales(locales.deep_view()),
            Event::Key(key) => EventView::Key(key@),
            Event::Malformed(message) => EventView::Malformed(message@),
            Event::Advanced => EventView::Advanced,
        }
    }
}

} // verus!
