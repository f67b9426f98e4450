//! The decisions of one connection's handler, as a state machine.
//!
//! The handler reads one request line, may wait, reads the file that the
//! route names, writes one response, and is done. Every failure ends the
//! connection without a byte of response. The caller performs each action
//! and reports its outcome as the next event.
use vstd::prelude::*;

use crate::response::{frame_response, response_bytes};
use crate::route::{route_request, spec_route, Route, SLEEP_MILLIS};

verus! {

/// Why a connection ended without a response.
#[derive(Clone, Copy, Debug, PartialEq, Eq, Structural)]
pub enum Failure {
    /// The peer closed before it sent a line.
    PeerDisconnected,
    /// Reading the request line failed.
    ReadFailed,
    /// The response file could not be read.
    FileUnreadable,
    /// Writing the response failed.
    WriteFailed,
}

/// Where a connection's handling stands.
#[derive(Clone, Copy, Debug, PartialEq, Eq, Structural)]
pub enum Stage {
    AwaitingLine,
    Sleeping,
    ReadingFile(Route),
    Writing,
    Finished,
    Failed(Failure),
}

/// The outcome of the last action, as the caller observed it.
#[derive(Debug)]
pub enum Event {
    /// A request line arrived (its line ending removed).
    Line(String),
    /// The input ended before a line.
    Disconnected,
    /// Reading the line failed.
    ReadFailed,
    /// The requested pause is over.
    SleepElapsed,
    /// The response file was read whole.
    FileRead(String),
    /// The response file could not be read.
    FileFailed,
    /// The response was written.
    Written,
    /// Writing the response failed.
    WriteFailed,
}

/// What the caller is to do next.
#[derive(Debug, PartialEq, Eq)]
pub enum Action {
    /// Read one line from the connection.
    ReadLine,
    /// Suspend this connection's task for the given milliseconds.
    Sleep(u64),
    /// Read the whole file at this path as text.
    ReadFile(String),
    /// Write these bytes to the connection.
    Write(Vec<u8>),
    /// The response is out: close the connection.
    Close,
    /// Drop the connection without a response, and report why.
    Abort(Failure),
    /// The event was not one that the current stage waits for.
    Ignore,
}

/// The model of an action.
pub enum ActionView {
    ReadLine,
    Sleep(u64),
    ReadFile(Seq<char>),
    Write(Seq<u8>),
    Close,
    Abort(Failure),
    Ignore,
}

impl View for Action {
    type V = ActionView;

    open spec fn view(&self) -> ActionView {
        match self {
            Action::ReadLine => ActionView::ReadLine,
            Action::Sleep(ms) => ActionView::Sleep(*ms),
            Action::ReadFile(p) => ActionView::ReadFile(p@),
            Action::Write(b) => ActionView::Write(b@),
            Action::Close => ActionView::Close,
            Action::Abort(f) => ActionView::Abort(*f),
            Action::Ignore => ActionView::Ignore,
        }
    }
}

impl Stage {
    /// A stage from which no further action follows.
    pub open spec fn spec_is_terminal(self) -> bool {
        self is Finished || self is Failed
    }
}

/// The transition of the handler on one event: the next stage and action.
pub open spec fn spec_step(stage: Stage, event: Event) -> (Stage, ActionView) {
    match (stage, event) {
        (Stage::AwaitingLine, Event::Line(line)) => {
            let route = spec_route(line@);
            if route.spec_delays() {
                (Stage::Sleeping, ActionView::Sleep(SLEEP_MILLIS))
            } else {
                (Stage::ReadingFile(route), ActionView::ReadFile(route.spec_file_path()))
            }
        },
        (Stage::AwaitingLine, Event::Disconnected) => (
            Stage::Failed(Failure::PeerDisconnected),
            ActionView::Abort(Failure::PeerDisconnected),
        ),
        (Stage::AwaitingLine, Event::ReadFailed) => (
            Stage::Failed(Failure::ReadFailed),
            ActionView::Abort(Failure::ReadFailed),
        ),
        (Stage::Sleeping, Event::SleepElapsed) => (
            Stage::ReadingFile(Route::Sleep),
            ActionView::ReadFile(Route::Sleep.spec_file_path()),
        ),
        (Stage::ReadingFile(route), Event::FileRead(contents)) => (
            Stage::Writing,
            ActionView::Write(response_bytes(route.spec_status(), contents@)),
        ),
        (Stage::ReadingFile(_), Event::FileFailed) => (
            Stage::Failed(Failure::FileUnreadable),
            ActionView::Abort(Failure::FileUnreadable),
        ),
        (Stage::Writing, Event::Written) => (Stage::Finished, ActionView::Close),
        (Stage::Writing, Event::WriteFailed) => (
            Stage::Failed(Failure::WriteFailed),
            ActionView::Abort(Failure::WriteFailed),
        ),
        _ => (stage, ActionView::Ignore),
    }
}

/// The handler of one connection.
#[derive(Debug)]
pub struct ConnectionHandler {
    pub stage: Stage,
}

impl ConnectionHandler {
    /// A handler for a fresh connection, and its first action: read the line.
    pub fn start() -> (r: (ConnectionHandler, Action))
        ensures
            r.0.stage == Stage::AwaitingLine,
            r.1@ == ActionView::ReadLine,
    {
        (ConnectionHandler { stage: Stage::AwaitingLine }, Action::ReadLine)
    }

    /// Takes the outcome of the last action and decides the next one.
    pub fn step(&mut self, event: Event) -> (r: Action)
        ensures
            (final(self).stage, r@) == spec_step(old(self).stage, event),
    {
        let (stage, action) = match (self.stage, event) {
            (Stage::AwaitingLine, Event::Line(line)) => {
                let route = route_request(line.as_str());
                if route.delays() {
                    (Stage::Sleeping, Action::Sleep(SLEEP_MILLIS))
                } else {
                    (Stage::ReadingFile(route), Action::ReadFile(String::from_str(route.file_path())))
                }
            },
            (Stage::AwaitingLine, Event::Disconnected) => (
                Stage::Failed(Failure::PeerDisconnected),
                Action::Abort(Failure::PeerDisconnected),
            ),
            (Stage::AwaitingLine, Event::ReadFailed) => (
                Stage::Failed(Failure::ReadFailed),
                Action::Abort(Failure::ReadFailed),
            ),
            (Stage::Sleeping, Event::SleepElapsed) => (
                Stage::ReadingFile(Route::Sleep),
                Action::ReadFile(String::from_str(Route::Sleep.file_path())),
            ),
            (Stage::ReadingFile(route), Event::FileRead(contents)) => (
                Stage::Writing,
                Action::Write(frame_response(route.status_line(), contents.as_str())),
            ),
            (Stage::ReadingFile(_), Event::FileFailed) => (
                Stage::Failed(Failure::FileUnreadable),
                Action::Abort(Failure::FileUnreadable),
            ),
            (Stage::Writing, Event::Written) => (Stage::Finished, Action::Close),
            (Stage::Writing, Event::WriteFailed) => (
                Stage::Failed(Failure::WriteFailed),
                Action::Abort(Failure::WriteFailed),
            ),
            (stage, _) => (stage, Action::Ignore),
        };
        self.stage = stage;
        action
    }

    /// Whether the handling of this connection is over.
    pub fn is_done(&self) -> (r: bool)
        ensures
            r == self.stage.spec_is_terminal(),
    {
        matches!(self.stage, Stage::Finished | Stage::Failed(_))
    }
}

} // verus!
