//! Properties that relate several steps of the two state machines.
use vstd::prelude::*;

use crate::acceptor::{spec_accept_step, AcceptAction, AcceptEvent, AcceptorStage, COOLDOWN_MILLIS};
use crate::connection::{spec_step, ActionView, Event, Failure, Stage};
use crate::response::blank_line;
use crate::route::{
    spec_route, Route, HELLO_PAGE, INDEX_REQUEST, NOT_FOUND_PAGE, SLEEP_MILLIS, SLEEP_REQUEST,
    STATUS_NOT_FOUND, STATUS_OK,
};
use vstd::utf8::encode_utf8;

verus! {

/// A request line other than the two known ones is answered with the
/// not-found status, the blank line, and the not-found page's contents,
/// byte for byte.
pub proof fn lemma_unknown_line_not_found(line: String, contents: String)
    requires
        line@ != INDEX_REQUEST@,
        line@ != SLEEP_REQUEST@,
    ensures
        spec_step(Stage::AwaitingLine, Event::Line(line)) == (
            Stage::ReadingFile(Route::NotFound),
            ActionView::ReadFile(NOT_FOUND_PAGE@),
        ),
        spec_step(Stage::ReadingFile(Route::NotFound), Event::FileRead(contents)) == (
            Stage::Writing,
            ActionView::Write(encode_utf8(STATUS_NOT_FOUND@ + blank_line() + contents@)),
        ),
{
}

/// The index request line is answered with the success status, the blank
/// line, and the hello page's contents, with nothing in between.
pub proof fn lemma_index_line_ok(line: String, contents: String)
    requires
        line@ == INDEX_REQUEST@,
    ensures
        spec_step(Stage::AwaitingLine, Event::Line(line)) == (
            Stage::ReadingFile(Route::Index),
            ActionView::ReadFile(HELLO_PAGE@),
        ),
        spec_step(Stage::ReadingFile(Route::Index), Event::FileRead(contents)) == (
            Stage::Writing,
            ActionView::Write(encode_utf8(STATUS_OK@ + blank_line() + contents@)),
        ),
{
}

/// The sleeping request line first makes its task wait five seconds, with
/// nothing read or written; after that it is answered exactly as the index
/// request line is.
pub proof fn lemma_sleep_answers_like_index(
    index_line: String,
    sleep_line: String,
    contents: String,
)
    requires
        index_line@ == INDEX_REQUEST@,
        sleep_line@ == SLEEP_REQUEST@,
    ensures
        spec_step(Stage::AwaitingLine, Event::Line(sleep_line)) == (
            Stage::Sleeping,
            ActionView::Sleep(SLEEP_MILLIS),
        ),
        SLEEP_MILLIS >= 5000,
        spec_step(Stage::Sleeping, Event::SleepElapsed).1 == spec_step(
            Stage::AwaitingLine,
            Event::Line(index_line),
        ).1,
        ({
            let after_sleep = spec_step(Stage::Sleeping, Event::SleepElapsed).0;
            let after_index = spec_step(Stage::AwaitingLine, Event::Line(index_line)).0;
            spec_step(after_sleep, Event::FileRead(contents)) == spec_step(
                after_index,
                Event::FileRead(contents),
            )
        }),
{
    reveal_strlit("GET / HTTP/1.1");
    reveal_strlit("GET /sleep HTTP/1.1");
    assert(INDEX_REQUEST@.len() != SLEEP_REQUEST@.len());
    assert(spec_route(sleep_line@) == Route::Sleep);
}

/// A write of response bytes comes only from a file that was read: never
/// before a request line has arrived, never after a failure.
pub proof fn lemma_write_only_after_file_read(stage: Stage, event: Event)
    ensures
        spec_step(stage, event).1 is Write ==> (stage is ReadingFile && event is FileRead),
{
}

/// Once a connection has failed, no event makes its handler act again.
pub proof fn lemma_failure_is_final(failure: Failure, event: Event)
    ensures
        spec_step(Stage::Failed(failure), event) == (Stage::Failed(failure), ActionView::Ignore),
{
}

/// A peer that closes before sending a line ends its connection with no
/// response, and the handler does nothing more for it.
pub proof fn lemma_silent_peer_gets_nothing(event: Event)
    ensures
        spec_step(Stage::AwaitingLine, Event::Disconnected) == (
            Stage::Failed(Failure::PeerDisconnected),
            ActionView::Abort(Failure::PeerDisconnected),
        ),
        spec_step(Stage::Failed(Failure::PeerDisconnected), event).1 == ActionView::Ignore,
{
}

/// A response file that cannot be read ends its connection with no
/// response, and the handler does nothing more for it.
pub proof fn lemma_unreadable_file_gets_nothing(route: Route, event: Event)
    ensures
        spec_step(Stage::ReadingFile(route), Event::FileFailed) == (
            Stage::Failed(Failure::FileUnreadable),
            ActionView::Abort(Failure::FileUnreadable),
        ),
        spec_step(Stage::Failed(Failure::FileUnreadable), event).1 == ActionView::Ignore,
{
}

/// A connection is accepted only once capacity is free: right after the
/// wait for capacity, or after a cooldown that followed a failed accept,
/// in which no connection was admitted. After each admission the loop
/// waits for capacity again.
pub proof fn lemma_accept_only_with_capacity(stage: AcceptorStage, event: AcceptEvent)
    ensures
        spec_accept_step(stage, event).1 == AcceptAction::Accept ==> (
        (stage == AcceptorStage::AwaitingCapacity && event == AcceptEvent::CapacityFree) || (
        stage == AcceptorStage::CoolingDown && event == AcceptEvent::CooldownElapsed)),
        spec_accept_step(stage, event).0 == AcceptorStage::CoolingDown ==> (stage
            == AcceptorStage::CoolingDown || (stage == AcceptorStage::Accepting && event
            == AcceptEvent::AcceptFailed)),
        spec_accept_step(AcceptorStage::Admitting, AcceptEvent::Admitted) == (
            AcceptorStage::AwaitingCapacity,
            AcceptAction::AwaitCapacity,
        ),
{
}

/// A failed accept is followed by a pause of at least half a second, during
/// which nothing is accepted and the loop does not stop; after it,
/// acceptance resumes. Only the listener's closing stops the loop.
pub proof fn lemma_accept_error_pauses(event: AcceptEvent, stage: AcceptorStage)
    ensures
        spec_accept_step(AcceptorStage::Accepting, AcceptEvent::AcceptFailed) == (
            AcceptorStage::CoolingDown,
            AcceptAction::ReportAndPause(COOLDOWN_MILLIS),
        ),
        COOLDOWN_MILLIS >= 500,
        event != AcceptEvent::CooldownElapsed ==> spec_accept_step(
            AcceptorStage::CoolingDown,
            event,
        ) == (AcceptorStage::CoolingDown, AcceptAction::Ignore),
        spec_accept_step(AcceptorStage::CoolingDown, AcceptEvent::CooldownElapsed) == (
            AcceptorStage::Accepting,
            AcceptAction::Accept,
        ),
        spec_accept_step(stage, event).0 == AcceptorStage::Closed ==> (stage
            == AcceptorStage::Closed || event == AcceptEvent::ListenerClosed),
{
}

} // verus!
