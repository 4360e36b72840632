//! The supervisor's laws: what holds of whole operation sequences, proved
//! from the transition functions the executable operations are specified
//! against.

use vstd::prelude::*;
use crate::monitor::Notice;
use crate::monitor::ProcessEvent;
use crate::monitor::is_ready_event;
use crate::monitor::notice_for;
use crate::monitor::ready_after;
use crate::registry::start_transition;
use crate::registry::stop_transition;

verus! {

/// Law: two start requests in sequence, with no stop between them, spawn at
/// most one process. After a first request that spawned and recorded its
/// handle, the second request decides not to spawn and leaves the registry
/// unchanged; from an empty registry, the two requests spawn exactly once.
pub proof fn lemma_start_is_idempotent(state: Option<u64>, first_handle: u64, second_handle: u64)
    ensures
        ({
            let (after_first, first_spawned) = start_transition(state, first_handle);
            let (after_second, second_spawned) = start_transition(after_first, second_handle);
            &&& !(first_spawned && second_spawned)
            &&& state is None ==> first_spawned && !second_spawned
            &&& after_second == after_first
        }),
{
}

/// Law: after a start, one stop request issues exactly one kill request and
/// empties the registry, and a repeated stop finds nothing to kill.
pub proof fn lemma_stop_after_start(state: Option<u64>, handle: u64)
    ensures
        ({
            let (after_start, _) = start_transition(state, handle);
            let (after_stop, first_action) = stop_transition(after_start);
            let (after_repeat, repeat_action) = stop_transition(after_stop);
            &&& first_action is Kill
            &&& after_stop is None
            &&& repeat_action is NotRunning
            &&& after_repeat is None
        }),
{
}

/// How many ready notices a session whose latch starts at `was_ready` emits
/// over a sequence of events.
pub open spec fn session_ready_count(was_ready: bool, events: Seq<ProcessEvent>) -> nat
    decreases events.len(),
{
    if events.len() == 0 {
        0
    } else {
        let head: nat = if notice_for(was_ready, events.first()) == Some(Notice::Ready) {
            1
        } else {
            0
        };
        head + session_ready_count(ready_after(was_ready, events.first()), events.drop_first())
    }
}

/// Some event of the sequence shows a readiness banner.
pub open spec fn has_ready_event(events: Seq<ProcessEvent>) -> bool {
    exists|i: int| 0 <= i < events.len() && #[trigger] is_ready_event(events[i])
}

/// Law: once the readiness latch is set, a session emits no further ready
/// notice, whatever events follow.
pub proof fn lemma_latched_session_emits_no_ready(events: Seq<ProcessEvent>)
    ensures
        session_ready_count(true, events) == 0,
    decreases events.len(),
{
    if events.len() > 0 {
        lemma_latched_session_emits_no_ready(events.drop_first());
    }
}

/// Law: a fresh monitoring session emits the ready notice exactly once if
/// any output line shows a readiness banner — however many banner lines
/// follow the first — and never otherwise.
pub proof fn lemma_ready_notified_exactly_once(events: Seq<ProcessEvent>)
    ensures
        session_ready_count(false, events) == if has_ready_event(events) {
            1nat
        } else {
            0nat
        },
    decreases events.len(),
{
    if events.len() == 0 {
        assert(!has_ready_event(events));
    } else {
        let head = events.first();
        let rest = events.drop_first();
        if is_ready_event(head) {
            assert(notice_for(false, head) == Some(Notice::Ready));
            lemma_latched_session_emits_no_ready(rest);
            assert(is_ready_event(events[0]));
            assert(has_ready_event(events));
        } else {
            assert(notice_for(false, head) != Some(Notice::Ready));
            assert(!ready_after(false, head));
            lemma_ready_notified_exactly_once(rest);
            if has_ready_event(rest) {
                let j = choose|j: int| 0 <= j < rest.len() && #[trigger] is_ready_event(rest[j]);
                assert(rest[j] == events[j + 1]);
                assert(is_ready_event(events[j + 1]));
                assert(has_ready_event(events));
            }
            if has_ready_event(events) {
                let i = choose|i: int| 0 <= i < events.len() && #[trigger] is_ready_event(events[i]);
                assert(i != 0);
                assert(events[i] == rest[i - 1]);
                assert(is_ready_event(rest[i - 1]));
                assert(has_ready_event(rest));
            }
        }
    }
}

/// Law: a session emits the ready notice at most once, whatever the latch
/// started as and whatever the events are.
pub proof fn lemma_ready_notified_at_most_once(was_ready: bool, events: Seq<ProcessEvent>)
    ensures
        session_ready_count(was_ready, events) <= 1,
{
    if was_ready {
        lemma_latched_session_emits_no_ready(events);
    } else {
        lemma_ready_notified_exactly_once(events);
    }
}

/// The exit codes of the terminated notices a session emits over a sequence
/// of events.
pub open spec fn session_exit_notices(was_ready: bool, events: Seq<ProcessEvent>) -> Seq<
    Option<i32>,
>
    decreases events.len(),
{
    if events.len() == 0 {
        Seq::empty()
    } else {
        let head: Seq<Option<i32>> = match notice_for(was_ready, events.first()) {
            Some(Notice::Terminated(code)) => seq![code],
            _ => Seq::empty(),
        };
        head + session_exit_notices(ready_after(was_ready, events.first()), events.drop_first())
    }
}

/// Law: a session whose event stream closes with the process's termination
/// event — after any run of output lines, readiness included — emits exactly
/// one terminated notice, and it carries that termination's exit code.
pub proof fn lemma_one_exit_notice(was_ready: bool, events: Seq<ProcessEvent>, code: Option<i32>)
    requires
        forall|i: int| 0 <= i < events.len() ==> !(#[trigger] events[i] is Terminated),
    ensures
        session_exit_notices(was_ready, events.push(ProcessEvent::Terminated(code))) =~= seq![
            code,
        ],
    decreases events.len(),
{
    let full = events.push(ProcessEvent::Terminated(code));
    if events.len() == 0 {
        assert(full.first() == ProcessEvent::Terminated(code));
        assert(notice_for(was_ready, full.first()) == Some(Notice::Terminated(code)));
        assert(full.drop_first() =~= Seq::<ProcessEvent>::empty());
        assert(session_exit_notices(ready_after(was_ready, full.first()), full.drop_first())
            =~= Seq::<Option<i32>>::empty());
        assert(session_exit_notices(was_ready, full) =~= seq![code] + Seq::<Option<i32>>::empty());
    } else {
        assert(full.first() == events[0]);
        assert(!(events[0] is Terminated));
        assert(match notice_for(was_ready, full.first()) {
            Some(Notice::Terminated(c)) => false,
            _ => true,
        });
        assert(full.drop_first() =~= events.drop_first().push(ProcessEvent::Terminated(code)));
        assert forall|i: int| 0 <= i < events.drop_first().len() implies !(#[trigger] events.drop_first()[i] is Terminated) by {
            assert(events.drop_first()[i] == events[i + 1]);
        }
        lemma_one_exit_notice(ready_after(was_ready, events[0]), events.drop_first(), code);
        assert(session_exit_notices(ready_after(was_ready, full.first()), full.drop_first())
            =~= seq![code]);
        assert(session_exit_notices(was_ready, full) =~= Seq::<Option<i32>>::empty() + seq![code]);
    }
}

} // verus!
