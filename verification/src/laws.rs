//! What holds of every run of a session: the order of what it relays, and
//! its silence once it has ended.

use crate::session::{
    actions_for, delivered, ends, inbound_of, outbound_of, sent, state_after, transition, Action,
    Event, Mode, Plan, Session,
};
use vstd::prelude::*;

verus! {

/// A session only advances: from connecting to running or terminated, from
/// running to terminated. No event takes it back to connecting, none changes
/// the mode of a running session, and none revives a terminated one.
pub proof fn law_session_only_advances<M>(session: Session<M>, event: Event<M>)
    ensures
        session is Terminated ==> transition(session, event).0 is Terminated,
        session matches Session::Running(mode) ==> transition(session, event).0
            == Session::<M>::Running(mode) || transition(session, event).0 is Terminated,
        transition(session, event).0 is Connecting ==> transition(session, event).0 == session,
{
}

/// Every event is answered with one action.
pub proof fn law_one_action_per_event<M>(session: Session<M>, events: Seq<Event<M>>)
    ensures
        actions_for(session, events).len() == events.len(),
    decreases events.len(),
{
    if events.len() > 0 {
        law_one_action_per_event(session, events.drop_last());
    }
}

/// How `sent` and `delivered` take one more action.
pub proof fn lemma_one_more_action<M>(actions: Seq<Action<M>>, action: Action<M>)
    ensures
        sent(actions.push(action)) == match action {
            Action::Send(message) => sent(actions).push(message),
            _ => sent(actions),
        },
        delivered(actions.push(action)) == match action {
            Action::Deliver(text) => delivered(actions).push(text),
            _ => delivered(actions),
        },
{
    assert(actions.push(action).drop_last() =~= actions);
}

/// A terminated session stays terminated and asks for nothing: every action
/// is `Idle`, so nothing is written and the callback is not called.
pub proof fn law_terminated_is_silent<M>(events: Seq<Event<M>>)
    ensures
        state_after(Session::Terminated, events) == Session::<M>::Terminated,
        actions_for(Session::Terminated, events).len() == events.len(),
        forall|i: int|
            0 <= i < events.len() ==> #[trigger] actions_for(Session::Terminated, events)[i]
                == Action::<M>::Idle,
        sent(actions_for(Session::Terminated, events)) == Seq::<M>::empty(),
        delivered(actions_for(Session::Terminated, events)) == Seq::<String>::empty(),
    decreases events.len(),
{
    if events.len() > 0 {
        law_terminated_is_silent(events.drop_last());
        lemma_one_more_action(
            actions_for(Session::<M>::Terminated, events.drop_last()),
            Action::<M>::Idle,
        );
    }
}

/// A running session stays in its mode until the first event that ends it,
/// and is terminated from then on.
pub proof fn lemma_running_or_terminated<M>(mode: Mode, events: Seq<Event<M>>)
    ensures
        actions_for(Session::Running(mode), events).len() == events.len(),
        (exists|i: int| 0 <= i < events.len() && ends(mode, events[i])) ==> state_after(
            Session::Running(mode),
            events,
        ) == Session::<M>::Terminated,
        !(exists|i: int| 0 <= i < events.len() && ends(mode, events[i])) ==> state_after(
            Session::Running(mode),
            events,
        ) == Session::<M>::Running(mode),
    decreases events.len(),
{
    if events.len() > 0 {
        let init = events.drop_last();
        lemma_running_or_terminated(mode, init);
        if exists|i: int| 0 <= i < init.len() && ends(mode, init[i]) {
            let i = choose|i: int| 0 <= i < init.len() && ends(mode, init[i]);
            assert(ends(mode, events[i]));
        } else if ends(mode, events.last()) {
            assert(ends(mode, events[events.len() - 1]));
        } else {
            assert forall|i: int| 0 <= i < events.len() implies !ends(mode, events[i]) by {
                if i < init.len() {
                    assert(events[i] == init[i]);
                }
            }
        }
    }
}

/// Outbound order. A running bridge writes the messages of its outbound
/// queue to the socket in the order in which the queue handed them over,
/// each once and none left out, as long as none is handed over after the
/// event that ends the session.
pub proof fn law_outbound_order<M>(events: Seq<Event<M>>)
    requires
        forall|i: int, j: int|
            0 <= i < j < events.len() && ends(Mode::Bridge, #[trigger] events[i])
                ==> !(#[trigger] events[j] is Outbound),
    ensures
        sent(actions_for(Session::Running(Mode::Bridge), events)) == outbound_of(events),
    decreases events.len(),
{
    if events.len() > 0 {
        let init = events.drop_last();
        assert forall|i: int, j: int|
            0 <= i < j < init.len() && ends(Mode::Bridge, #[trigger] init[i]) implies !(
        #[trigger] init[j] is Outbound) by {
            assert(init[i] == events[i] && init[j] == events[j]);
        }
        law_outbound_order(init);
        lemma_running_or_terminated(Mode::Bridge, init);
        if exists|i: int| 0 <= i < init.len() && ends(Mode::Bridge, init[i]) {
            let i = choose|i: int| 0 <= i < init.len() && ends(Mode::Bridge, init[i]);
            assert(ends(Mode::Bridge, events[i]));
            assert(!(events[events.len() - 1] is Outbound));
        }
        lemma_one_more_action(
            actions_for(Session::Running(Mode::Bridge), init),
            transition(state_after(Session::Running(Mode::Bridge), init), events.last()).1,
        );
    }
}

/// Inbound order. A running session hands the texts of the frames that the
/// socket delivered to the callback in the order of their arrival, each once
/// and none left out, as long as none arrives after the event that ends the
/// session. Every delivery is the one action of its event, so one is done
/// before the next begins.
pub proof fn law_inbound_order<M>(mode: Mode, events: Seq<Event<M>>)
    requires
        forall|i: int, j: int|
            0 <= i < j < events.len() && ends(mode, #[trigger] events[i]) ==> !(
            #[trigger] events[j] is Inbound),
    ensures
        delivered(actions_for(Session::Running(mode), events)) == inbound_of(events),
    decreases events.len(),
{
    if events.len() > 0 {
        let init = events.drop_last();
        assert forall|i: int, j: int|
            0 <= i < j < init.len() && ends(mode, #[trigger] init[i]) implies !(
        #[trigger] init[j] is Inbound) by {
            assert(init[i] == events[i] && init[j] == events[j]);
        }
        law_inbound_order(mode, init);
        lemma_running_or_terminated(mode, init);
        if exists|i: int| 0 <= i < init.len() && ends(mode, init[i]) {
            let i = choose|i: int| 0 <= i < init.len() && ends(mode, init[i]);
            assert(ends(mode, events[i]));
            assert(!(events[events.len() - 1] is Inbound));
        }
        lemma_one_more_action(
            actions_for(Session::Running(mode), init),
            transition(state_after(Session::Running(mode), init), events.last()).1,
        );
    }
}

/// A run over two stretches of events is the run over the first, followed
/// by the run over the second from the state that the first one left.
pub proof fn lemma_run_in_two<M>(session: Session<M>, first: Seq<Event<M>>, second: Seq<Event<M>>)
    ensures
        state_after(session, first + second) == state_after(state_after(session, first), second),
        actions_for(session, first + second) == actions_for(session, first) + actions_for(
            state_after(session, first),
            second,
        ),
    decreases second.len(),
{
    if second.len() == 0 {
        assert(first + second =~= first);
    } else {
        assert((first + second).drop_last() =~= first + second.drop_last());
        lemma_run_in_two(session, first, second.drop_last());
    }
}

/// What one stretch of actions delivers, followed by what the next delivers,
/// is what the two deliver together.
pub proof fn lemma_delivered_in_two<M>(first: Seq<Action<M>>, second: Seq<Action<M>>)
    ensures
        delivered(first + second) == delivered(first) + delivered(second),
    decreases second.len(),
{
    if second.len() == 0 {
        assert(first + second =~= first);
    } else {
        assert((first + second).drop_last() =~= first + second.drop_last());
        lemma_delivered_in_two(first, second.drop_last());
    }
}

/// Once its socket is open, a bridge runs as a running bridge does: the
/// opening is answered with `Idle`, and every later event as a running bridge
/// answers it.
pub proof fn law_open_socket_starts_bridge<M>(events: Seq<Event<M>>)
    ensures
        state_after(Session::Connecting(Plan::Bridge), seq![Event::Connected] + events)
            == state_after(Session::Running(Mode::Bridge), events),
        actions_for(Session::Connecting(Plan::Bridge), seq![Event::Connected] + events)
            == seq![Action::Idle] + actions_for(Session::Running(Mode::Bridge), events),
{
    let start = Session::<M>::Connecting(Plan::Bridge);
    let opening = seq![Event::<M>::Connected];
    assert(opening.drop_last().len() == 0);
    assert(opening.last() == Event::<M>::Connected);
    assert(state_after(start, opening.drop_last()) == start);
    assert(actions_for(start, opening.drop_last()) == Seq::<Action<M>>::empty());
    assert(actions_for(start, opening) =~= seq![Action::<M>::Idle]);
    lemma_run_in_two(start, opening, events);
}

/// Shutdown on a closed queue. Whatever a running bridge has seen before,
/// the closing of its outbound queue terminates it, and the callback is not
/// called again, whatever arrives afterwards.
pub proof fn law_queue_close_ends_bridge<M>(before: Seq<Event<M>>, after: Seq<Event<M>>)
    ensures
        state_after(Session::Running(Mode::Bridge), before.push(Event::QueueClosed) + after)
            == Session::<M>::Terminated,
        delivered(
            actions_for(Session::Running(Mode::Bridge), before.push(Event::QueueClosed) + after),
        ) == delivered(actions_for(Session::Running(Mode::Bridge), before)),
{
    let bridge = Session::<M>::Running(Mode::Bridge);
    let closing = before.push(Event::QueueClosed);
    assert(closing.drop_last() =~= before);
    lemma_running_or_terminated(Mode::Bridge, before);
    lemma_one_more_action(
        actions_for(bridge, before),
        transition(state_after(bridge, before), Event::<M>::QueueClosed).1,
    );
    lemma_run_in_two(bridge, closing, after);
    law_terminated_is_silent(after);
    lemma_delivered_in_two(actions_for(bridge, closing), actions_for(Session::Terminated, after));
}

/// A failed connection ends a session at once, in either mode: it is
/// terminated, the one action is to abort, and the callback is never called.
pub proof fn law_connect_failure_is_final<M>(plan: Plan<M>, error: String, after: Seq<Event<M>>)
    ensures
        transition(Session::Connecting(plan), Event::ConnectFailed(error)).0
            == Session::<M>::Terminated,
        state_after(Session::Connecting(plan), seq![Event::ConnectFailed(error)] + after)
            == Session::<M>::Terminated,
        delivered(
            actions_for(Session::Connecting(plan), seq![Event::ConnectFailed(error)] + after),
        ) == Seq::<String>::empty(),
{
    let start = Session::Connecting(plan);
    let failure = seq![Event::<M>::ConnectFailed(error)];
    let abort = transition(start, Event::<M>::ConnectFailed(error)).1;
    assert(failure.drop_last().len() == 0);
    assert(failure.last() == Event::<M>::ConnectFailed(error));
    assert(state_after(start, failure.drop_last()) == start);
    assert(actions_for(start, failure.drop_last()) == Seq::<Action<M>>::empty());
    assert(actions_for(start, failure) == Seq::<Action<M>>::empty().push(abort));
    lemma_one_more_action(Seq::<Action<M>>::empty(), abort);
    lemma_run_in_two(start, failure, after);
    law_terminated_is_silent(after);
    lemma_delivered_in_two(actions_for(start, failure), actions_for(Session::Terminated, after));
}

/// A legacy session writes nothing but its opening payload, and that once:
/// nothing while it connects, the payload when the socket opens, and nothing
/// after.
pub proof fn law_legacy_writes_once<M>(opening: M, events: Seq<Event<M>>)
    ensures
        ({
            let start = Session::Connecting(Plan::Legacy(opening));
            let written = sent(actions_for(start, events));
            &&& state_after(start, events) is Connecting ==> state_after(start, events) == start
                && written == Seq::<M>::empty()
            &&& state_after(start, events) is Running ==> state_after(start, events)
                == Session::<M>::Running(Mode::Legacy) && written == seq![opening]
            &&& written == Seq::<M>::empty() || written == seq![opening]
        }),
    decreases events.len(),
{
    if events.len() > 0 {
        let start = Session::Connecting(Plan::Legacy(opening));
        let init = events.drop_last();
        law_legacy_writes_once(opening, init);
        lemma_one_more_action(
            actions_for(start, init),
            transition(state_after(start, init), events.last()).1,
        );
        assert(Seq::<M>::empty().push(opening) =~= seq![opening]);
    }
}

} // verus!
