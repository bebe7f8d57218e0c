//! What holds of the registration lifecycle whatever happens to it: laws
//! over the state machine of [`crate::lifecycle`], each proved for every
//! state, every input and every sequence of inputs that it speaks of.

use vstd::prelude::*;
use crate::event::EventView;
use crate::lifecycle::{
    concerns_link, decision_at, on_event, on_tick, pending_deadline, resolves_dial, run, step,
    ConnectionStatus, Decision, Input, Lifecycle, RegistrationStatus,
};
use crate::time::{renewal_deadline, Instant};

verus! {

/// Whether `input` passes in an event that tells of the link to `target`.
pub open spec fn tells_of_link(target: Seq<char>, input: Input) -> bool {
    match input {
        Input::Event { event, .. } => concerns_link(target, event),
        Input::Tick { .. } => false,
    }
}

/// Whether `input` passes in an event that answers a dial of `target`.
pub open spec fn answers_dial(target: Seq<char>, input: Input) -> bool {
    match input {
        Input::Event { event, .. } => resolves_dial(target, event),
        Input::Tick { .. } => false,
    }
}

/// Whether `input` passes in the closing of the connection to `target`.
pub open spec fn closes_link(target: Seq<char>, input: Input) -> bool {
    match input {
        Input::Event { event, .. } => match event {
            EventView::ConnectionClosed { peer, .. } => peer == target,
            _ => false,
        },
        Input::Tick { .. } => false,
    }
}

/// Whether `input` can change the state of a node that has a request out:
/// only a grant, and an event that tells of the link to `target`, can.
pub open spec fn changes_pending(target: Seq<char>, input: Input) -> bool {
    match input {
        Input::Event { event, .. } => event is Registered || concerns_link(target, event),
        Input::Tick { .. } => false,
    }
}

/// Whether `input` is a refusal or a scheduling step.
pub open spec fn refusal_or_tick(input: Input) -> bool {
    match input {
        Input::Event { event, .. } => event is RegisterFailed,
        Input::Tick { .. } => true,
    }
}

/// The state before the input at place `i` is the state after the `i`
/// inputs before it.
proof fn lemma_run_unfolds(target: Seq<char>, s: Lifecycle, inputs: Seq<Input>, i: int)
    requires
        0 <= i < inputs.len(),
    ensures
        run(target, s, inputs.take(i + 1)) == step(
            target,
            run(target, s, inputs.take(i)),
            inputs[i],
        ).0,
{
    let front = inputs.take(i + 1);
    assert(front.drop_last() =~= inputs.take(i));
    assert(front.last() == inputs[i]);
}

/// A step asks for at most one thing, and asks for it only where it is
/// due: a dial only of a disconnected node, which is dialing from then on;
/// a request only of a node that is connected after the step, with the
/// request out.
pub proof fn law_actions_are_guarded(target: Seq<char>, s: Lifecycle, input: Input)
    ensures
        step(target, s, input).1 == Decision::Dial ==> s.connection
            == ConnectionStatus::Disconnected && step(target, s, input).0.connection
            == ConnectionStatus::Dialing,
        step(target, s, input).1 == Decision::Register ==> step(target, s, input).0.connection
            == ConnectionStatus::Connected && step(target, s, input).0.registration
            == RegistrationStatus::Pending,
        s.connection == ConnectionStatus::Dialing ==> step(target, s, input).1 != Decision::Dial,
{
}

/// One scheduling step settles a node. A second step at the same instant
/// asks for nothing and changes nothing, so one step after each event does
/// all there is to do; and a step that leaves no deadline pending would do
/// nothing at any later instant either, until an event comes.
pub proof fn law_tick_settles(s: Lifecycle, now: Instant, later: Instant)
    requires
        now.millis <= later.millis,
    ensures
        on_tick(on_tick(s, now).0, now) == (on_tick(s, now).0, Decision::Idle),
        pending_deadline(on_tick(s, now).0, now) is None ==> on_tick(on_tick(s, now).0, later)
            == (on_tick(s, now).0, Decision::Idle),
        pending_deadline(on_tick(s, now).0, now) matches Some(deadline) ==> now.millis
            < deadline.millis && on_tick(s, now) == (s, Decision::Idle) && (later.millis
            < deadline.millis ==> on_tick(s, later) == (s, Decision::Idle)),
{
}

/// A registration is held only until it is due. After a scheduling step at
/// or after the deadline the node no longer counts as registered, unless a
/// dial is out, in which case it waits for the answer.
pub proof fn law_registered_only_until_due(s: Lifecycle, now: Instant)
    requires
        s.registration matches RegistrationStatus::Registered { renew_at } && now.millis
            >= renew_at.millis,
        s.connection != ConnectionStatus::Dialing,
    ensures
        !(on_tick(s, now).0.registration is Registered),
        on_tick(s, now).1 != Decision::Idle,
{
}

/// While a dial is out, nothing but word of the link ends it: a node that
/// is dialing after the input at place `from`, and hears nothing of its
/// link up to place `to`, is still dialing there.
proof fn lemma_stays_dialing(
    target: Seq<char>,
    s: Lifecycle,
    inputs: Seq<Input>,
    from: int,
    to: int,
)
    requires
        0 <= from < to <= inputs.len(),
        run(target, s, inputs.take(from + 1)).connection == ConnectionStatus::Dialing,
        forall|k: int| from < k < to ==> !tells_of_link(target, #[trigger] inputs[k]),
    ensures
        run(target, s, inputs.take(to)).connection == ConnectionStatus::Dialing,
    decreases to - from,
{
    if to > from + 1 {
        lemma_stays_dialing(target, s, inputs, from, to - 1);
        lemma_run_unfolds(target, s, inputs, to - 1);
        assert(!tells_of_link(target, inputs[to - 1]));
    }
}

/// No second dial while the first is out. Of two dials that a node asks
/// for, whatever the inputs, the first was answered or undone in between:
/// some input between them told of the link to the rendezvous point.
pub proof fn law_no_dial_until_link_event(
    target: Seq<char>,
    s: Lifecycle,
    inputs: Seq<Input>,
    i: int,
    j: int,
)
    requires
        0 <= i < j < inputs.len(),
        decision_at(target, s, inputs, i) == Decision::Dial,
        decision_at(target, s, inputs, j) == Decision::Dial,
    ensures
        exists|k: int| i < k < j && tells_of_link(target, #[trigger] inputs[k]),
{
    if forall|k: int| i < k < j ==> !tells_of_link(target, #[trigger] inputs[k]) {
        lemma_run_unfolds(target, s, inputs, i);
        lemma_stays_dialing(target, s, inputs, i, j);
        assert(false);
    }
}

/// Whether no connection to `target` is reported closed while a dial is
/// out: before each such report among `inputs`, the node that started in `s`
/// is not dialing.
pub open spec fn no_close_while_dialing(target: Seq<char>, s: Lifecycle, inputs: Seq<Input>)
    -> bool {
    forall|k: int|
        0 <= k < inputs.len() && closes_link(target, inputs[k]) ==> (#[trigger] run(
            target,
            s,
            inputs.take(k),
        )).connection != ConnectionStatus::Dialing
}

/// A dialing node is still dialing after an input that neither answers the
/// dial nor reports the connection closed.
proof fn lemma_dialing_survives(target: Seq<char>, s: Lifecycle, input: Input)
    requires
        s.connection == ConnectionStatus::Dialing,
        !answers_dial(target, input),
        !closes_link(target, input),
    ensures
        step(target, s, input).0.connection == ConnectionStatus::Dialing,
{
}

/// A node that is dialing after the input at place `from` is still dialing
/// at place `to`, where no input in between answers the dial and none closes
/// a connection while the node is dialing.
proof fn lemma_stays_dialing_unanswered(
    target: Seq<char>,
    s: Lifecycle,
    inputs: Seq<Input>,
    from: int,
    to: int,
)
    requires
        0 <= from < to <= inputs.len(),
        run(target, s, inputs.take(from + 1)).connection == ConnectionStatus::Dialing,
        forall|k: int| from < k < to ==> !answers_dial(target, #[trigger] inputs[k]),
        no_close_while_dialing(target, s, inputs),
    ensures
        run(target, s, inputs.take(to)).connection == ConnectionStatus::Dialing,
    decreases to - from,
{
    if to > from + 1 {
        lemma_stays_dialing_unanswered(target, s, inputs, from, to - 1);
        let before = run(target, s, inputs.take(to - 1));
        assert(before.connection == ConnectionStatus::Dialing);
        assert(!answers_dial(target, inputs[to - 1]));
        assert(!closes_link(target, inputs[to - 1]));
        lemma_dialing_survives(target, before, inputs[to - 1]);
        lemma_run_unfolds(target, s, inputs, to - 1);
    }
}

/// No duplicate dials. Where no connection is reported closed while a dial
/// is out, a node never asks for a second dial before the first is answered:
/// between any two dials, the connection was reported to stand or the dial
/// to have failed.
pub proof fn law_no_duplicate_dials(
    target: Seq<char>,
    s: Lifecycle,
    inputs: Seq<Input>,
    i: int,
    j: int,
)
    requires
        0 <= i < j < inputs.len(),
        decision_at(target, s, inputs, i) == Decision::Dial,
        decision_at(target, s, inputs, j) == Decision::Dial,
        no_close_while_dialing(target, s, inputs),
    ensures
        exists|k: int| i < k < j && answers_dial(target, #[trigger] inputs[k]),
{
    if forall|k: int| i < k < j ==> !answers_dial(target, #[trigger] inputs[k]) {
        lemma_run_unfolds(target, s, inputs, i);
        lemma_stays_dialing_unanswered(target, s, inputs, i, j);
        assert(false);
    }
}

/// A request is made only over a standing connection: whatever the inputs,
/// a node that asks to be registered is connected when it has asked.
pub proof fn law_register_only_when_connected(
    target: Seq<char>,
    s: Lifecycle,
    inputs: Seq<Input>,
    i: int,
)
    requires
        0 <= i < inputs.len(),
        decision_at(target, s, inputs, i) == Decision::Register,
    ensures
        run(target, s, inputs.take(i + 1)).connection == ConnectionStatus::Connected,
        run(target, s, inputs.take(i + 1)).registration == RegistrationStatus::Pending,
{
    lemma_run_unfolds(target, s, inputs, i);
}

/// A node with a request out stays as it is, and asks for nothing, through
/// inputs that bring neither a grant nor word of its link.
proof fn lemma_pending_is_quiet(
    target: Seq<char>,
    s: Lifecycle,
    inputs: Seq<Input>,
    i: int,
)
    requires
        s.registration == RegistrationStatus::Pending,
        0 <= i <= inputs.len(),
        forall|k: int| 0 <= k < inputs.len() ==> !changes_pending(target, #[trigger] inputs[k]),
    ensures
        run(target, s, inputs.take(i)) == s,
        i < inputs.len() ==> decision_at(target, s, inputs, i) == Decision::Idle,
    decreases i,
{
    if i > 0 {
        lemma_pending_is_quiet(target, s, inputs, i - 1);
        lemma_run_unfolds(target, s, inputs, i - 1);
        assert(!changes_pending(target, inputs[i - 1]));
    }
    if i < inputs.len() {
        assert(!changes_pending(target, inputs[i]));
    }
}

/// Register once per connection. A node that waits for a connection asks
/// to be registered the moment its connection stands, and is connected with
/// the request out. Through whatever follows before the next event that
/// changes its state (a grant, or word of its link), it stays so and asks
/// for nothing more: scheduling steps, refusals and events about other peers
/// bring no second request.
pub proof fn law_register_once_per_connect(
    target: Seq<char>,
    s: Lifecycle,
    now: Instant,
    later: Seq<Input>,
    i: int,
)
    requires
        s.registration == RegistrationStatus::AwaitingConnection,
        0 <= i < later.len(),
        forall|k: int| 0 <= k < later.len() ==> !changes_pending(target, #[trigger] later[k]),
    ensures
        ({
            let connected = on_event(
                target,
                s,
                EventView::ConnectionEstablished { peer: target },
                now,
            );
            &&& connected.1 == Decision::Register
            &&& connected.0 == Lifecycle {
                connection: ConnectionStatus::Connected,
                registration: RegistrationStatus::Pending,
            }
            &&& decision_at(target, connected.0, later, i) == Decision::Idle
            &&& run(target, connected.0, later) == connected.0
        }),
{
    let connected = on_event(target, s, EventView::ConnectionEstablished { peer: target }, now);
    lemma_pending_is_quiet(target, connected.0, later, i);
    lemma_pending_is_quiet(target, connected.0, later, later.len() as int);
    assert(later.take(later.len() as int) =~= later);
}

/// Renewal timing. A grant of `ttl` seconds at `granted_at` sets the
/// deadline half the time-to-live later (or at the last instant there is).
/// With the connection standing, every scheduling step before the deadline
/// leaves the node as it is and asks for nothing, and a step at or after it
/// asks to be registered again. For a time-to-live above zero the deadline
/// lies strictly before the registration runs out.
pub proof fn law_renewal_timing(
    target: Seq<char>,
    s: Lifecycle,
    namespace: Seq<char>,
    server_peer: Seq<char>,
    ttl: u64,
    granted_at: Instant,
    now: Instant,
)
    requires
        s.connection == ConnectionStatus::Connected,
    ensures
        ({
            let deadline = renewal_deadline(granted_at, ttl);
            let granted = on_event(
                target,
                s,
                EventView::Registered { namespace, ttl, server_peer },
                granted_at,
            );
            &&& granted.1 == Decision::Idle
            &&& granted.0 == Lifecycle {
                connection: ConnectionStatus::Connected,
                registration: RegistrationStatus::Registered { renew_at: deadline },
            }
            &&& deadline.millis == (if granted_at.millis + 500 * ttl <= u64::MAX {
                granted_at.millis + 500 * ttl
            } else {
                u64::MAX as int
            })
            &&& ttl > 0 ==> deadline.millis < granted_at.millis + 1000 * ttl
            &&& now.millis < deadline.millis ==> on_tick(granted.0, now) == (
                granted.0,
                Decision::Idle,
            )
            &&& now.millis >= deadline.millis ==> on_tick(granted.0, now) == (
                Lifecycle {
                    connection: ConnectionStatus::Connected,
                    registration: RegistrationStatus::Pending,
                },
                Decision::Register,
            )
        }),
{
}

/// A registered node that loses its connection and gets it back before the
/// deadline keeps its registration and its deadline: neither event asks for
/// anything, nor does a scheduling step in between, nor any before the
/// deadline, and the first step at or after it asks to be registered again.
pub proof fn law_reconnect_before_deadline_keeps_schedule(
    target: Seq<char>,
    connection: ConnectionStatus,
    renew_at: Instant,
    closed_at: Instant,
    established_at: Instant,
    now: Instant,
)
    requires
        closed_at.millis < renew_at.millis,
    ensures
        ({
            let s = Lifecycle {
                connection,
                registration: RegistrationStatus::Registered { renew_at },
            };
            let closed = on_event(
                target,
                s,
                EventView::ConnectionClosed { peer: target, cause: None },
                closed_at,
            );
            let between = on_tick(closed.0, closed_at);
            let established = on_event(
                target,
                between.0,
                EventView::ConnectionEstablished { peer: target },
                established_at,
            );
            let back = Lifecycle {
                connection: ConnectionStatus::Connected,
                registration: RegistrationStatus::Registered { renew_at },
            };
            &&& closed.1 == Decision::Idle
            &&& between.1 == Decision::Idle
            &&& established.1 == Decision::Idle
            &&& established.0 == back
            &&& now.millis < renew_at.millis ==> on_tick(back, now) == (back, Decision::Idle)
            &&& now.millis >= renew_at.millis ==> on_tick(back, now).1 == Decision::Register
        }),
{
}

/// Disconnect, then reconnect, recovers the registration. A registered
/// node that loses its connection and is found disconnected by a scheduling
/// step at or after the deadline gives the registration up and dials; when
/// the connection then stands, it asks to be registered at once, whatever
/// the clock reads, and waits for no deadline.
pub proof fn law_reconnect_recovers_registration(
    target: Seq<char>,
    connection: ConnectionStatus,
    renew_at: Instant,
    closed_at: Instant,
    due: Instant,
    established_at: Instant,
)
    requires
        due.millis >= renew_at.millis,
    ensures
        ({
            let s = Lifecycle {
                connection,
                registration: RegistrationStatus::Registered { renew_at },
            };
            let closed = on_event(
                target,
                s,
                EventView::ConnectionClosed { peer: target, cause: None },
                closed_at,
            );
            let given_up = on_tick(closed.0, due);
            let established = on_event(
                target,
                given_up.0,
                EventView::ConnectionEstablished { peer: target },
                established_at,
            );
            &&& closed.1 == Decision::Idle
            &&& closed.0.registration == s.registration
            &&& given_up.1 == Decision::Dial
            &&& given_up.0 == Lifecycle {
                connection: ConnectionStatus::Dialing,
                registration: RegistrationStatus::AwaitingConnection,
            }
            &&& established.1 == Decision::Register
            &&& established.0 == Lifecycle {
                connection: ConnectionStatus::Connected,
                registration: RegistrationStatus::Pending,
            }
        }),
{
}

/// Refusals are idempotent. However often the rendezvous point refuses
/// while a request is out, and however many scheduling steps come in
/// between, the request stays out, the link is believed as before, and no
/// further request is made.
pub proof fn law_register_failed_is_idempotent(
    target: Seq<char>,
    s: Lifecycle,
    inputs: Seq<Input>,
    i: int,
)
    requires
        s.registration == RegistrationStatus::Pending,
        0 <= i < inputs.len(),
        forall|k: int| 0 <= k < inputs.len() ==> refusal_or_tick(#[trigger] inputs[k]),
    ensures
        decision_at(target, s, inputs, i) == Decision::Idle,
        run(target, s, inputs.take(i + 1)) == s,
        run(target, s, inputs) == s,
{
    assert forall|k: int| 0 <= k < inputs.len() implies !changes_pending(
        target,
        #[trigger] inputs[k],
    ) by {
        assert(refusal_or_tick(inputs[k]));
    }
    lemma_pending_is_quiet(target, s, inputs, i);
    lemma_pending_is_quiet(target, s, inputs, i + 1);
    lemma_pending_is_quiet(target, s, inputs, inputs.len() as int);
    assert(inputs.take(inputs.len() as int) =~= inputs);
}

} // verus!
