use vstd::prelude::*;

verus! {

/// Where an actor runner stands in the lifecycle of its actor.
///
/// A managed run validates the actor first, checks its health before the
/// first message and after every hundredth, and shuts the actor down once the
/// channel closes. A plain run only hands messages over until the channel
/// closes or a message fails.
#[derive(Debug, Clone, Copy, PartialEq, Eq, Structural)]
pub enum RunnerPhase {
    /// Waiting for the outcome of the actor's validation.
    Validating,
    /// Waiting for the next message; `handled` messages were taken so far
    /// (counted in a managed run only).
    Receiving { handled: u64, managed: bool },
    /// A message was handed to the actor; waiting for the outcome.
    Handling { handled: u64, managed: bool },
    /// The channel closed and the run ended without error.
    Done,
    /// Validation or a message failed and the run ended with that error.
    Failed,
}

/// What the runner learns from the actor or its channel.
#[derive(Debug, Clone, Copy, PartialEq, Eq, Structural)]
pub enum RunnerEvent {
    /// Validation finished: `ok` unless it returned an error (warnings do not count).
    Validated { ok: bool },
    /// A message arrived on the channel.
    Received,
    /// The channel closed.
    ChannelClosed,
    /// The actor handled the message: `ok` unless it returned an error.
    Handled { ok: bool },
}

/// What the runner does next.
#[derive(Debug, Clone, Copy, PartialEq, Eq, Structural)]
pub enum RunnerAction {
    /// Check the actor's health (its result is only reported), then wait for a message.
    CheckInitialHealth,
    /// Wait for the next message.
    Receive,
    /// Hand the message that arrived to the actor.
    Handle,
    /// Check the actor's health (its result is only reported), then wait for a message.
    CheckHealth,
    /// Shut the actor down; the run returns what the shutdown returns.
    Shutdown,
    /// End the run without error and without shutting the actor down.
    Finish,
    /// End the run with the error just received.
    Fail,
    /// The event does not belong to this phase; nothing happens.
    Idle,
}

/// The phase a run starts in: validation for a managed run, waiting for the
/// first message for a plain one.
pub open spec fn runner_initial(managed: bool) -> RunnerPhase {
    if managed {
        RunnerPhase::Validating
    } else {
        RunnerPhase::Receiving { handled: 0, managed: false }
    }
}

/// Whether the run has ended.
pub open spec fn runner_ended(p: RunnerPhase) -> bool {
    p is Done || p is Failed
}

/// The next phase and action after `ev` in phase `p`.
pub open spec fn runner_next(p: RunnerPhase, ev: RunnerEvent) -> (RunnerPhase, RunnerAction) {
    match p {
        RunnerPhase::Validating => match ev {
            RunnerEvent::Validated { ok } => if ok {
                (RunnerPhase::Receiving { handled: 0, managed: true }, RunnerAction::CheckInitialHealth)
            } else {
                (RunnerPhase::Failed, RunnerAction::Fail)
            },
            _ => (p, RunnerAction::Idle),
        },
        RunnerPhase::Receiving { handled, managed } => match ev {
            RunnerEvent::Received => (
                RunnerPhase::Handling {
                    handled: if managed { (handled + 1) as u64 } else { handled },
                    managed,
                },
                RunnerAction::Handle,
            ),
            RunnerEvent::ChannelClosed => (
                RunnerPhase::Done,
                if managed { RunnerAction::Shutdown } else { RunnerAction::Finish },
            ),
            _ => (p, RunnerAction::Idle),
        },
        RunnerPhase::Handling { handled, managed } => match ev {
            RunnerEvent::Handled { ok } => if ok {
                (
                    RunnerPhase::Receiving { handled, managed },
                    if managed && handled % 100 == 0 {
                        RunnerAction::CheckHealth
                    } else {
                        RunnerAction::Receive
                    },
                )
            } else {
                (RunnerPhase::Failed, RunnerAction::Fail)
            },
            _ => (p, RunnerAction::Idle),
        },
        RunnerPhase::Done => (p, RunnerAction::Idle),
        RunnerPhase::Failed => (p, RunnerAction::Idle),
    }
}

/// Whether `runner_next(p, ev)` is defined without overflow: a managed run
/// counts the messages it takes in a `u64`.
pub open spec fn runner_step_fits(p: RunnerPhase, ev: RunnerEvent) -> bool {
    match p {
        RunnerPhase::Receiving { handled, managed } => managed && ev is Received ==> handled < u64::MAX,
        _ => true,
    }
}

/// The phase a run starts in (see [`runner_initial`]).
pub fn runner_start(managed: bool) -> (p: RunnerPhase)
    ensures
        p == runner_initial(managed),
{
    if managed {
        RunnerPhase::Validating
    } else {
        RunnerPhase::Receiving { handled: 0, managed: false }
    }
}

/// The runner's decision on event `ev` in phase `p`: the next phase and what
/// to do (see [`runner_next`]).
pub fn runner_step(p: RunnerPhase, ev: RunnerEvent) -> (r: (RunnerPhase, RunnerAction))
    requires
        runner_step_fits(p, ev),
    ensures
        r == runner_next(p, ev),
{
    match p {
        RunnerPhase::Validating => match ev {
            RunnerEvent::Validated { ok } => if ok {
                (RunnerPhase::Receiving { handled: 0, managed: true }, RunnerAction::CheckInitialHealth)
            } else {
                (RunnerPhase::Failed, RunnerAction::Fail)
            },
            _ => (p, RunnerAction::Idle),
        },
        RunnerPhase::Receiving { handled, managed } => match ev {
            RunnerEvent::Received => {
                let next = if managed { handled + 1 } else { handled };
                (RunnerPhase::Handling { handled: next, managed }, RunnerAction::Handle)
            },
            RunnerEvent::ChannelClosed => {
                let a = if managed { RunnerAction::Shutdown } else { RunnerAction::Finish };
                (RunnerPhase::Done, a)
            },
            _ => (p, RunnerAction::Idle),
        },
        RunnerPhase::Handling { handled, managed } => match ev {
            RunnerEvent::Handled { ok } => if ok {
                let a = if managed && handled % 100 == 0 {
                    RunnerAction::CheckHealth
                } else {
                    RunnerAction::Receive
                };
                (RunnerPhase::Receiving { handled, managed }, a)
            } else {
                (RunnerPhase::Failed, RunnerAction::Fail)
            },
            _ => (p, RunnerAction::Idle),
        },
        RunnerPhase::Done => (p, RunnerAction::Idle),
        RunnerPhase::Failed => (p, RunnerAction::Idle),
    }
}

/// The phase reached and the actions taken when the events `evs` arrive, in
/// order, starting in phase `p`.
pub open spec fn runner_trace(p: RunnerPhase, evs: Seq<RunnerEvent>) -> (RunnerPhase, Seq<RunnerAction>)
    decreases evs.len(),
{
    if evs.len() == 0 {
        (p, Seq::empty())
    } else {
        let (q, a) = runner_next(p, evs[0]);
        let (r, rest) = runner_trace(q, evs.drop_first());
        (r, seq![a] + rest)
    }
}

/// The events of `n` messages that each arrive and are handled without error.
pub open spec fn message_events(n: nat) -> Seq<RunnerEvent>
    decreases n,
{
    if n == 0 {
        Seq::empty()
    } else {
        message_events((n - 1) as nat) + seq![RunnerEvent::Received, RunnerEvent::Handled { ok: true }]
    }
}

/// What follows the successful handling of the `k`-th message of a managed run.
pub open spec fn after_message(k: nat) -> RunnerAction {
    if k % 100 == 0 {
        RunnerAction::CheckHealth
    } else {
        RunnerAction::Receive
    }
}

/// The actions of a managed run on `n` messages handled without error: each
/// is handed over, and the health check follows every hundredth.
pub open spec fn managed_message_actions(n: nat) -> Seq<RunnerAction>
    decreases n,
{
    if n == 0 {
        Seq::empty()
    } else {
        managed_message_actions((n - 1) as nat) + seq![RunnerAction::Handle, after_message(n)]
    }
}

/// The actions of a plain run on `n` messages handled without error.
pub open spec fn plain_message_actions(n: nat) -> Seq<RunnerAction>
    decreases n,
{
    if n == 0 {
        Seq::empty()
    } else {
        plain_message_actions((n - 1) as nat) + seq![RunnerAction::Handle, RunnerAction::Receive]
    }
}

/// `n` times the action `Idle`.
pub open spec fn idles(n: nat) -> Seq<RunnerAction> {
    Seq::new(n, |i: int| RunnerAction::Idle)
}

/// Events in two parts give the run of the first part followed by the run of
/// the second from where the first ended.
pub proof fn lemma_runner_trace_append(p: RunnerPhase, a: Seq<RunnerEvent>, b: Seq<RunnerEvent>)
    ensures
        runner_trace(p, a + b) == ({
            let (q, x) = runner_trace(p, a);
            let (r, y) = runner_trace(q, b);
            (r, x + y)
        }),
    decreases a.len(),
{
    if a.len() == 0 {
        assert(a + b =~= b);
    } else {
        let (q0, a0) = runner_next(p, a[0]);
        assert((a + b).drop_first() =~= a.drop_first() + b);
        lemma_runner_trace_append(q0, a.drop_first(), b);
        let (q, x) = runner_trace(p, a);
        let (r, y) = runner_trace(q, b);
        let (q1, x1) = runner_trace(q0, a.drop_first());
        assert(x == seq![a0] + x1);
        assert(seq![a0] + (x1 + y) =~= x + y);
    }
}

/// One event gives one step.
pub proof fn lemma_runner_trace_one(p: RunnerPhase, ev: RunnerEvent)
    ensures
        runner_trace(p, seq![ev]) == (runner_next(p, ev).0, seq![runner_next(p, ev).1]),
{
    let s = seq![ev];
    assert(s.drop_first() =~= Seq::<RunnerEvent>::empty());
    let (q, a) = runner_next(p, ev);
    assert(runner_trace(q, Seq::<RunnerEvent>::empty()) == (q, Seq::<RunnerAction>::empty()));
    assert(seq![a] + Seq::<RunnerAction>::empty() =~= seq![a]);
}

/// Two events give two steps.
pub proof fn lemma_runner_trace_two(p: RunnerPhase, e1: RunnerEvent, e2: RunnerEvent)
    ensures
        runner_trace(p, seq![e1, e2]) == (
            runner_next(runner_next(p, e1).0, e2).0,
            seq![runner_next(p, e1).1, runner_next(runner_next(p, e1).0, e2).1],
        ),
{
    assert(seq![e1, e2] =~= seq![e1] + seq![e2]);
    lemma_runner_trace_append(p, seq![e1], seq![e2]);
    lemma_runner_trace_one(p, e1);
    lemma_runner_trace_one(runner_next(p, e1).0, e2);
    assert(seq![runner_next(p, e1).1] + seq![runner_next(runner_next(p, e1).0, e2).1] =~= seq![
        runner_next(p, e1).1,
        runner_next(runner_next(p, e1).0, e2).1,
    ]);
}

/// Once a run has ended, no event changes anything: every action is `Idle`.
pub proof fn lemma_runner_ended_stays(p: RunnerPhase, evs: Seq<RunnerEvent>)
    requires
        runner_ended(p),
    ensures
        runner_trace(p, evs) == (p, idles(evs.len())),
    decreases evs.len(),
{
    if evs.len() > 0 {
        lemma_runner_ended_stays(p, evs.drop_first());
        assert(seq![RunnerAction::Idle] + idles((evs.len() - 1) as nat) =~= idles(evs.len()));
    } else {
        assert(idles(0) =~= Seq::<RunnerAction>::empty());
    }
}

/// The actions that end a run.
pub open spec fn is_final_action(a: RunnerAction) -> bool {
    a is Fail || a is Shutdown || a is Finish
}

/// After an action that ends the run (`Fail`, `Shutdown` or `Finish`) nothing
/// more happens: every later action is `Idle`, so no message is handled and
/// the actor is not shut down afterwards, and the run stays ended.
pub proof fn lemma_runner_nothing_after_end(p: RunnerPhase, evs: Seq<RunnerEvent>, i: int)
    requires
        0 <= i < runner_trace(p, evs).1.len(),
        is_final_action(runner_trace(p, evs).1[i]),
    ensures
        runner_trace(p, evs).1.len() == evs.len(),
        forall|j: int| i < j < evs.len() ==> #[trigger] runner_trace(p, evs).1[j] == RunnerAction::Idle,
        runner_ended(runner_trace(p, evs).0),
    decreases evs.len(),
{
    lemma_runner_trace_len(p, evs);
    let (q, a) = runner_next(p, evs[0]);
    let (r, rest) = runner_trace(q, evs.drop_first());
    if i == 0 {
        assert(runner_trace(p, evs).1[0] == a);
        assert(runner_ended(q));
        lemma_runner_ended_stays(q, evs.drop_first());
        assert forall|j: int| i < j < evs.len() implies #[trigger] runner_trace(p, evs).1[j]
            == RunnerAction::Idle by {
            assert(runner_trace(p, evs).1[j] == rest[j - 1]);
        }
    } else {
        assert(runner_trace(p, evs).1[i] == rest[i - 1]);
        lemma_runner_nothing_after_end(q, evs.drop_first(), i - 1);
        assert forall|j: int| i < j < evs.len() implies #[trigger] runner_trace(p, evs).1[j]
            == RunnerAction::Idle by {
            assert(runner_trace(p, evs).1[j] == rest[j - 1]);
        }
    }
}

/// One action per event.
pub proof fn lemma_runner_trace_len(p: RunnerPhase, evs: Seq<RunnerEvent>)
    ensures
        runner_trace(p, evs).1.len() == evs.len(),
    decreases evs.len(),
{
    if evs.len() > 0 {
        let (q, a) = runner_next(p, evs[0]);
        lemma_runner_trace_len(q, evs.drop_first());
    }
}

/// Whatever the events, the actor is shut down at most once, and never after
/// a failure.
pub proof fn lemma_runner_shutdown_at_most_once(p: RunnerPhase, evs: Seq<RunnerEvent>, i: int, j: int)
    requires
        0 <= i < j < runner_trace(p, evs).1.len(),
        runner_trace(p, evs).1[j] == RunnerAction::Shutdown,
    ensures
        runner_trace(p, evs).1[i] != RunnerAction::Shutdown,
        runner_trace(p, evs).1[i] != RunnerAction::Fail,
{
    if is_final_action(runner_trace(p, evs).1[i]) {
        lemma_runner_nothing_after_end(p, evs, i);
        assert(runner_trace(p, evs).1[j] == RunnerAction::Idle);
    }
}

/// In a managed run, `n` messages handled without error hand each message to
/// the actor and check its health after the `k`-th exactly when `k` is a
/// multiple of 100; the run is then waiting with `n` messages counted.
pub proof fn lemma_managed_messages(n: nat)
    requires
        n <= u64::MAX,
    ensures
        runner_trace(RunnerPhase::Receiving { handled: 0, managed: true }, message_events(n)) == (
            RunnerPhase::Receiving { handled: n as u64, managed: true },
            managed_message_actions(n),
        ),
    decreases n,
{
    let p0 = RunnerPhase::Receiving { handled: 0, managed: true };
    if n == 0 {
        assert(message_events(0) =~= Seq::<RunnerEvent>::empty());
        assert(managed_message_actions(0) =~= Seq::<RunnerAction>::empty());
    } else {
        let m = (n - 1) as nat;
        lemma_managed_messages(m);
        lemma_runner_trace_append(p0, message_events(m), seq![RunnerEvent::Received, RunnerEvent::Handled { ok: true }]);
        let q = RunnerPhase::Receiving { handled: m as u64, managed: true };
        lemma_runner_trace_two(q, RunnerEvent::Received, RunnerEvent::Handled { ok: true });
    }
}

/// In a plain run, `n` messages handled without error are each handed to the
/// actor and nothing else happens.
pub proof fn lemma_plain_messages(n: nat)
    ensures
        runner_trace(RunnerPhase::Receiving { handled: 0, managed: false }, message_events(n)) == (
            RunnerPhase::Receiving { handled: 0, managed: false },
            plain_message_actions(n),
        ),
    decreases n,
{
    let p0 = RunnerPhase::Receiving { handled: 0, managed: false };
    if n == 0 {
        assert(message_events(0) =~= Seq::<RunnerEvent>::empty());
        assert(plain_message_actions(0) =~= Seq::<RunnerAction>::empty());
    } else {
        let m = (n - 1) as nat;
        lemma_plain_messages(m);
        lemma_runner_trace_append(p0, message_events(m), seq![RunnerEvent::Received, RunnerEvent::Handled { ok: true }]);
        lemma_runner_trace_two(p0, RunnerEvent::Received, RunnerEvent::Handled { ok: true });
    }
}

/// The shape of a managed run on messages handled without error: the `k`-th
/// message (counting from 1) is handed over, and then the health is checked
/// exactly when `k` is a multiple of 100; otherwise the runner waits for the
/// next message.
pub proof fn lemma_managed_message_actions_shape(n: nat)
    ensures
        managed_message_actions(n).len() == 2 * n,
        forall|k: int|
            0 < k <= n ==> managed_message_actions(n)[2 * k - 2] == RunnerAction::Handle
                && (#[trigger] managed_message_actions(n)[2 * k - 1] == RunnerAction::CheckHealth <==> k % 100
                == 0),
    decreases n,
{
    if n > 0 {
        let m = (n - 1) as nat;
        lemma_managed_message_actions_shape(m);
        let a = managed_message_actions(n);
        let b = managed_message_actions(m);
        assert forall|k: int| 0 < k <= n implies a[2 * k - 2] == RunnerAction::Handle && (#[trigger] a[2
            * k - 1] == RunnerAction::CheckHealth <==> k % 100 == 0) by {
            if k < n {
                assert(a[2 * k - 2] == b[2 * k - 2]);
                assert(a[2 * k - 1] == b[2 * k - 1]);
            }
        }
    }
}

/// A managed run whose validation succeeds and whose `n` messages are all
/// handled without error: it checks the actor's health, hands over each
/// message (checking health after every hundredth), and when the channel
/// closes shuts the actor down exactly once, ending without error.
pub proof fn lemma_managed_run(n: nat)
    requires
        n <= u64::MAX,
    ensures
        runner_trace(
            runner_initial(true),
            seq![RunnerEvent::Validated { ok: true }] + message_events(n) + seq![RunnerEvent::ChannelClosed],
        ) == (
            RunnerPhase::Done,
            seq![RunnerAction::CheckInitialHealth] + managed_message_actions(n) + seq![RunnerAction::Shutdown],
        ),
{
    let v = seq![RunnerEvent::Validated { ok: true }];
    let c = seq![RunnerEvent::ChannelClosed];
    let p0 = runner_initial(true);
    lemma_runner_trace_append(p0, v + message_events(n), c);
    lemma_runner_trace_append(p0, v, message_events(n));
    lemma_runner_trace_one(p0, RunnerEvent::Validated { ok: true });
    lemma_managed_messages(n);
    lemma_runner_trace_one(RunnerPhase::Receiving { handled: n as u64, managed: true }, RunnerEvent::ChannelClosed);
}

/// A managed run whose validation fails ends at once with that error: no
/// health check, no message handled, no shutdown, whatever comes after.
pub proof fn lemma_managed_run_invalid(evs: Seq<RunnerEvent>)
    ensures
        runner_trace(runner_initial(true), seq![RunnerEvent::Validated { ok: false }] + evs) == (
            RunnerPhase::Failed,
            seq![RunnerAction::Fail] + idles(evs.len()),
        ),
{
    let v = seq![RunnerEvent::Validated { ok: false }];
    lemma_runner_trace_append(runner_initial(true), v, evs);
    lemma_runner_trace_one(runner_initial(true), RunnerEvent::Validated { ok: false });
    lemma_runner_ended_stays(RunnerPhase::Failed, evs);
}

/// A managed run whose validation succeeds and whose message number `k + 1`
/// fails after `k` handled without error: it ends with that error at once,
/// without shutting the actor down, whatever comes after.
pub proof fn lemma_managed_run_message_fails(k: nat, evs: Seq<RunnerEvent>)
    requires
        k < u64::MAX,
    ensures
        runner_trace(
            runner_initial(true),
            seq![RunnerEvent::Validated { ok: true }] + message_events(k) + seq![
                RunnerEvent::Received,
                RunnerEvent::Handled { ok: false },
            ] + evs,
        ) == (
            RunnerPhase::Failed,
            seq![RunnerAction::CheckInitialHealth] + managed_message_actions(k) + seq![
                RunnerAction::Handle,
                RunnerAction::Fail,
            ] + idles(evs.len()),
        ),
{
    let v = seq![RunnerEvent::Validated { ok: true }];
    let f = seq![RunnerEvent::Received, RunnerEvent::Handled { ok: false }];
    let p0 = runner_initial(true);
    lemma_runner_trace_append(p0, v + message_events(k) + f, evs);
    lemma_runner_trace_append(p0, v + message_events(k), f);
    lemma_runner_trace_append(p0, v, message_events(k));
    lemma_runner_trace_one(p0, RunnerEvent::Validated { ok: true });
    lemma_managed_messages(k);
    lemma_runner_trace_two(
        RunnerPhase::Receiving { handled: k as u64, managed: true },
        RunnerEvent::Received,
        RunnerEvent::Handled { ok: false },
    );
    lemma_runner_ended_stays(RunnerPhase::Failed, evs);
}

/// A plain run hands over its `n` messages and, when the channel closes,
/// ends without error and without shutting the actor down.
pub proof fn lemma_plain_run(n: nat)
    ensures
        runner_trace(runner_initial(false), message_events(n) + seq![RunnerEvent::ChannelClosed]) == (
            RunnerPhase::Done,
            plain_message_actions(n) + seq![RunnerAction::Finish],
        ),
{
    let p0 = runner_initial(false);
    lemma_runner_trace_append(p0, message_events(n), seq![RunnerEvent::ChannelClosed]);
    lemma_plain_messages(n);
    lemma_runner_trace_one(p0, RunnerEvent::ChannelClosed);
}

/// A plain run stops at the first message that fails, with its error.
pub proof fn lemma_plain_run_message_fails(k: nat, evs: Seq<RunnerEvent>)
    ensures
        runner_trace(
            runner_initial(false),
            message_events(k) + seq![RunnerEvent::Received, RunnerEvent::Handled { ok: false }] + evs,
        ) == (
            RunnerPhase::Failed,
            plain_message_actions(k) + seq![RunnerAction::Handle, RunnerAction::Fail] + idles(evs.len()),
        ),
{
    let f = seq![RunnerEvent::Received, RunnerEvent::Handled { ok: false }];
    let p0 = runner_initial(false);
    lemma_runner_trace_append(p0, message_events(k) + f, evs);
    lemma_runner_trace_append(p0, message_events(k), f);
    lemma_plain_messages(k);
    lemma_runner_trace_two(p0, RunnerEvent::Received, RunnerEvent::Handled { ok: false });
    lemma_runner_ended_stays(RunnerPhase::Failed, evs);
}

} // verus!
