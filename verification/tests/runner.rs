use ozymandias::runner::{runner_start, runner_step, RunnerAction, RunnerEvent, RunnerPhase};

/// Runs the runner over `events`, returning the final phase and the actions.
fn run(managed: bool, events: &[RunnerEvent]) -> (RunnerPhase, Vec<RunnerAction>) {
    let mut phase = runner_start(managed);
    let mut actions = Vec::new();
    for ev in events {
        let (next, action) = runner_step(phase, *ev);
        phase = next;
        actions.push(action);
    }
    (phase, actions)
}

fn messages(n: usize, fail_last: bool) -> Vec<RunnerEvent> {
    let mut evs = Vec::new();
    for i in 0..n {
        evs.push(RunnerEvent::Received);
        evs.push(RunnerEvent::Handled { ok: !(fail_last && i + 1 == n) });
    }
    evs
}

#[test]
fn managed_run_checks_health_every_hundred_messages_and_shuts_down_once() {
    let mut evs = vec![RunnerEvent::Validated { ok: true }];
    evs.extend(messages(250, false));
    evs.push(RunnerEvent::ChannelClosed);
    let (phase, actions) = run(true, &evs);
    assert_eq!(phase, RunnerPhase::Done);
    assert_eq!(actions[0], RunnerAction::CheckInitialHealth);
    let mut checked_after = Vec::new();
    for k in 1..=250usize {
        assert_eq!(actions[2 * k - 1], RunnerAction::Handle);
        if actions[2 * k] == RunnerAction::CheckHealth {
            checked_after.push(k);
        } else {
            assert_eq!(actions[2 * k], RunnerAction::Receive);
        }
    }
    assert_eq!(checked_after, vec![100, 200]);
    assert_eq!(actions.last(), Some(&RunnerAction::Shutdown));
    assert_eq!(actions.iter().filter(|a| **a == RunnerAction::Shutdown).count(), 1);
}

#[test]
fn managed_run_counts_messages() {
    let mut evs = vec![RunnerEvent::Validated { ok: true }];
    evs.extend(messages(3, false));
    let (phase, _) = run(true, &evs);
    assert_eq!(phase, RunnerPhase::Receiving { handled: 3, managed: true });
    let (phase, action) = runner_step(phase, RunnerEvent::Received);
    assert_eq!(phase, RunnerPhase::Handling { handled: 4, managed: true });
    assert_eq!(action, RunnerAction::Handle);
}

#[test]
fn failed_validation_ends_the_run_before_any_message() {
    let mut evs = vec![RunnerEvent::Validated { ok: false }];
    evs.extend(messages(2, false));
    evs.push(RunnerEvent::ChannelClosed);
    let (phase, actions) = run(true, &evs);
    assert_eq!(phase, RunnerPhase::Failed);
    assert_eq!(actions[0], RunnerAction::Fail);
    assert!(actions[1..].iter().all(|a| *a == RunnerAction::Idle));
}

#[test]
fn failed_message_ends_the_run_without_shutdown() {
    let mut evs = vec![RunnerEvent::Validated { ok: true }];
    evs.extend(messages(2, true));
    evs.push(RunnerEvent::Received);
    evs.push(RunnerEvent::ChannelClosed);
    let (phase, actions) = run(true, &evs);
    assert_eq!(phase, RunnerPhase::Failed);
    assert_eq!(
        actions,
        vec![
            RunnerAction::CheckInitialHealth,
            RunnerAction::Handle,
            RunnerAction::Receive,
            RunnerAction::Handle,
            RunnerAction::Fail,
            RunnerAction::Idle,
            RunnerAction::Idle,
        ]
    );
}

#[test]
fn empty_channel_shuts_a_managed_actor_down() {
    let (phase, actions) = run(true, &[RunnerEvent::Validated { ok: true }, RunnerEvent::ChannelClosed]);
    assert_eq!(phase, RunnerPhase::Done);
    assert_eq!(actions, vec![RunnerAction::CheckInitialHealth, RunnerAction::Shutdown]);
}

#[test]
fn plain_run_hands_over_messages_and_finishes() {
    let mut evs = messages(3, false);
    evs.push(RunnerEvent::ChannelClosed);
    let (phase, actions) = run(false, &evs);
    assert_eq!(phase, RunnerPhase::Done);
    assert_eq!(actions.len(), 7);
    assert_eq!(actions[6], RunnerAction::Finish);
    assert!(!actions.contains(&RunnerAction::CheckHealth));
    assert!(!actions.contains(&RunnerAction::Shutdown));
}

#[test]
fn plain_run_stops_at_first_error() {
    let mut evs = messages(2, true);
    evs.push(RunnerEvent::Received);
    let (phase, actions) = run(false, &evs);
    assert_eq!(phase, RunnerPhase::Failed);
    assert_eq!(
        actions,
        vec![
            RunnerAction::Handle,
            RunnerAction::Receive,
            RunnerAction::Handle,
            RunnerAction::Fail,
            RunnerAction::Idle,
        ]
    );
}

#[test]
fn plain_run_with_empty_channel_finishes() {
    let (phase, actions) = run(false, &[RunnerEvent::ChannelClosed]);
    assert_eq!(phase, RunnerPhase::Done);
    assert_eq!(actions, vec![RunnerAction::Finish]);
}

#[test]
fn out_of_order_events_change_nothing() {
    let p = runner_start(true);
    assert_eq!(runner_step(p, RunnerEvent::Received), (p, RunnerAction::Idle));
    let h = RunnerPhase::Handling { handled: 1, managed: true };
    assert_eq!(runner_step(h, RunnerEvent::ChannelClosed), (h, RunnerAction::Idle));
}
