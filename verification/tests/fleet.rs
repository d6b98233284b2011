use command_supervisor::aggregate::{Aggregator, Disposition, EXIT_FAILURE, EXIT_SUCCESS};
use command_supervisor::fanout::{FanOut, StopPoll, Watch};
use command_supervisor::machine::{Action, Event, Phase};
use command_supervisor::outcome::{ExitStatus, Outcome, OutcomeKind};
use command_supervisor::plan::{plan, pool_size, supervisors, FileConfig};
use command_supervisor::shell::{shell_invocation, Platform};
use command_supervisor::supervisor::Supervisor;
use command_supervisor::token::CancellationToken;

fn config(cmds: &[&str]) -> FileConfig {
    FileConfig { cmds: cmds.iter().map(|c| c.to_string()).collect() }
}

fn code(code: i32) -> ExitStatus {
    ExitStatus { code: Some(code), signal: None }
}

fn drive(mut supervisor: Supervisor, events: Vec<Event>) -> Outcome {
    let mut last = Action::Idle;
    for event in events {
        last = supervisor.step(event).action;
    }
    assert_eq!(last, Action::Report);
    supervisor.into_outcome().unwrap()
}

fn completes_with(status: i32) -> Vec<Event> {
    vec![Event::Start, Event::Spawned, Event::Exited(code(status))]
}

fn stopped() -> Vec<Event> {
    vec![
        Event::Start,
        Event::Spawned,
        Event::Cancelled,
        Event::StillRunning,
        Event::Killed,
        Event::Exited(ExitStatus { code: None, signal: Some(9) }),
    ]
}

#[test]
fn token_fires_once() {
    let mut token = CancellationToken::new();
    assert!(!token.is_fired());
    assert!(token.fire());
    assert!(token.is_fired());
    assert!(!token.fire());
    assert!(token.is_fired());
}

#[test]
fn fan_out_starts_with_pending_tokens() {
    let fan_out = FanOut::new(3);
    assert_eq!(fan_out.len(), 3);
    assert_eq!(fan_out.watch(), Watch::Watching);
    assert!(!fan_out.is_fired(0));
    assert!(!fan_out.is_fired(2));
    assert!(!fan_out.is_fired(3));
}

#[test]
fn fan_out_keeps_watching_while_quiet() {
    let mut fan_out = FanOut::new(2);
    assert_eq!(fan_out.observe(StopPoll::Quiet), Vec::<usize>::new());
    assert_eq!(fan_out.watch(), Watch::Watching);
    assert!(!fan_out.is_fired(0));
}

#[test]
fn stop_request_fires_every_token_in_index_order() {
    let mut fan_out = FanOut::new(4);
    assert_eq!(fan_out.observe(StopPoll::Requested), vec![0, 1, 2, 3]);
    assert_eq!(fan_out.watch(), Watch::Fired);
    assert!(fan_out.is_fired(0));
    assert!(fan_out.is_fired(3));
    assert!(!fan_out.is_fired(4));
}

#[test]
fn second_stop_request_changes_nothing() {
    let mut fan_out = FanOut::new(2);
    assert_eq!(fan_out.observe(StopPoll::Requested), vec![0, 1]);
    assert_eq!(fan_out.observe(StopPoll::Requested), Vec::<usize>::new());
    assert_eq!(fan_out.observe(StopPoll::Disconnected), Vec::<usize>::new());
    assert_eq!(fan_out.observe(StopPoll::Quiet), Vec::<usize>::new());
    assert_eq!(fan_out.watch(), Watch::Fired);
    assert!(fan_out.is_fired(0));
    assert!(fan_out.is_fired(1));
}

#[test]
fn lost_stop_signal_is_fatal() {
    let mut fan_out = FanOut::new(2);
    assert_eq!(fan_out.observe(StopPoll::Disconnected), Vec::<usize>::new());
    assert_eq!(fan_out.watch(), Watch::Failed);
    assert!(!fan_out.is_fired(0));
    assert_eq!(fan_out.observe(StopPoll::Requested), Vec::<usize>::new());
    assert_eq!(fan_out.watch(), Watch::Failed);
    assert!(!fan_out.is_fired(1));
}

#[test]
fn fan_out_without_commands_fires_nothing() {
    let mut fan_out = FanOut::new(0);
    assert_eq!(fan_out.observe(StopPoll::Requested), Vec::<usize>::new());
    assert_eq!(fan_out.watch(), Watch::Fired);
}

#[test]
fn pool_has_two_waiters_per_command_and_one_for_the_fan_out() {
    assert_eq!(pool_size(0), Some(1));
    assert_eq!(pool_size(1), Some(3));
    assert_eq!(pool_size(3), Some(7));
    assert_eq!(pool_size((usize::MAX - 1) / 2), Some(usize::MAX));
    assert_eq!(pool_size((usize::MAX - 1) / 2 + 1), None);
    assert_eq!(pool_size(usize::MAX), None);
}

#[test]
fn shell_indirection_of_each_platform() {
    let unix = shell_invocation(Platform::Unix, "sleep 1");
    assert_eq!(unix.program, "sh");
    assert_eq!(unix.args, vec!["-c".to_string(), "sleep 1".to_string()]);
    let windows = shell_invocation(Platform::Windows, "ping -n 2 127.0.0.1 > NUL");
    assert_eq!(windows.program, "cmd");
    assert_eq!(windows.args, vec!["/C".to_string(), "ping -n 2 127.0.0.1 > NUL".to_string()]);
    let empty = shell_invocation(Platform::Unix, "");
    assert_eq!(empty.args, vec!["-c".to_string(), String::new()]);
}

#[test]
fn supervisors_follow_the_configured_order() {
    let cmds = vec!["a".to_string(), "b".to_string(), "a".to_string()];
    let all = supervisors(&cmds);
    assert_eq!(all.len(), 3);
    for (i, s) in all.iter().enumerate() {
        assert_eq!(s.index(), i);
        assert_eq!(*s.command(), cmds[i]);
        assert_eq!(*s.phase(), Phase::NotStarted);
    }
}

#[test]
fn plan_of_no_commands_succeeds_at_once() {
    let p = plan(&config(&[])).unwrap();
    assert_eq!(p.pool_size, 1);
    assert!(p.supervisors.is_empty());
    assert_eq!(p.fan_out.len(), 0);
    assert_eq!(p.aggregator.len(), 0);
    assert!(p.aggregator.is_complete());
    assert_eq!(p.aggregator.disposition(), Disposition::Success);
    assert_eq!(p.aggregator.exit_code(), Some(EXIT_SUCCESS));
    assert_eq!(p.aggregator.outcomes(), Vec::<Outcome>::new());
}

#[test]
fn plan_sets_up_one_of_each_per_command() {
    let p = plan(&config(&["sleep 1", "sleep 2", "exit 1"])).unwrap();
    assert_eq!(p.pool_size, 7);
    assert_eq!(p.supervisors.len(), 3);
    assert_eq!(p.supervisors[2].index(), 2);
    assert_eq!(p.supervisors[2].command(), "exit 1");
    assert_eq!(p.fan_out.len(), 3);
    assert_eq!(p.fan_out.watch(), Watch::Watching);
    assert_eq!(p.aggregator.len(), 3);
    assert!(!p.aggregator.is_complete());
    assert_eq!(p.aggregator.disposition(), Disposition::Waiting);
    assert_eq!(p.aggregator.exit_code(), None);
}

#[test]
fn scenario_single_command_completes() {
    let mut p = plan(&config(&["sleep 1"])).unwrap();
    let outcome = drive(p.supervisors.remove(0), completes_with(0));
    assert_eq!(outcome, Outcome { index: 0, kind: OutcomeKind::Completed(code(0)) });
    assert!(p.aggregator.record(outcome));
    assert_eq!(p.aggregator.disposition(), Disposition::Success);
    assert_eq!(p.aggregator.exit_code(), Some(0));
}

#[test]
fn scenario_stop_terminates_a_long_command() {
    let mut p = plan(&config(&["sleep 60"])).unwrap();
    assert_eq!(p.fan_out.observe(StopPoll::Quiet), Vec::<usize>::new());
    assert_eq!(p.fan_out.observe(StopPoll::Requested), vec![0]);
    assert!(p.fan_out.is_fired(0));
    let outcome = drive(p.supervisors.remove(0), stopped());
    assert_eq!(outcome, Outcome { index: 0, kind: OutcomeKind::TerminatedByCancellation });
    assert!(p.aggregator.record(outcome));
    assert_eq!(p.aggregator.disposition(), Disposition::Success);
}

#[test]
fn scenario_nonzero_exit_is_not_a_failure_of_the_core() {
    let mut p = plan(&config(&["exit 3"])).unwrap();
    let outcome = drive(p.supervisors.remove(0), completes_with(3));
    assert_eq!(outcome, Outcome { index: 0, kind: OutcomeKind::Completed(code(3)) });
    assert!(p.aggregator.record(outcome));
    assert_eq!(p.aggregator.disposition(), Disposition::Success);
    assert_eq!(p.aggregator.exit_code(), Some(EXIT_SUCCESS));
}

#[test]
fn scenario_spawn_failure_fails_the_process() {
    let mut p = plan(&config(&["/nonexistent-binary-xyz"])).unwrap();
    let outcome = drive(
        p.supervisors.remove(0),
        vec![Event::Start, Event::SpawnError("No such file or directory".to_string())],
    );
    assert_eq!(
        outcome,
        Outcome {
            index: 0,
            kind: OutcomeKind::SpawnFailed("No such file or directory".to_string()),
        }
    );
    assert!(p.aggregator.record(outcome));
    assert_eq!(p.aggregator.disposition(), Disposition::Failure);
    assert_eq!(p.aggregator.exit_code(), Some(EXIT_FAILURE));
    assert_eq!(EXIT_FAILURE, 1);
}

#[test]
fn scenario_three_commands_wait_for_the_slowest() {
    let mut p = plan(&config(&["sleep 1", "sleep 2", "exit 1"])).unwrap();
    let third = drive(p.supervisors.remove(2), completes_with(1));
    let second = drive(p.supervisors.remove(1), completes_with(0));
    let first = drive(p.supervisors.remove(0), completes_with(0));
    assert!(p.aggregator.record(third));
    assert_eq!(p.aggregator.disposition(), Disposition::Waiting);
    assert!(p.aggregator.record(first));
    assert!(!p.aggregator.is_complete());
    assert_eq!(p.aggregator.exit_code(), None);
    assert!(p.aggregator.record(second));
    assert!(p.aggregator.is_complete());
    assert_eq!(p.aggregator.disposition(), Disposition::Success);
    assert_eq!(
        p.aggregator.outcomes(),
        vec![
            Outcome { index: 0, kind: OutcomeKind::Completed(code(0)) },
            Outcome { index: 1, kind: OutcomeKind::Completed(code(0)) },
            Outcome { index: 2, kind: OutcomeKind::Completed(code(1)) },
        ]
    );
}

#[test]
fn one_outcome_per_command_whenever_the_stop_arrives() {
    let traces = vec![
        vec![
            Event::Cancelled,
            Event::Start,
            Event::Spawned,
            Event::StillRunning,
            Event::Killed,
            Event::Exited(code(0)),
        ],
        vec![Event::Start, Event::Cancelled, Event::Spawned, Event::Exited(code(0))],
        stopped(),
        vec![Event::Start, Event::Spawned, Event::Exited(code(2)), Event::Cancelled],
        vec![Event::Start, Event::SpawnError("denied".to_string()), Event::Cancelled],
    ];
    let n = traces.len();
    let mut p = plan(&config(&["a", "b", "c", "d", "e"])).unwrap();
    assert_eq!(p.fan_out.observe(StopPoll::Requested), vec![0, 1, 2, 3, 4]);
    let mut reports = 0;
    for (mut supervisor, events) in p.supervisors.into_iter().zip(traces).rev() {
        for event in events {
            if supervisor.step(event).action == Action::Report {
                reports += 1;
            }
        }
        assert!(p.aggregator.record(supervisor.into_outcome().unwrap()));
    }
    assert_eq!(reports, n);
    assert!(p.aggregator.is_complete());
    let outcomes = p.aggregator.outcomes();
    assert_eq!(outcomes.len(), n);
    for (i, outcome) in outcomes.iter().enumerate() {
        assert_eq!(outcome.index, i);
    }
    assert_eq!(outcomes[0].kind, OutcomeKind::TerminatedByCancellation);
    assert_eq!(outcomes[1].kind, OutcomeKind::Completed(code(0)));
    assert_eq!(outcomes[2].kind, OutcomeKind::TerminatedByCancellation);
    assert_eq!(outcomes[3].kind, OutcomeKind::Completed(code(2)));
    assert_eq!(outcomes[4].kind, OutcomeKind::SpawnFailed("denied".to_string()));
    assert_eq!(p.aggregator.disposition(), Disposition::Failure);
}

#[test]
fn first_record_of_a_command_stands() {
    let mut aggregator = Aggregator::new(2);
    assert!(aggregator.record(Outcome { index: 1, kind: OutcomeKind::Completed(code(0)) }));
    assert!(!aggregator.record(Outcome { index: 1, kind: OutcomeKind::TerminatedByCancellation }));
    assert!(!aggregator.record_lost(1));
    assert_eq!(
        aggregator.outcomes(),
        vec![Outcome { index: 1, kind: OutcomeKind::Completed(code(0)) }]
    );
    assert!(!aggregator.is_complete());
}

#[test]
fn record_for_an_unknown_command_is_dropped() {
    let mut aggregator = Aggregator::new(2);
    assert!(!aggregator.record(Outcome { index: 2, kind: OutcomeKind::Completed(code(0)) }));
    assert!(!aggregator.record_lost(7));
    assert_eq!(aggregator.outcomes(), Vec::<Outcome>::new());
    assert_eq!(aggregator.disposition(), Disposition::Waiting);
}

#[test]
fn lost_supervisor_fails_the_aggregation() {
    let mut aggregator = Aggregator::new(2);
    assert!(aggregator.record(Outcome { index: 0, kind: OutcomeKind::Completed(code(0)) }));
    assert!(aggregator.record_lost(1));
    assert!(aggregator.is_complete());
    assert_eq!(aggregator.disposition(), Disposition::Failure);
    assert_eq!(aggregator.exit_code(), Some(1));
    assert_eq!(aggregator.outcomes().len(), 1);
}

#[test]
fn wait_failure_fails_the_process() {
    let mut aggregator = Aggregator::new(2);
    let failed = Outcome { index: 0, kind: OutcomeKind::WaitFailed("gone".to_string()) };
    assert!(aggregator.record(failed));
    assert!(aggregator.record(Outcome { index: 1, kind: OutcomeKind::TerminatedByCancellation }));
    assert_eq!(aggregator.disposition(), Disposition::Failure);
}

#[test]
fn record_order_does_not_matter() {
    let a = Outcome { index: 0, kind: OutcomeKind::Completed(code(4)) };
    let b = Outcome { index: 2, kind: OutcomeKind::SpawnFailed("x".to_string()) };
    let mut one = Aggregator::new(3);
    one.record(a.clone());
    one.record(b.clone());
    one.record_lost(1);
    let mut other = Aggregator::new(3);
    other.record_lost(1);
    other.record(b);
    other.record(a);
    assert_eq!(one.outcomes(), other.outcomes());
    assert_eq!(one.disposition(), other.disposition());
    assert_eq!(one.disposition(), Disposition::Failure);
}

#[test]
fn duplicate_keeps_the_outcome() {
    let kinds = vec![
        OutcomeKind::Completed(ExitStatus { code: None, signal: Some(15) }),
        OutcomeKind::TerminatedByCancellation,
        OutcomeKind::SpawnFailed("a".to_string()),
        OutcomeKind::WaitFailed("b".to_string()),
    ];
    for kind in kinds {
        assert_eq!(kind.duplicate(), kind);
    }
}
