use interactive_exeunit::driver::{Driver, DriverAction, DriverEvent, Phase, SessionError};
use interactive_exeunit::events::{EventMonitor, MonitorAction, OutputStream, RuntimeEvent};

fn feed(d: &mut Driver, events: &[DriverEvent]) -> Vec<DriverAction> {
    events.iter().map(|e| d.step(*e)).collect()
}

fn destroys(actions: &[DriverAction]) -> usize {
    actions.iter().filter(|a| **a == DriverAction::Destroy).count()
}

#[test]
fn scenario_one_offer_output_then_finished() {
    let mut d = Driver::new(false);
    let mut actions = feed(
        &mut d,
        &[
            DriverEvent::Begin,
            DriverEvent::Negotiated { agreements: 1 },
            DriverEvent::Created,
            DriverEvent::Launched,
        ],
    );
    assert_eq!(
        actions,
        vec![
            DriverAction::Negotiate,
            DriverAction::CreateSession,
            DriverAction::DeployAndStart,
            DriverAction::SpawnConsumers,
        ]
    );
    let mut m = EventMonitor::new();
    let mut stdout = Vec::new();
    let events = vec![
        RuntimeEvent::Output { stream: OutputStream::Stdout, bytes: b"a".to_vec() },
        RuntimeEvent::Output { stream: OutputStream::Stdout, bytes: b"b".to_vec() },
        RuntimeEvent::Finished { return_code: 0, message: None },
        RuntimeEvent::Output { stream: OutputStream::Stdout, bytes: b"late".to_vec() },
    ];
    for ev in events {
        let bytes = match &ev {
            RuntimeEvent::Output { bytes, .. } => bytes.clone(),
            _ => Vec::new(),
        };
        match m.observe(ev) {
            MonitorAction::Forward(OutputStream::Stdout) => stdout.push(bytes),
            MonitorAction::Forward(OutputStream::Stderr) => panic!("nothing on stderr"),
            MonitorAction::Continue => {}
            MonitorAction::Stop => break,
        }
    }
    assert_eq!(stdout, vec![b"a".to_vec(), b"b".to_vec()]);
    assert!(m.finished);
    assert_eq!(m.return_code, Some(0));
    assert_eq!(m.message, None);
    actions.push(d.step(DriverEvent::StreamEnded));
    assert_eq!(d.phase, Phase::Destroying);
    assert_eq!(d.error, None);
    actions.push(d.step(DriverEvent::Destroyed { ok: true }));
    assert_eq!(d.phase, Phase::Done);
    assert_eq!(d.error, None);
    assert_eq!(destroys(&actions), 1);
}

#[test]
fn scenario_start_fails_destroys_before_report() {
    let mut d = Driver::new(true);
    let actions = feed(
        &mut d,
        &[
            DriverEvent::Begin,
            DriverEvent::Negotiated { agreements: 1 },
            DriverEvent::Created,
            DriverEvent::LaunchFailed,
            DriverEvent::Destroyed { ok: true },
        ],
    );
    assert_eq!(
        actions,
        vec![
            DriverAction::Negotiate,
            DriverAction::CreateSession,
            DriverAction::DeployAndStart,
            DriverAction::Destroy,
            DriverAction::Finish,
        ]
    );
    assert!(!actions.contains(&DriverAction::SpawnConsumers));
    assert_eq!(d.error, Some(SessionError::LaunchError));
    assert!(d.is_done());
}

#[test]
fn no_agreement_is_a_timeout_and_launches_nothing() {
    let mut d = Driver::new(false);
    let actions = feed(
        &mut d,
        &[
            DriverEvent::Begin,
            DriverEvent::Negotiated { agreements: 0 },
            DriverEvent::Created,
            DriverEvent::Launched,
        ],
    );
    assert_eq!(
        actions,
        vec![DriverAction::Negotiate, DriverAction::Finish, DriverAction::Wait, DriverAction::Wait]
    );
    assert_eq!(d.error, Some(SessionError::NegotiationTimeout));
    assert!(!d.created);
}

#[test]
fn destroyed_once_on_every_exit_path() {
    let start = [
        DriverEvent::Begin,
        DriverEvent::Negotiated { agreements: 2 },
        DriverEvent::Created,
    ];
    let endings: Vec<(Vec<DriverEvent>, Option<SessionError>)> = vec![
        (
            vec![DriverEvent::Launched, DriverEvent::ChannelClosed, DriverEvent::StreamEnded],
            None,
        ),
        (vec![DriverEvent::LaunchFailed], Some(SessionError::LaunchError)),
        (
            vec![DriverEvent::Launched, DriverEvent::StreamFailed, DriverEvent::ChannelClosed],
            Some(SessionError::StreamError),
        ),
        (vec![DriverEvent::Cancelled], Some(SessionError::Cancelled)),
        (vec![DriverEvent::Launched, DriverEvent::Cancelled], Some(SessionError::Cancelled)),
        (
            vec![DriverEvent::Launched, DriverEvent::StreamEnded, DriverEvent::Cancelled],
            Some(SessionError::Cancelled),
        ),
    ];
    for (ending, error) in endings {
        let mut d = Driver::new(true);
        let mut actions = feed(&mut d, &start);
        actions.extend(feed(&mut d, &ending));
        assert_eq!(d.phase, Phase::Destroying);
        actions.extend(feed(
            &mut d,
            &[DriverEvent::Destroyed { ok: false }, DriverEvent::Cancelled, DriverEvent::Destroyed { ok: true }],
        ));
        assert_eq!(destroys(&actions), 1);
        assert_eq!(d.phase, Phase::Done);
        assert_eq!(d.error, error);
        assert!(d.destroy_failed);
    }
}

#[test]
fn failures_before_creation_destroy_nothing() {
    let cases = vec![
        (vec![DriverEvent::Begin, DriverEvent::PublishFailed], SessionError::PublishError),
        (vec![DriverEvent::Begin, DriverEvent::NegotiationFailed], SessionError::NegotiationError),
        (
            vec![DriverEvent::Begin, DriverEvent::Negotiated { agreements: 1 }, DriverEvent::CreationFailed],
            SessionError::ActivityCreationError,
        ),
        (vec![DriverEvent::Cancelled], SessionError::Cancelled),
        (vec![DriverEvent::Begin, DriverEvent::Cancelled], SessionError::Cancelled),
    ];
    for (events, error) in cases {
        let mut d = Driver::new(false);
        let actions = feed(&mut d, &events);
        assert_eq!(destroys(&actions), 0);
        assert_eq!(*actions.last().unwrap(), DriverAction::Finish);
        assert_eq!(d.error, Some(error));
        assert!(d.is_done());
    }
}

#[test]
fn monitoring_waits_for_both_flows() {
    let mut d = Driver::new(true);
    feed(
        &mut d,
        &[
            DriverEvent::Begin,
            DriverEvent::Negotiated { agreements: 1 },
            DriverEvent::Created,
            DriverEvent::Launched,
        ],
    );
    assert_eq!(d.step(DriverEvent::StreamEnded), DriverAction::Wait);
    assert_eq!(d.phase, Phase::Draining);
    assert_eq!(d.step(DriverEvent::ChannelClosed), DriverAction::Destroy);
    assert_eq!(d.phase, Phase::Destroying);
}

#[test]
fn monitor_routes_streams_and_ignores_after_finish() {
    let mut m = EventMonitor::new();
    assert_eq!(m.observe(RuntimeEvent::Started), MonitorAction::Continue);
    let err = RuntimeEvent::Output { stream: OutputStream::Stderr, bytes: vec![1] };
    assert_eq!(m.observe(err), MonitorAction::Forward(OutputStream::Stderr));
    let fin = RuntimeEvent::Finished { return_code: 3, message: Some("bye".to_string()) };
    assert_eq!(m.observe(fin), MonitorAction::Stop);
    let again = RuntimeEvent::Finished { return_code: 9, message: None };
    assert_eq!(m.observe(again), MonitorAction::Stop);
    assert_eq!(m.return_code, Some(3));
    assert_eq!(m.message, Some("bye".to_string()));
}
