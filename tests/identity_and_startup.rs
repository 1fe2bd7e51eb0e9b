use node_bootstrap::identity::{
    encode_key_pair, generate_key_pair, generate_or_load_key_pair, grants_group_or_other,
    is_valid_key_text, load_key_pair, public_key_bytes, save_steps, IdentityError,
    SaveStep, OWNER_ONLY_MODE,
};
use node_bootstrap::manifest::{load_schema_lock, ManifestError};
use node_bootstrap::startup::{
    signal_for, step, wait_outcome, Action, Coordinator, Event, Phase, ReadySignal, State,
    StartupError,
    GRACE_PERIOD_MS,
};

#[test]
fn identity_is_stable() {
    let (kp, text) = generate_or_load_key_pair(None).unwrap();
    let text = text.unwrap();
    assert!(is_valid_key_text(&text));
    let (again, written) = generate_or_load_key_pair(Some(&text)).unwrap();
    assert!(written.is_none());
    assert_eq!(kp.public_key().to_bytes(), again.public_key().to_bytes());
    assert_eq!(kp.private_key().to_bytes(), again.private_key().to_bytes());
    assert_eq!(public_key_bytes(&kp), kp.public_key().to_bytes().to_vec());
    assert_eq!(public_key_bytes(&again), public_key_bytes(&kp));
    assert_eq!(public_key_bytes(&kp).len(), 32);
}

#[test]
fn encoded_key_is_hex_of_private_key() {
    let (kp, text) = generate_key_pair();
    assert_eq!(text, hex::encode(kp.private_key().to_bytes()));
    assert_eq!(encode_key_pair(&kp), text);
    assert_eq!(text.len(), 64);
}

#[test]
fn malformed_identity_is_an_error() {
    assert_eq!(load_key_pair("abc").unwrap_err(), IdentityError::Malformed);
    assert_eq!(load_key_pair(&"zz".repeat(32)).unwrap_err(), IdentityError::Malformed);
    assert_eq!(load_key_pair(&"ab".repeat(33)).unwrap_err(), IdentityError::Malformed);
    assert!(matches!(generate_or_load_key_pair(Some("")), Err(IdentityError::Malformed)));
    let upper = load_key_pair(&"AB".repeat(32)).unwrap();
    assert_eq!(upper.private_key().to_bytes(), [0xabu8; 32]);
}

#[test]
fn owner_only_permissions() {
    assert!(!grants_group_or_other(OWNER_ONLY_MODE));
    assert!(grants_group_or_other(0o644));
    assert!(grants_group_or_other(0o601));
    assert_eq!(
        save_steps(true),
        vec![SaveStep::Create, SaveStep::Write, SaveStep::Sync, SaveStep::RestrictPermissions]
    );
    assert_eq!(save_steps(false), vec![SaveStep::Create, SaveStep::Write, SaveStep::Sync]);
}

#[test]
fn manifest_loads_the_same_twice() {
    let text = "version = \"V1\"\n[[commits]]\nentry = \"00aa\"\noperation = \"00bb\"\n";
    let a = load_schema_lock(text).unwrap();
    let b = load_schema_lock(text).unwrap();
    assert_eq!(a.table(), b.table());
    assert!(a.table().contains_key("commits"));
    assert_eq!(load_schema_lock("[[commits]\n").unwrap_err(), ManifestError::Parse);
}

fn phases_of(events: &[Event]) -> (Vec<Phase>, Vec<Action>) {
    let mut c = Coordinator::new();
    let mut phases = vec![c.phase()];
    let mut actions = Vec::new();
    for e in events {
        actions.push(c.handle(*e));
        if *phases.last().unwrap() != c.phase() {
            phases.push(c.phase());
        }
    }
    (phases, actions)
}

#[test]
fn startup_without_migration() {
    let mut c = Coordinator::new();
    let acts = c.handle_all(&vec![
        Event::Launch,
        Event::NodeStarted,
        Event::Migrated(false),
        Event::ReadyDelivered,
        Event::ExitNotified,
        Event::ShutdownComplete,
    ]);
    assert_eq!(
        acts,
        vec![
            Action::StartNode,
            Action::Migrate,
            Action::SignalReady,
            Action::AwaitExit,
            Action::Shutdown,
            Action::Nothing
        ]
    );
    assert_eq!(c.phase(), Phase::ShutDown);
}

#[test]
fn fresh_install_trace_without_migration() {
    let (phases, actions) = phases_of(&[
        Event::Launch,
        Event::NodeStarted,
        Event::Migrated(false),
        Event::ReadyDelivered,
    ]);
    assert_eq!(phases, vec![Phase::NotStarted, Phase::Initializing, Phase::Ready, Phase::Serving]);
    assert!(!actions.contains(&Action::Sleep(GRACE_PERIOD_MS)));
}

#[test]
fn fresh_install_trace_with_migration() {
    let (phases, actions) = phases_of(&[
        Event::Launch,
        Event::NodeStarted,
        Event::Migrated(true),
        Event::GraceElapsed,
        Event::ReadyDelivered,
    ]);
    assert_eq!(
        phases,
        vec![
            Phase::NotStarted,
            Phase::Initializing,
            Phase::MigrationPending,
            Phase::Ready,
            Phase::Serving
        ]
    );
    assert_eq!(actions[2], Action::Sleep(GRACE_PERIOD_MS));
    assert_eq!(actions[3], Action::SignalReady);
}

#[test]
fn start_and_migrate_only_once() {
    let mut c = Coordinator::new();
    assert_eq!(c.handle(Event::Launch), Action::StartNode);
    assert_eq!(c.handle(Event::Launch), Action::Nothing);
    assert_eq!(c.handle(Event::Migrated(false)), Action::Nothing);
    assert_eq!(c.handle(Event::NodeStarted), Action::Migrate);
    assert_eq!(c.phase(), Phase::Initializing);
    assert_eq!(c.handle(Event::NodeStarted), Action::Nothing);
    assert_eq!(c.phase(), Phase::Initializing);
}

#[test]
fn startup_with_migration_waits() {
    let mut c = Coordinator::new();
    assert_eq!(c.handle(Event::Launch), Action::StartNode);
    assert_eq!(c.handle(Event::NodeStarted), Action::Migrate);
    assert_eq!(c.handle(Event::Migrated(true)), Action::Sleep(GRACE_PERIOD_MS));
    assert_eq!(GRACE_PERIOD_MS, 1000);
    assert_eq!(c.phase(), Phase::MigrationPending);
    assert_eq!(c.handle(Event::ReadyDelivered), Action::Nothing);
    assert_eq!(c.phase(), Phase::MigrationPending);
    assert_eq!(c.handle(Event::GraceElapsed), Action::SignalReady);
    assert_eq!(c.phase(), Phase::Ready);
}

#[test]
fn failed_migration_ends_wait() {
    let started = State { phase: Phase::Initializing, node_started: true };
    assert_eq!(
        step(started, Event::MigrationFailed),
        (State { phase: Phase::Failed, node_started: true }, Action::SignalFailure)
    );
    assert_eq!(signal_for(Action::SignalFailure), Some(ReadySignal::Failed));
    assert_eq!(signal_for(Action::SignalReady), Some(ReadySignal::Ready));
    assert_eq!(signal_for(Action::Migrate), None);
    assert_eq!(wait_outcome(Some(ReadySignal::Ready)), Ok(()));
    assert_eq!(wait_outcome(Some(ReadySignal::Failed)), Err(StartupError::MigrationFailed));
    assert_eq!(wait_outcome(None), Err(StartupError::SignalDropped));
}

#[test]
fn stray_events_change_nothing() {
    let idle = State { phase: Phase::NotStarted, node_started: false };
    assert_eq!(step(idle, Event::GraceElapsed), (idle, Action::Nothing));
    let done = State { phase: Phase::ShutDown, node_started: true };
    assert_eq!(step(done, Event::Launch), (done, Action::Nothing));
}
