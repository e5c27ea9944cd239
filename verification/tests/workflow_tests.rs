use statestore::config::demo_config;
use statestore::config::Config;
use statestore::errors::ErrorKind;
use statestore::store::MemoryStore;
use statestore::workflow::run_roundtrip_local;
use statestore::workflow::Action;
use statestore::workflow::Event;
use statestore::workflow::Outcome;
use statestore::workflow::Phase;
use statestore::workflow::Workflow;

fn test_config() -> Config {
    Config {
        address: "https://127.0.0.1".to_string(),
        store_name: "statestore".to_string(),
        key: "K1".to_string(),
        value: b"Hello World".to_vec(),
        delay_seconds: 0,
    }
}

#[test]
fn demo_config_holds_the_demo_values() {
    let c = demo_config();
    assert_eq!(c.address, "https://127.0.0.1");
    assert_eq!(c.store_name, "statestore");
    assert_eq!(c.key, "K1");
    assert_eq!(c.value, b"Hello World".to_vec());
    assert_eq!(c.delay_seconds, 2);
}

#[test]
fn end_to_end_roundtrip_succeeds() {
    let mut store = MemoryStore::new();
    let (outcome, retrieved) = run_roundtrip_local(test_config(), &mut store);
    assert!(matches!(outcome, Outcome::Success));
    assert_eq!(retrieved, Some(b"Hello World".to_vec()));
    assert!(store.get(&"K1".to_string()).is_empty());
    assert_eq!(outcome.exit_code(), 0);
}

#[test]
fn actions_follow_the_configured_store_and_key() {
    let mut w = Workflow::new(test_config());
    assert!(matches!(w.next_action(), Some(Action::Wait(0))));
    w.step(Event::Waited);
    match w.next_action() {
        Some(Action::Connect(addr)) => assert_eq!(addr, "https://127.0.0.1"),
        _ => panic!("expected a connect action"),
    }
    w.step(Event::ConnectOk);
    match w.next_action() {
        Some(Action::Save(store, key, value)) => {
            assert_eq!(store, "statestore");
            assert_eq!(key, "K1");
            assert_eq!(value, b"Hello World".to_vec());
        }
        _ => panic!("expected a save action"),
    }
}

#[test]
fn connect_failure_is_fatal_and_stops_the_run() {
    let mut w = Workflow::new(test_config());
    w.step(Event::Waited);
    w.step(Event::ConnectFailed("endpoint unreachable".to_string()));
    assert!(w.next_action().is_none());
    match w.phase {
        Phase::Done(Outcome::Fatal(e)) => {
            assert_eq!(e.kind, ErrorKind::Connection);
            assert_eq!(e.detail, "endpoint unreachable");
            assert_eq!(
                e.message(),
                "failed to connect to the state store: endpoint unreachable"
            );
            assert_eq!(Outcome::Fatal(e).exit_code(), 1);
        }
        _ => panic!("expected a fatal connection error"),
    }
}

#[test]
fn save_failure_is_fatal_and_nothing_further_is_requested() {
    let mut w = Workflow::new(test_config());
    w.step(Event::Waited);
    w.step(Event::ConnectOk);
    w.step(Event::SaveFailed("transport error".to_string()));
    assert!(w.next_action().is_none());
    match w.phase {
        Phase::Done(Outcome::Fatal(e)) => {
            assert_eq!(e.kind, ErrorKind::Save);
            assert_eq!(e.message(), "failed to save state: transport error");
            assert_ne!(Outcome::Fatal(e).exit_code(), 0);
        }
        _ => panic!("expected a fatal save error"),
    }
}

#[test]
fn first_read_failure_is_fatal() {
    let mut w = Workflow::new(test_config());
    w.step(Event::Waited);
    w.step(Event::ConnectOk);
    w.step(Event::SaveOk);
    w.step(Event::GetFailed("transport error".to_string()));
    assert!(w.next_action().is_none());
    match w.phase {
        Phase::Done(Outcome::Fatal(e)) => assert_eq!(e.kind, ErrorKind::Get),
        _ => panic!("expected a fatal get error"),
    }
}

#[test]
fn delete_failure_is_fatal() {
    let mut w = Workflow::new(test_config());
    w.step(Event::Waited);
    w.step(Event::ConnectOk);
    w.step(Event::SaveOk);
    w.step(Event::GetOk(b"Hello World".to_vec()));
    w.step(Event::DeleteFailed("transport error".to_string()));
    assert!(w.next_action().is_none());
    match w.phase {
        Phase::Done(Outcome::Fatal(e)) => {
            assert_eq!(e.kind, ErrorKind::Delete);
            assert_eq!(e.message(), "failed to delete state: transport error");
        }
        _ => panic!("expected a fatal delete error"),
    }
}

#[test]
fn full_success_path_step_by_step() {
    let mut w = Workflow::new(test_config());
    w.step(Event::Waited);
    w.step(Event::ConnectOk);
    w.step(Event::SaveOk);
    w.step(Event::GetOk(b"Hello World".to_vec()));
    assert_eq!(w.retrieved, Some(b"Hello World".to_vec()));
    w.step(Event::DeleteOk);
    w.step(Event::GetOk(Vec::new()));
    assert!(matches!(w.phase, Phase::Done(Outcome::Success)));
    assert!(w.next_action().is_none());
}

#[test]
fn nonempty_confirmation_read_is_a_soft_warning_not_a_failure() {
    let mut w = Workflow::new(test_config());
    w.step(Event::Waited);
    w.step(Event::ConnectOk);
    w.step(Event::SaveOk);
    w.step(Event::GetOk(b"Hello World".to_vec()));
    w.step(Event::DeleteOk);
    w.step(Event::GetOk(b"stale".to_vec()));
    match w.phase {
        Phase::Done(outcome) => {
            assert!(matches!(outcome, Outcome::SoftWarning));
            assert_eq!(outcome.exit_code(), 0);
        }
        _ => panic!("expected a terminal workflow"),
    }
}

#[test]
fn confirmation_read_transport_failure_is_fatal() {
    let mut w = Workflow::new(test_config());
    w.step(Event::Waited);
    w.step(Event::ConnectOk);
    w.step(Event::SaveOk);
    w.step(Event::GetOk(b"Hello World".to_vec()));
    w.step(Event::DeleteOk);
    w.step(Event::GetFailed("transport error".to_string()));
    match w.phase {
        Phase::Done(Outcome::Fatal(e)) => assert_eq!(e.kind, ErrorKind::Get),
        _ => panic!("expected a fatal get error"),
    }
}

#[test]
fn roundtrip_leaves_unrelated_keys_in_place() {
    let mut store = MemoryStore::new();
    store.save("other".to_string(), b"kept".to_vec());
    let (outcome, _) = run_roundtrip_local(test_config(), &mut store);
    assert!(matches!(outcome, Outcome::Success));
    assert_eq!(store.get(&"other".to_string()), b"kept".to_vec());
}
