use conn_lifecycle::connection::{health_probe, run_probe, Connection, RawConnection};
use conn_lifecycle::error::{Error, RecycleError};
use conn_lifecycle::lock::LockState;
use conn_lifecycle::manager::Manager;

/// The transport a test drives: establishing succeeds against the one valid
/// address and fails against every other.
fn simulated_establish(address: &str) -> Result<RawConnection, String> {
    if address == "valid-address" {
        Ok(RawConnection::establish_fresh())
    } else {
        Err(format!("could not connect to {address}"))
    }
}

#[test]
fn create_then_immediate_ping_succeeds() {
    let m = Manager::new("valid-address".to_string());
    let mut c = m.create(simulated_establish(m.database_url())).unwrap();
    assert!(c.ping().is_ok());
}

#[test]
fn ping_is_idempotent_on_healthy_connection() {
    let m = Manager::new("valid-address".to_string());
    let mut c = m.create(simulated_establish(m.database_url())).unwrap();
    let before = c.clone();
    for _ in 0..5 {
        assert!(c.ping().is_ok());
        assert_eq!(c, before);
    }
}

#[test]
fn recycle_is_idempotent_on_healthy_connection() {
    let m = Manager::new("valid-address".to_string());
    let mut c = m.create(simulated_establish(m.database_url())).unwrap();
    let before = c.clone();
    for _ in 0..5 {
        assert!(m.recycle(&mut c).is_ok());
        assert_eq!(c, before);
    }
}

#[test]
fn severed_transport_fails_recycle_and_never_reissues() {
    let m = Manager::new("valid-address".to_string());
    let mut idle: Vec<Connection> = Vec::new();
    let mut c = m.create(simulated_establish(m.database_url())).unwrap();

    // severed out-of-band while leased
    c.as_mut().sever();

    // the simulated pool recycles every returned wrapper and keeps only the valid ones
    match m.recycle(&mut c) {
        Ok(()) => idle.push(c.clone()),
        Err(RecycleError::Message(_)) => { /* destroy: never enters the idle set */ }
    }
    assert!(c.terminal);
    assert!(idle.iter().all(|kept| !kept.terminal));
    assert!(idle.is_empty());
}

#[test]
fn interact_windows_never_overlap() {
    // two tasks contend for the same raw connection through the queueing
    // discipline; while one window is open no grant opens another
    let mut lock = LockState::new();
    lock.request(1);
    lock.request(2);

    let first = lock.try_grant();
    assert_eq!(first, Some(1));
    assert_eq!(lock.holder(), Some(1));

    // task 1's window is open: no second window can open
    assert_eq!(lock.try_grant(), None);
    assert_eq!(lock.holder(), Some(1));

    lock.release(1);
    let second = lock.try_grant();
    assert_eq!(second, Some(2));
    assert_eq!(lock.holder(), Some(2));
    lock.release(2);
    assert_eq!(lock.holder(), None);
}

#[test]
fn failed_operation_still_releases_for_the_next_interact() {
    let m = Manager::new("valid-address".to_string());
    let mut c = m.create(simulated_establish(m.database_url())).unwrap();

    // the supplied operation fails; interact still gives the connection back
    let failed: Result<u64, String> = c.interact(|raw| (raw, Err("operation failed".to_string())));
    assert!(failed.is_err());

    // a subsequent interact on the same wrapper completes
    let rows = c.interact(run_probe);
    assert_eq!(rows, Ok(1));
}

#[test]
fn cancelled_waiter_is_never_granted() {
    let mut lock = LockState::new();
    lock.request(1);
    lock.request(2);
    lock.request(3);

    // task 2 gives up before its grant
    lock.cancel(2);

    let mut granted = Vec::new();
    while lock.waiting_count() > 0 || lock.holder().is_some() {
        if let Some(id) = lock.try_grant() {
            granted.push(id);
            lock.release(id);
        }
    }
    assert_eq!(granted, vec![1, 3]);
}

#[test]
fn grants_are_first_come_first_served() {
    let mut lock = LockState::new();
    for id in 10..15 {
        lock.request(id);
    }
    let mut granted = Vec::new();
    for _ in 0..5 {
        let id = lock.try_grant().unwrap();
        granted.push(id);
        lock.release(id);
    }
    assert_eq!(granted, vec![10, 11, 12, 13, 14]);
}

#[test]
fn scenario_valid_address_full_lifecycle() {
    let m = Manager::new("valid-address".to_string());
    let mut c = m.create(simulated_establish(m.database_url())).unwrap();
    assert!(m.recycle(&mut c).is_ok());
    let rows = c.interact(run_probe);
    assert_eq!(rows, Ok(1));
}

#[test]
fn scenario_unreachable_address_fails_create() {
    let m = Manager::new("unreachable-address".to_string());
    let r = m.create(simulated_establish(m.database_url()));
    match r {
        Err(Error::Connection(cause)) => {
            assert_eq!(cause, "could not connect to unreachable-address");
        }
        _ => panic!("create against an unreachable address must fail with an establishment error"),
    }
}

#[test]
fn scenario_severed_transport_is_terminal() {
    let m = Manager::new("valid-address".to_string());
    let mut c = m.create(simulated_establish(m.database_url())).unwrap();

    c.as_mut().sever();

    match m.recycle(&mut c) {
        Err(RecycleError::Message(msg)) => {
            assert_eq!(msg, "ping error: connection closed");
        }
        Ok(()) => panic!("recycle over a severed transport must fail"),
    }
    // a correct pool destroys the wrapper now and never recycles it again
    assert!(c.terminal);
}

#[test]
fn error_messages_name_their_class() {
    let e = Error::Connection("boom".to_string());
    assert_eq!(e.message(), "connection error: boom");

    let e = Error::Ping("lost".to_string());
    assert_eq!(e.message(), "ping error: lost");

    let RecycleError::Message(msg) = e.to_recycle_error();
    assert_eq!(msg, "ping error: lost");
}

#[test]
fn health_probe_is_the_fixed_statement() {
    assert_eq!(health_probe(), "SELECT 1");
}

#[test]
fn manager_keeps_the_address_verbatim() {
    let m = Manager::new("postgres://db.internal:5432/app".to_string());
    assert_eq!(m.database_url(), "postgres://db.internal:5432/app");
}

#[test]
fn execute_on_severed_session_reports_closed() {
    let mut raw = RawConnection::establish_fresh();
    assert_eq!(raw.execute(health_probe()), Ok(1));
    raw.sever();
    assert_eq!(
        raw.execute(health_probe()),
        Err("connection closed".to_string())
    );
}

#[test]
fn interact_propagates_the_operation_result_unchanged() {
    let m = Manager::new("valid-address".to_string());
    let mut c = m.create(simulated_establish(m.database_url())).unwrap();
    let out: u64 = c.interact(|raw| (raw, 42));
    assert_eq!(out, 42);
    // and the wrapper owns exactly the raw connection the operation left behind
    let severed: () = c.interact(|mut raw| {
        raw.sever();
        (raw, ())
    });
    let _ = severed;
    assert!(!c.as_ref().alive);
}
