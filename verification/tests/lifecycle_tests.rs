use payload_router::auth::creds;
use payload_router::lifecycle::GraphPhase;
use payload_router::lifecycle::Lifecycle;

#[test]
fn lifecycle_runs_built_running_stopped() {
    let mut lc = Lifecycle::new();
    assert_eq!(lc.phase(), GraphPhase::Built);
    lc.start();
    assert_eq!(lc.phase(), GraphPhase::Running);
    lc.shutdown();
    assert_eq!(lc.phase(), GraphPhase::Stopped);
}

#[test]
fn shutdown_is_idempotent_and_reachable_from_every_phase() {
    let mut fresh = Lifecycle::new();
    fresh.shutdown();
    assert_eq!(fresh.phase(), GraphPhase::Stopped);
    fresh.shutdown();
    assert_eq!(fresh.phase(), GraphPhase::Stopped);
}

#[test]
fn creds_with_username_and_password() {
    let c = creds(Some("user".to_string()), Some("secret".to_string())).unwrap();
    assert_eq!(c.username, "user");
    assert_eq!(c.password, "secret");
}

#[test]
fn creds_with_username_alone_defaults_the_password() {
    let c = creds(Some("user".to_string()), None).unwrap();
    assert_eq!(c.username, "user");
    assert_eq!(c.password, "");
}

#[test]
fn creds_with_nothing_yields_none() {
    assert!(creds(None, None).is_none());
}
