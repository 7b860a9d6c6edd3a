use signal_ingest::health::{health_report, DatabaseState, HealthReport, HealthStatus};

#[test]
fn reachable_store_is_healthy() {
    let r = health_report(true);
    assert_eq!(
        r,
        HealthReport { status: HealthStatus::Healthy, database: DatabaseState::Connected }
    );
    assert_eq!(r.status.label(), "healthy");
    assert_eq!(r.database.label(), "connected");
}

#[test]
fn unreachable_store_is_unhealthy() {
    let r = health_report(false);
    assert_eq!(
        r,
        HealthReport { status: HealthStatus::Unhealthy, database: DatabaseState::Disconnected }
    );
    assert_eq!(r.status.label(), "unhealthy");
    assert_eq!(r.database.label(), "disconnected");
}
