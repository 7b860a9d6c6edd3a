//! The health endpoint's answer, decided by whether a trivial query reached
//! the store. The endpoint always answers with success; only the body tells.
use vstd::prelude::*;

verus! {

#[derive(Clone, Copy, Debug, PartialEq, Eq, Structural)]
pub enum HealthStatus {
    Healthy,
    Unhealthy,
}

#[derive(Clone, Copy, Debug, PartialEq, Eq, Structural)]
pub enum DatabaseState {
    Connected,
    Disconnected,
}

/// The body of the health endpoint: `{"status": .., "database": ..}`.
#[derive(Clone, Copy, Debug, PartialEq, Eq, Structural)]
pub struct HealthReport {
    pub status: HealthStatus,
    pub database: DatabaseState,
}

impl HealthStatus {
    pub open spec fn spec_label(self) -> Seq<char> {
        match self {
            HealthStatus::Healthy => "healthy"@,
            HealthStatus::Unhealthy => "unhealthy"@,
        }
    }

    /// The text of the `status` field.
    pub fn label(&self) -> (r: &'static str)
        ensures
            r@ == self.spec_label(),
    {
        match self {
            HealthStatus::Healthy => "healthy",
            HealthStatus::Unhealthy => "unhealthy",
        }
    }
}

impl DatabaseState {
    pub open spec fn spec_label(self) -> Seq<char> {
        match self {
            DatabaseState::Connected => "connected"@,
            DatabaseState::Disconnected => "disconnected"@,
        }
    }

    /// The text of the `database` field.
    pub fn label(&self) -> (r: &'static str)
        ensures
            r@ == self.spec_label(),
    {
        match self {
            DatabaseState::Connected => "connected",
            DatabaseState::Disconnected => "disconnected",
        }
    }
}

/// The report for a store that did, or did not, answer the probe query.
pub fn health_report(database_reachable: bool) -> (r: HealthReport)
    ensures
        database_reachable ==> r == (HealthReport {
            status: HealthStatus::Healthy,
            database: DatabaseState::Connected,
        }),
        !database_reachable ==> r == (HealthReport {
            status: HealthStatus::Unhealthy,
            database: DatabaseState::Disconnected,
        }),
{
    if database_reachable {
        HealthReport { status: HealthStatus::Healthy, database: DatabaseState::Connected }
    } else {
        HealthReport { status: HealthStatus::Unhealthy, database: DatabaseState::Disconnected }
    }
}

} // verus!
