//! Health of the backing services.

use vstd::prelude::*;

verus! {

/// Whether each backing service answered.
#[derive(Clone, Copy, Debug, PartialEq, Eq, Structural)]
pub struct HealthStatus {
    pub postgres: bool,
    pub redis: bool,
    pub nats: bool,
}

/// The health report's texts: the overall status and each service's state.
#[derive(Clone, Copy, Debug)]
pub struct HealthReport {
    pub status: &'static str,
    pub postgres: &'static str,
    pub redis: &'static str,
    pub nats: &'static str,
}

/// The state text of one service.
pub open spec fn state_text(up: bool) -> Seq<char> {
    if up {
        "ok"@
    } else {
        "error"@
    }
}

impl HealthStatus {
    pub open spec fn all_up(&self) -> bool {
        self.postgres && self.redis && self.nats
    }

    /// `"ok"` when every service answered, else `"degraded"`.
    pub fn overall(&self) -> (s: &'static str)
        ensures
            self.all_up() ==> s@ == "ok"@,
            !self.all_up() ==> s@ == "degraded"@,
    {
        if self.postgres && self.redis && self.nats {
            "ok"
        } else {
            "degraded"
        }
    }

    /// The state text of one service: `"ok"` when it answered, else
    /// `"error"`.
    pub fn component_state(up: bool) -> (s: &'static str)
        ensures
            s@ == state_text(up),
    {
        if up {
            "ok"
        } else {
            "error"
        }
    }

    /// The texts that the health report shows.
    pub fn report(&self) -> (r: HealthReport)
        ensures
            self.all_up() ==> r.status@ == "ok"@,
            !self.all_up() ==> r.status@ == "degraded"@,
            r.postgres@ == state_text(self.postgres),
            r.redis@ == state_text(self.redis),
            r.nats@ == state_text(self.nats),
    {
        HealthReport {
            status: self.overall(),
            postgres: HealthStatus::component_state(self.postgres),
            redis: HealthStatus::component_state(self.redis),
            nats: HealthStatus::component_state(self.nats),
        }
    }
}

} // verus!
