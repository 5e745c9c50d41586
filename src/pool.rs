use vstd::prelude::*;

verus! {

/// Why an activation attempt did not go through.
#[derive(Debug, Clone, Copy, PartialEq, Eq, Structural)]
pub enum ErrorCode {
    /// The effective time lies before the pool's activation point.
    NotActivatedYet,
    /// The host's clock could not be read.
    ClockUnavailable,
}

/// The persistent activation record.
#[derive(Debug, Clone, Copy, PartialEq, Eq, Structural)]
pub struct MeteorPool {
    /// Unix timestamp (seconds) from which activation is allowed.
    pub activation_point: i64,
    /// Whether the pool has been switched on.
    pub is_active: bool,
    /// An operator-supplied override of the current time.
    pub simulated_timestamp: Option<i64>,
}

impl MeteorPool {
    /// A freshly created record.
    pub open spec fn created(activation_point: i64) -> MeteorPool {
        MeteorPool { activation_point, is_active: false, simulated_timestamp: None }
    }

    /// The record with its simulated time replaced by `s`.
    pub open spec fn with_simulated_time(self, s: i64) -> MeteorPool {
        MeteorPool { simulated_timestamp: Some(s), ..self }
    }

    /// The record as it is after an attempt to activate it at time `now`:
    /// switched on when `now` has reached the activation point, else unchanged.
    pub open spec fn attempted_at(self, now: int) -> MeteorPool {
        if now >= self.activation_point {
            MeteorPool { is_active: true, ..self }
        } else {
            self
        }
    }

    /// What an attempt to activate the record at time `now` returns.
    pub open spec fn attempt_result(self, now: int) -> Result<(), ErrorCode> {
        if now >= self.activation_point {
            Ok(())
        } else {
            Err(ErrorCode::NotActivatedYet)
        }
    }

    /// Switches the record on if `now` has reached its activation point;
    /// otherwise fails with `NotActivatedYet` and leaves it as it was.
    pub fn activate_at(&mut self, now: i64) -> (r: Result<(), ErrorCode>)
        ensures
            r is Ok <==> now >= old(self).activation_point,
            r == old(self).attempt_result(now as int),
            *final(self) == old(self).attempted_at(now as int),
    {
        if now >= self.activation_point {
            self.is_active = true;
            Ok(())
        } else {
            Err(ErrorCode::NotActivatedYet)
        }
    }
}

/// A storage slot that has not been set up yet: every field zeroed.
impl Default for MeteorPool {
    fn default() -> (r: MeteorPool)
        ensures
            r == (MeteorPool { activation_point: 0, is_active: false, simulated_timestamp: None }),
    {
        MeteorPool { activation_point: 0, is_active: false, simulated_timestamp: None }
    }
}

} // verus!
