//! Estimators of the core: a Kalman filter, and a detector of changes on top of one.
//!
//! Measurements are floating point numbers; they pass through as values of the type `T`.

use vstd::prelude::*;
use crate::handle::{Address, At, Handle, NULL};
use crate::status::{generic_error, Result, SwitchBool, SwitchError, SWITCH_TRUE};

verus! {

/// Whether the core answered with its `true`, and with nothing else.
pub fn is_true(value: SwitchBool) -> (r: bool)
    ensures
        r == (value == SWITCH_TRUE),
{
    value == SWITCH_TRUE
}

/// A Kalman filter that smooths a noisy measurement.
#[derive(Debug)]
pub struct KalmanEstimator {
    raw: Handle,
}

impl At for KalmanEstimator {
    closed spec fn addr(&self) -> Address {
        self.raw.addr()
    }
}

impl KalmanEstimator {
    /// Sets up a filter in the zeroed storage at `raw`, for a process noise `q` and a measurement
    /// noise `r`. This cannot fail.
    pub fn new<T, F>(raw: Handle, q: T, r: T, call: F) -> (made: Result<KalmanEstimator>)
        where
            F: FnOnce(Address, T, T),
        requires
            call.requires((raw.addr(), q, r)),
        ensures
            call.ensures((raw.addr(), q, r), ()),
            made matches Ok(k) && k.addr() == raw.addr(),
    {
        call(raw.as_ptr(), q, r);
        Ok(KalmanEstimator { raw })
    }

    /// The filter's address, which is never null.
    pub fn as_ptr(&self) -> (r: Address)
        ensures
            r == self.addr(),
            r != NULL,
    {
        self.raw.as_ptr()
    }

    /// Takes one step with a measurement. Returns whether the core made an estimate.
    pub fn estimate<T, F>(&mut self, measurement: T, system_model: i32, call: F) -> (r: bool)
        where
            F: FnOnce(Address, T, i32) -> SwitchBool,
        requires
            call.requires((old(self).addr(), measurement, system_model)),
        ensures
            *final(self) == *old(self),
            exists|reply: SwitchBool| #[trigger]
                call.ensures((old(self).addr(), measurement, system_model), reply) && r == (reply
                    == SWITCH_TRUE),
    {
        is_true(call(self.as_ptr(), measurement, system_model))
    }

    /// The last estimate.
    pub fn estimate_value<T, F>(&self, call: F) -> (r: T)
        where
            F: FnOnce(Address) -> T,
        requires
            call.requires((self.addr(),)),
        ensures
            call.ensures((self.addr(),), r),
    {
        call(self.as_ptr())
    }

    /// The last measurement.
    pub fn measured_value<T, F>(&self, call: F) -> (r: T)
        where
            F: FnOnce(Address) -> T,
        requires
            call.requires((self.addr(),)),
        ensures
            call.ensures((self.addr(),), r),
    {
        call(self.as_ptr())
    }

    /// The process noise.
    pub fn q<T, F>(&self, call: F) -> (r: T)
        where
            F: FnOnce(Address) -> T,
        requires
            call.requires((self.addr(),)),
        ensures
            call.ensures((self.addr(),), r),
    {
        call(self.as_ptr())
    }

    /// The measurement noise.
    pub fn r<T, F>(&self, call: F) -> (r: T)
        where
            F: FnOnce(Address) -> T,
        requires
            call.requires((self.addr(),)),
        ensures
            call.ensures((self.addr(),), r),
    {
        call(self.as_ptr())
    }
}

/// A detector of changes.
#[derive(Debug)]
pub struct CusumDetector {
    raw: Handle,
}

impl At for CusumDetector {
    closed spec fn addr(&self) -> Address {
        self.raw.addr()
    }
}

impl CusumDetector {
    /// Sets up a detector in the zeroed storage at `raw`, for a least shift and a threshold.
    pub fn new<T, F>(raw: Handle, epsilon: T, h: T, call: F) -> (r: Result<CusumDetector>)
        where
            F: FnOnce(Address, T, T) -> SwitchBool,
        requires
            call.requires((raw.addr(), epsilon, h)),
        ensures
            exists|reply: SwitchBool| #[trigger]
                call.ensures((raw.addr(), epsilon, h), reply) && if reply == SWITCH_TRUE {
                    r matches Ok(d) && d.addr() == raw.addr()
                } else {
                    r == Err::<CusumDetector, SwitchError>(generic_error())
                },
    {
        if !is_true(call(raw.as_ptr(), epsilon, h)) {
            return Err(SwitchError::generic());
        }
        Ok(CusumDetector { raw })
    }

    /// The detector's address, which is never null.
    pub fn as_ptr(&self) -> (r: Address)
        ensures
            r == self.addr(),
            r != NULL,
    {
        self.raw.as_ptr()
    }

    /// Takes a measurement and the average round trip time. Returns whether a change was detected.
    pub fn detect_change<T, F>(&mut self, measurement: T, rtt_avg: T, call: F) -> (r: bool)
        where
            F: FnOnce(Address, T, T) -> SwitchBool,
        requires
            call.requires((old(self).addr(), measurement, rtt_avg)),
        ensures
            *final(self) == *old(self),
            exists|reply: SwitchBool| #[trigger]
                call.ensures((old(self).addr(), measurement, rtt_avg), reply) && r == (reply
                    == SWITCH_TRUE),
    {
        is_true(call(self.as_ptr(), measurement, rtt_avg))
    }

    /// The least shift.
    pub fn epsilon<T, F>(&self, call: F) -> (r: T)
        where
            F: FnOnce(Address) -> T,
        requires
            call.requires((self.addr(),)),
        ensures
            call.ensures((self.addr(),), r),
    {
        call(self.as_ptr())
    }

    /// The threshold.
    pub fn h<T, F>(&self, call: F) -> (r: T)
        where
            F: FnOnce(Address) -> T,
        requires
            call.requires((self.addr(),)),
        ensures
            call.ensures((self.addr(),), r),
    {
        call(self.as_ptr())
    }
}

/// Whether a link is slow, by what an estimator of loss and one of round trip times say.
pub fn is_slow_link<F>(est_loss: &KalmanEstimator, est_rtt: &KalmanEstimator, call: F) -> (r: bool)
    where
        F: FnOnce(Address, Address) -> SwitchBool,
    requires
        call.requires((est_loss.addr(), est_rtt.addr())),
    ensures
        exists|reply: SwitchBool| #[trigger]
            call.ensures((est_loss.addr(), est_rtt.addr()), reply) && r == (reply == SWITCH_TRUE),
{
    is_true(call(est_loss.as_ptr(), est_rtt.as_ptr()))
}

} // verus!
