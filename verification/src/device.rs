//! Per-zone control state and the decisions of one poll step.
//!
//! A poll step reads the fan speed, may zero-pulse a stuck fan, records when
//! the observed speed last changed, reads the temperature, evaluates the
//! curve, and writes the target boost only when it differs from the last
//! applied one. The hardware reads and writes themselves are the caller's
//! business; the decisions are taken here, on the observed plain values.

use vstd::prelude::*;

verus! {

use crate::config::DeviceInfo;
use crate::curve::{curve_eval, evaluate, lemma_boost_range_u8, lemma_evaluate_in_range};

/// The last fan speed seen and the moment (in seconds) it was last seen to
/// change; a "last changed" marker for stuck-fan detection, not a cache of
/// the current speed.
#[derive(Clone, Copy, PartialEq, Eq, Structural, Debug)]
pub struct LastFanRPMRecorded {
    pub rpm: i64,
    pub ts: u64,
}

/// Mutable control state of one zone for the lifetime of a watch session:
/// the zone's configuration, the last boost applied to its fan, and the
/// last speed observation.
pub struct AwcDeviceInfo {
    pub last_fan_boost: u8,
    pub last_fan_rpm: LastFanRPMRecorded,
    pub device: DeviceInfo,
}

impl AwcDeviceInfo {
    /// The zone's curve is usable.
    pub open spec fn wf(&self) -> bool {
        self.device.wf()
    }

    /// The target boost the zone's curve assigns to a temperature.
    pub open spec fn boost_target(&self, temp: u8) -> int {
        curve_eval(self.device.graph_type, self.device.graph@, temp)
    }

    /// Whether a poll step must zero-pulse the fan: the applied boost or the
    /// observed speed is nonzero, the observed speed equals the recorded
    /// observation, and that observation is older than three poll
    /// intervals. Never when applied boost and observed speed are both
    /// already zero.
    pub open spec fn recovery_needed(&self, rpm: i64, now: u64, interval: u64) -> bool {
        &&& !(rpm == 0 && self.last_fan_boost == 0)
        &&& rpm == self.last_fan_rpm.rpm
        &&& now - self.last_fan_rpm.ts > 3 * interval
    }

    /// The control state after the boost decision of a poll at `temp`.
    pub open spec fn after_boost_decision(self, temp: u8) -> AwcDeviceInfo {
        AwcDeviceInfo { last_fan_boost: self.boost_target(temp) as u8, ..self }
    }

    /// Builds the zone's control state from the boost and speed read from
    /// hardware at watch-session start.
    pub fn new(device: DeviceInfo, initial_boost: u8, initial_rpm: i64, now: u64) -> (r:
        AwcDeviceInfo)
        ensures
            r.device == device,
            r.last_fan_boost == initial_boost,
            r.last_fan_rpm == (LastFanRPMRecorded { rpm: initial_rpm, ts: now }),
    {
        AwcDeviceInfo {
            last_fan_boost: initial_boost,
            last_fan_rpm: LastFanRPMRecorded { rpm: initial_rpm, ts: now },
            device,
        }
    }

    /// The stuck-fan test of a poll step, on the speed just read and the
    /// current time in seconds.
    pub fn needs_recovery(&self, rpm: i64, now: u64, interval: u64) -> (r: bool)
        ensures
            r == self.recovery_needed(rpm, now, interval),
    {
        if rpm == 0 && self.last_fan_boost == 0 {
            false
        } else if rpm != self.last_fan_rpm.rpm {
            false
        } else if now < self.last_fan_rpm.ts {
            false
        } else {
            (now - self.last_fan_rpm.ts) as u128 > 3u128 * (interval as u128)
        }
    }

    /// Records an observation: the timestamp moves only when the observed
    /// speed actually changed (it marks "last changed", not "last polled").
    pub fn record_rpm(&mut self, rpm: i64, now: u64)
        ensures
            final(self).device == old(self).device,
            final(self).last_fan_boost == old(self).last_fan_boost,
            rpm != old(self).last_fan_rpm.rpm ==> final(self).last_fan_rpm == (LastFanRPMRecorded {
                rpm,
                ts: now,
            }),
            rpm == old(self).last_fan_rpm.rpm ==> final(self).last_fan_rpm == old(
                self,
            ).last_fan_rpm,
    {
        if rpm != self.last_fan_rpm.rpm {
            self.last_fan_rpm = LastFanRPMRecorded { rpm, ts: now };
        }
    }

    /// The boost decision of a poll step: evaluates the curve at the
    /// observed temperature and returns the write the caller owes the
    /// hardware — `Some(target)` exactly when the target differs from the
    /// last applied boost, `None` when the fan already runs at the target.
    pub fn decide_boost(&mut self, temp: u8) -> (r: Option<u8>)
        requires
            old(self).wf(),
        ensures
            *final(self) == old(self).after_boost_decision(temp),
            final(self).last_fan_boost == old(self).boost_target(temp),
            r == (if old(self).boost_target(temp) == old(self).last_fan_boost {
                Option::<u8>::None
            } else {
                Option::Some(old(self).boost_target(temp) as u8)
            }),
    {
        proof {
            lemma_evaluate_in_range(self.device.graph_type, self.device.graph@, temp);
            lemma_boost_range_u8(self.device.graph@);
        }
        let target = evaluate(self.device.graph_type, &self.device.graph, temp);
        if target != self.last_fan_boost {
            self.last_fan_boost = target;
            Some(target)
        } else {
            None
        }
    }
}

/// Polling a zone twice in immediate succession with an unchanged
/// temperature performs no second hardware write: after the boost decision
/// of one poll, the target already equals the applied boost, so the next
/// decision at the same temperature is `None` and changes nothing.
pub proof fn lemma_poll_idempotent(d: AwcDeviceInfo, temp: u8)
    requires
        d.wf(),
    ensures
        d.after_boost_decision(temp).boost_target(temp) == d.after_boost_decision(
            temp,
        ).last_fan_boost,
        d.after_boost_decision(temp).after_boost_decision(temp) == d.after_boost_decision(temp),
{
    lemma_evaluate_in_range(d.device.graph_type, d.device.graph@, temp);
    lemma_boost_range_u8(d.device.graph@);
}

} // verus!
