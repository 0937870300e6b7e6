//! Configuration types for a watch session and their load-boundary
//! validation.
//!
//! Loading bytes from disk and decoding them into these values is the
//! caller's business; the validation that makes a curve usable (at least one
//! breakpoint, strictly ascending temperatures) lives here, so that no
//! watch session can start on a malformed curve.

use vstd::prelude::*;

verus! {

use crate::curve::{CoOrdinates, curve_wf};

/// Interpolation policy of a fan curve.
#[derive(Clone, Copy, PartialEq, Eq, Structural, Debug)]
pub enum GraphType {
    Linear,
    Step,
}

/// Rejection at the configuration load boundary, before any control state
/// is built.
#[derive(Clone, Copy, PartialEq, Eq, Structural, Debug)]
pub enum ConfigError {
    /// The curve has no breakpoints at all.
    EmptyCurve,
    /// The breakpoint temperatures are not strictly ascending.
    TempsNotAscending,
}

/// One cooling zone: its sensor, its fan, and the curve that maps the
/// sensor's temperature to a fan boost.
#[derive(Clone, Debug)]
pub struct DeviceInfo {
    pub graph_type: GraphType,
    pub graph: Vec<CoOrdinates>,
    pub sensor: u8,
    pub fan: u8,
}

impl DeviceInfo {
    /// A zone is usable when its curve is: nonempty, strictly ascending.
    pub open spec fn wf(&self) -> bool {
        curve_wf(self.graph@)
    }

    /// Builds a zone description, rejecting any curve that is empty or whose
    /// temperatures are not strictly ascending. Succeeds exactly on
    /// well-formed curves.
    pub fn new(graph_type: GraphType, graph: Vec<CoOrdinates>, sensor: u8, fan: u8) -> (r: Result<
        DeviceInfo,
        ConfigError,
    >)
        ensures
            match r {
                Ok(d) => {
                    &&& curve_wf(graph@)
                    &&& d.graph_type == graph_type
                    &&& d.graph@ == graph@
                    &&& d.sensor == sensor
                    &&& d.fan == fan
                },
                Err(e) => {
                    &&& !curve_wf(graph@)
                    &&& e == (if graph@.len() == 0 {
                        ConfigError::EmptyCurve
                    } else {
                        ConfigError::TempsNotAscending
                    })
                },
            },
    {
        if graph.len() == 0 {
            return Err(ConfigError::EmptyCurve);
        }
        let n = graph.len();
        let mut i: usize = 0;
        while i + 1 < n
            invariant
                n == graph@.len(),
                i < n,
                forall|k: int| 0 <= k < i ==> (#[trigger] graph@[k].temp) < graph@[k + 1].temp,
            decreases graph@.len() - i,
        {
            if graph[i].temp >= graph[i + 1].temp {
                proof {
                    assert(graph@[i as int].temp >= graph@[i as int + 1].temp);
                }
                return Err(ConfigError::TempsNotAscending);
            }
            i = i + 1;
        }
        Ok(DeviceInfo { graph_type, graph, sensor, fan })
    }
}

/// A full watch-session configuration: two zones, the poll interval in
/// seconds, and whether performance mode is to be left on startup.
#[derive(Clone, Debug)]
pub struct AwcConfig {
    pub disable_power_mode_on_startup: bool,
    pub cpu: DeviceInfo,
    pub gpu: DeviceInfo,
    pub interval: u64,
}

impl AwcConfig {
    /// Both zones carry usable curves.
    pub open spec fn wf(&self) -> bool {
        self.cpu.wf() && self.gpu.wf()
    }

    /// Aggregates already-validated zone descriptions into a session
    /// configuration.
    pub fn new(
        disable_power_mode_on_startup: bool,
        cpu: DeviceInfo,
        gpu: DeviceInfo,
        interval: u64,
    ) -> (r: AwcConfig)
        ensures
            r == (AwcConfig { disable_power_mode_on_startup, cpu, gpu, interval }),
    {
        AwcConfig { disable_power_mode_on_startup, cpu, gpu, interval }
    }
}

} // verus!
