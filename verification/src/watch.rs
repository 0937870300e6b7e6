//! The watch loop's state machine: its states, the external command
//! signals, the single-slot command mailbox, and the controller that owns
//! the zones.
//!
//! The loop itself — sleeping in short slices, performing hardware
//! transactions, printing status — runs outside this crate; every decision
//! it takes is a function here. The mailbox has, by design, overwrite
//! semantics rather than queue semantics: a writer that posts a new command
//! before the worker consumes the previous one silently discards the
//! previous one.

use vstd::prelude::*;

verus! {

use crate::config::AwcConfig;
use crate::device::{AwcDeviceInfo, LastFanRPMRecorded};

/// One external control request for the watch loop. A fresh or drained
/// slot holds `NoCommand`.
#[derive(Clone, Copy, PartialEq, Eq, Structural, Debug)]
pub enum CommandSignal {
    NoCommand,
    Stop,
    ToggleMode,
    ShowStatus,
    ForceIdleBoost,
    WakeNow,
}

/// The state of one watch session.
#[derive(Clone, Copy, PartialEq, Eq, Structural, Debug)]
pub enum WatchState {
    /// Power mode normal: curves are evaluated each tick.
    Polling,
    /// Performance mode active: the firmware owns fan control, the loop
    /// only listens for commands.
    Suspended,
    /// Terminal.
    Stopped,
}

/// What the loop must do in reaction to a consumed command.
#[derive(Clone, Copy, PartialEq, Eq, Structural, Debug)]
pub enum WatchAction {
    DoNothing,
    /// Write boost 0 to every zone's fan.
    ZeroAllFans,
    /// Flip the hardware power-mode register.
    TogglePower,
    /// Re-read and print every zone's status, mutating nothing.
    ShowZoneStatus,
    /// Abandon the rest of the current sleep and poll immediately.
    EndSleep,
}

/// How the integer slot value written by the external command source is
/// decoded; any unknown value is no command.
pub open spec fn spec_signal_from_value(v: i64) -> CommandSignal {
    if v == -1 {
        CommandSignal::Stop
    } else if v == 1 {
        CommandSignal::ToggleMode
    } else if v == 2 {
        CommandSignal::ShowStatus
    } else if v == 3 {
        CommandSignal::ForceIdleBoost
    } else if v == 4 {
        CommandSignal::WakeNow
    } else {
        CommandSignal::NoCommand
    }
}

/// Decodes the integer slot value written by the external command source.
pub fn signal_from_value(v: i64) -> (s: CommandSignal)
    ensures
        s == spec_signal_from_value(v),
{
    if v == -1 {
        CommandSignal::Stop
    } else if v == 1 {
        CommandSignal::ToggleMode
    } else if v == 2 {
        CommandSignal::ShowStatus
    } else if v == 3 {
        CommandSignal::ForceIdleBoost
    } else if v == 4 {
        CommandSignal::WakeNow
    } else {
        CommandSignal::NoCommand
    }
}

/// The single-slot command mailbox. Overwritten, not queued: if two
/// commands arrive before the worker consumes the slot, only the most
/// recent is observed.
pub struct SignalSlot {
    pub slot: CommandSignal,
}

impl SignalSlot {
    /// The slot after a writer posts `sig`: whatever was pending is gone.
    pub open spec fn posted(self, sig: CommandSignal) -> SignalSlot {
        SignalSlot { slot: sig }
    }

    /// What a take returns, and the drained slot it leaves behind.
    pub open spec fn taken(self) -> (CommandSignal, SignalSlot) {
        (self.slot, SignalSlot { slot: CommandSignal::NoCommand })
    }

    /// An empty mailbox.
    pub fn new() -> (r: SignalSlot)
        ensures
            r.slot == CommandSignal::NoCommand,
    {
        SignalSlot { slot: CommandSignal::NoCommand }
    }

    /// Overwrites the slot, discarding any unconsumed command.
    pub fn post(&mut self, sig: CommandSignal)
        ensures
            *final(self) == old(self).posted(sig),
    {
        self.slot = sig;
    }

    /// Consumes the slot: returns the pending command and clears the slot
    /// to `NoCommand` (at-most-once delivery per post).
    pub fn take(&mut self) -> (r: CommandSignal)
        ensures
            r == old(self).taken().0,
            *final(self) == old(self).taken().1,
    {
        let r = self.slot;
        self.slot = CommandSignal::NoCommand;
        r
    }
}

/// Overwrite, not queue: when two commands are posted before the worker
/// takes, exactly one command is observed — the later one; a further take
/// finds the slot drained.
pub proof fn lemma_signal_overwrite(m: SignalSlot, first: CommandSignal, second: CommandSignal)
    ensures
        m.posted(first).posted(second).taken().0 == second,
        first != second ==> m.posted(first).posted(second).taken().0 != first,
        m.posted(first).posted(second).taken().1.taken().0 == CommandSignal::NoCommand,
{
}

/// The transition table of the watch loop, keyed by the consumed command:
/// the next state and the action the loop owes before continuing.
pub open spec fn spec_transition(state: WatchState, sig: CommandSignal) -> (WatchState,
    WatchAction) {
    match sig {
        CommandSignal::NoCommand => (state, WatchAction::DoNothing),
        CommandSignal::Stop => (
            WatchState::Stopped,
            if state == WatchState::Polling {
                WatchAction::ZeroAllFans
            } else {
                WatchAction::TogglePower
            },
        ),
        CommandSignal::ToggleMode => (
            if state == WatchState::Polling {
                WatchState::Suspended
            } else {
                WatchState::Polling
            },
            WatchAction::TogglePower,
        ),
        CommandSignal::ShowStatus => (state, WatchAction::ShowZoneStatus),
        CommandSignal::ForceIdleBoost => (
            state,
            if state == WatchState::Polling {
                WatchAction::ZeroAllFans
            } else {
                WatchAction::DoNothing
            },
        ),
        CommandSignal::WakeNow => (state, WatchAction::EndSleep),
    }
}

/// Whether zones are polled in a state: only while `Polling`; while
/// `Suspended` the loop issues no fan-speed writes.
pub open spec fn spec_polls(state: WatchState) -> bool {
    state == WatchState::Polling
}

/// The state machine step of the watch loop, on a live (non-terminal)
/// state and the command just consumed from the mailbox.
pub fn handle_signal(state: WatchState, sig: CommandSignal) -> (r: (WatchState, WatchAction))
    requires
        state != WatchState::Stopped,
    ensures
        r == spec_transition(state, sig),
{
    match sig {
        CommandSignal::NoCommand => (state, WatchAction::DoNothing),
        CommandSignal::Stop => {
            if state == WatchState::Polling {
                (WatchState::Stopped, WatchAction::ZeroAllFans)
            } else {
                (WatchState::Stopped, WatchAction::TogglePower)
            }
        },
        CommandSignal::ToggleMode => {
            if state == WatchState::Polling {
                (WatchState::Suspended, WatchAction::TogglePower)
            } else {
                (WatchState::Polling, WatchAction::TogglePower)
            }
        },
        CommandSignal::ShowStatus => (state, WatchAction::ShowZoneStatus),
        CommandSignal::ForceIdleBoost => {
            if state == WatchState::Polling {
                (state, WatchAction::ZeroAllFans)
            } else {
                (state, WatchAction::DoNothing)
            }
        },
        CommandSignal::WakeNow => (state, WatchAction::EndSleep),
    }
}

/// Whether the current tick may poll zones at all.
pub fn tick_polls(state: WatchState) -> (r: bool)
    ensures
        r == spec_polls(state),
{
    state == WatchState::Polling
}

/// A power-mode toggle while `Polling` suspends the loop: the next tick
/// polls no zone (so no fan-speed write is issued), until a further toggle
/// returns the loop to `Polling`.
pub proof fn lemma_toggle_suspends()
    ensures
        spec_transition(WatchState::Polling, CommandSignal::ToggleMode).0 == WatchState::Suspended,
        !spec_polls(WatchState::Suspended),
        spec_transition(WatchState::Suspended, CommandSignal::ToggleMode).0 == WatchState::Polling,
{
}

/// Chooses the byte a power-mode toggle writes to the register: the
/// performance sentinel when the register currently reads 0 (normal), 0
/// otherwise. The flip is based on the value read fresh from hardware, not
/// on any cache.
pub fn toggle_power_decision(current: i64) -> (w: u8)
    ensures
        w == (if current == 0 {
            0xab as u8
        } else {
            0 as u8
        }),
{
    if current == 0 {
        0xab
    } else {
        0
    }
}

/// The controller of one watch session: the cached power mode, both zones'
/// control state, and the poll interval in seconds.
pub struct AwcController {
    pub power_mode: u8,
    pub cpu: AwcDeviceInfo,
    pub gpu: AwcDeviceInfo,
    pub interval: u64,
}

impl AwcController {
    /// Both zones carry usable curves.
    pub open spec fn wf(&self) -> bool {
        self.cpu.wf() && self.gpu.wf()
    }

    /// The watch state implied by the cached power mode.
    pub open spec fn state(&self) -> WatchState {
        if self.power_mode == 0 {
            WatchState::Polling
        } else {
            WatchState::Suspended
        }
    }

    /// Builds the session controller from the configuration and the power
    /// mode, boosts and speeds read from hardware at session start.
    pub fn new(
        config: AwcConfig,
        power_mode: u8,
        cpu_boost: u8,
        cpu_rpm: i64,
        gpu_boost: u8,
        gpu_rpm: i64,
        now: u64,
    ) -> (r: AwcController)
        ensures
            r.power_mode == power_mode,
            r.interval == config.interval,
            r.cpu.device == config.cpu,
            r.cpu.last_fan_boost == cpu_boost,
            r.cpu.last_fan_rpm == (LastFanRPMRecorded { rpm: cpu_rpm, ts: now }),
            r.gpu.device == config.gpu,
            r.gpu.last_fan_boost == gpu_boost,
            r.gpu.last_fan_rpm == (LastFanRPMRecorded { rpm: gpu_rpm, ts: now }),
    {
        let interval = config.interval;
        AwcController {
            power_mode,
            cpu: AwcDeviceInfo::new(config.cpu, cpu_boost, cpu_rpm, now),
            gpu: AwcDeviceInfo::new(config.gpu, gpu_boost, gpu_rpm, now),
            interval,
        }
    }

    /// Applies a power-mode toggle to the cache: returns the byte the
    /// caller owes the register (chosen from the fresh hardware value) and
    /// remembers it as the current mode.
    pub fn toggle_mode(&mut self, current: i64) -> (w: u8)
        ensures
            w == (if current == 0 {
                0xab as u8
            } else {
                0 as u8
            }),
            final(self).power_mode == w,
            final(self).cpu == old(self).cpu,
            final(self).gpu == old(self).gpu,
            final(self).interval == old(self).interval,
    {
        let w = toggle_power_decision(current);
        self.power_mode = w;
        w
    }

    /// The watch state implied by the cached power mode.
    pub fn watch_state(&self) -> (s: WatchState)
        ensures
            s == self.state(),
    {
        if self.power_mode == 0 {
            WatchState::Polling
        } else {
            WatchState::Suspended
        }
    }
}

} // verus!
