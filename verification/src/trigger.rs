//! Trigger-wheel geometry and sensor kinds shared by every engine profile.

use vstd::prelude::*;

verus! {

/// Crank trigger wheel: evenly spaced tooth positions, some of them missing.
#[derive(Clone, Copy, Debug, PartialEq, Eq)]
pub struct TriggerWheel {
    /// Tooth positions around the wheel, counting the missing ones.
    pub teeth: u8,
    /// Positions without a tooth (the sync gap).
    pub missing: u8,
}

/// Electrical kind of a trigger sensor.
#[derive(Clone, Copy, Debug, PartialEq, Eq)]
pub enum TriggerInputKind {
    /// Variable-reluctance pickup (through the TLE8888 VR conditioner).
    Vr,
    /// Hall-effect sensor (logic-level output).
    Hall,
}

/// How an engine's crank and cam are sensed.
#[derive(Clone, Copy, Debug, PartialEq, Eq)]
pub struct TriggerSetup {
    pub crank_wheel: TriggerWheel,
    pub crank_input: TriggerInputKind,
    pub cam_input: TriggerInputKind,
    /// Whether the cam signal is needed to tell the two crank turns apart.
    pub cam_required: bool,
}

impl TriggerWheel {
    /// The common 12-1 wheel: twelve positions, one tooth missing.
    pub fn twelve_minus_one() -> (w: TriggerWheel)
        ensures
            w.teeth == 12,
            w.missing == 1,
    {
        TriggerWheel { teeth: 12, missing: 1 }
    }

    /// Physical teeth passing the sensor per revolution: the positions that
    /// carry a tooth (none when more positions are missing than exist).
    pub fn effective_edges_per_rev(&self) -> (r: u8)
        ensures
            r == if self.missing <= self.teeth {
                self.teeth - self.missing
            } else {
                0
            },
    {
        self.teeth.saturating_sub(self.missing)
    }
}

} // verus!
