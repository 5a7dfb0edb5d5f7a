use vstd::prelude::*;
use crate::vector::Vec2i;

verus! {

/// An invitation to spawn beside a specific player's boat.
#[derive(Clone, Copy, PartialEq, Eq, Structural, Debug)]
pub struct Invitation {
    pub player_id: u32,
}

/// The client's preferred aspect ratio, in thousandths.
#[derive(Clone, Copy, PartialEq, Eq, Structural, Debug)]
pub struct HintState {
    pub aspect: i64,
}

/// Transient per-tick flags.
#[derive(Clone, Copy, PartialEq, Eq, Structural, Debug)]
pub struct Flags {
    pub upgraded: bool,
}

/// The per-connection status state machine.
#[derive(Clone, Copy, PartialEq, Eq, Structural, Debug)]
pub enum Status {
    /// Not yet alive; no controlled entity.
    Spawning,
    /// Controls exactly one live entity; the aim target, when present,
    /// is a sanitized world-space point.
    Alive { entity_index: usize, aim_target: Option<Vec2i> },
    /// Records the cause, place and time of the most recent death.
    Dead { by_player: bool, position: Vec2i, time: u64 },
}

/// One connected player's record.
#[derive(Clone, Copy, PartialEq, Eq, Structural, Debug)]
pub struct Player {
    pub player_id: u32,
    pub team_id: Option<u32>,
    pub invitation: Option<Invitation>,
    pub score: u32,
    pub bot: bool,
    pub hint: HintState,
    pub flags: Flags,
    pub status: Status,
}

impl Player {
    pub open spec fn is_alive(self) -> bool {
        self.status is Alive
    }

    /// The controlled entity's index; meaningful only while alive.
    pub open spec fn alive_index(self) -> int {
        self.status->entity_index as int
    }
}

} // verus!
