use vstd::prelude::*;

verus! {

/// Phase of an object that is created, then initialized, then disposed.
#[derive(Copy, Clone, Eq, PartialEq, Debug, Structural)]
pub enum ObjectState {
    Created,
    Initialized,
    Disposed,
}

impl ObjectState {
    /// Position of the phase in the order in which phases are entered.
    pub open spec fn rank(self) -> int {
        match self {
            ObjectState::Created => 0,
            ObjectState::Initialized => 1,
            ObjectState::Disposed => 2,
        }
    }
}

} // verus!
