//! Wire values of the load and run state machines.

use vstd::prelude::*;
use vstd::std_specs::convert::FromSpecImpl;

verus! {

/// State of a load state machine.
#[derive(Debug, Clone, Copy, PartialEq, Eq, Structural)]
pub enum LoadState {
    Unloaded,
    Loaded,
    Loading,
    Error,
}

impl LoadState {
    /// The octet that encodes this state.
    pub open spec fn code(self) -> u8 {
        match self {
            LoadState::Unloaded => 0,
            LoadState::Loaded => 1,
            LoadState::Loading => 2,
            LoadState::Error => 3,
        }
    }

    /// The octet that encodes this state.
    pub fn to_byte(self) -> (r: u8)
        ensures
            r == self.code(),
    {
        match self {
            LoadState::Unloaded => 0,
            LoadState::Loaded => 1,
            LoadState::Loading => 2,
            LoadState::Error => 3,
        }
    }

    /// The state an octet encodes, if any.
    pub fn from_byte(b: u8) -> (r: Option<LoadState>)
        ensures
            r matches Some(s) ==> s.code() == b,
            r is None <==> b > 3,
    {
        match b {
            0 => Some(LoadState::Unloaded),
            1 => Some(LoadState::Loaded),
            2 => Some(LoadState::Loading),
            3 => Some(LoadState::Error),
            _ => None,
        }
    }
}

impl From<LoadState> for u8 {
    fn from(v: LoadState) -> (r: u8) {
        v.to_byte()
    }
}

impl FromSpecImpl<LoadState> for u8 {
    open spec fn obeys_from_spec() -> bool {
        true
    }

    open spec fn from_spec(v: LoadState) -> u8 {
        v.code()
    }
}

/// Event of a load state machine, as written to its control property.
#[derive(Debug, Clone, Copy, PartialEq, Eq, Structural)]
pub enum LoadEvent {
    NoOp,
    StartLoading,
    LoadCompleted,
    AdditionalLoadControls,
    Unload,
    /// Any other octet: an unknown event.
    Other(u8),
}

impl LoadEvent {
    /// The event an octet encodes.
    pub open spec fn decode(b: u8) -> LoadEvent {
        if b == 0 {
            LoadEvent::NoOp
        } else if b == 1 {
            LoadEvent::StartLoading
        } else if b == 2 {
            LoadEvent::LoadCompleted
        } else if b == 3 {
            LoadEvent::AdditionalLoadControls
        } else if b == 4 {
            LoadEvent::Unload
        } else {
            LoadEvent::Other(b)
        }
    }

    /// The octet that encodes this event.
    pub open spec fn code(self) -> u8 {
        match self {
            LoadEvent::NoOp => 0,
            LoadEvent::StartLoading => 1,
            LoadEvent::LoadCompleted => 2,
            LoadEvent::AdditionalLoadControls => 3,
            LoadEvent::Unload => 4,
            LoadEvent::Other(b) => b,
        }
    }

    /// The event an octet encodes.
    pub fn from_byte(b: u8) -> (r: LoadEvent)
        ensures
            r == LoadEvent::decode(b),
    {
        match b {
            0 => LoadEvent::NoOp,
            1 => LoadEvent::StartLoading,
            2 => LoadEvent::LoadCompleted,
            3 => LoadEvent::AdditionalLoadControls,
            4 => LoadEvent::Unload,
            _ => LoadEvent::Other(b),
        }
    }

    /// The octet that encodes this event.
    pub fn to_byte(self) -> (r: u8)
        ensures
            r == self.code(),
    {
        match self {
            LoadEvent::NoOp => 0,
            LoadEvent::StartLoading => 1,
            LoadEvent::LoadCompleted => 2,
            LoadEvent::AdditionalLoadControls => 3,
            LoadEvent::Unload => 4,
            LoadEvent::Other(b) => b,
        }
    }
}

impl From<u8> for LoadEvent {
    fn from(b: u8) -> (r: LoadEvent) {
        LoadEvent::from_byte(b)
    }
}

impl FromSpecImpl<u8> for LoadEvent {
    open spec fn obeys_from_spec() -> bool {
        true
    }

    open spec fn from_spec(v: u8) -> LoadEvent {
        LoadEvent::decode(v)
    }
}

impl From<LoadEvent> for u8 {
    fn from(v: LoadEvent) -> (r: u8) {
        v.to_byte()
    }
}

impl FromSpecImpl<LoadEvent> for u8 {
    open spec fn obeys_from_spec() -> bool {
        true
    }

    open spec fn from_spec(v: LoadEvent) -> u8 {
        v.code()
    }
}

/// State of a run state machine.
#[derive(Debug, Clone, Copy, PartialEq, Eq, Structural)]
pub enum RunState {
    Halted,
    Running,
    Ready,
    Terminated,
}

impl RunState {
    /// The octet that encodes this state.
    pub open spec fn code(self) -> u8 {
        match self {
            RunState::Halted => 0,
            RunState::Running => 1,
            RunState::Ready => 2,
            RunState::Terminated => 3,
        }
    }

    /// The octet that encodes this state.
    pub fn to_byte(self) -> (r: u8)
        ensures
            r == self.code(),
    {
        match self {
            RunState::Halted => 0,
            RunState::Running => 1,
            RunState::Ready => 2,
            RunState::Terminated => 3,
        }
    }
}

impl From<RunState> for u8 {
    fn from(v: RunState) -> (r: u8) {
        v.to_byte()
    }
}

impl FromSpecImpl<RunState> for u8 {
    open spec fn obeys_from_spec() -> bool {
        true
    }

    open spec fn from_spec(v: RunState) -> u8 {
        v.code()
    }
}

/// Event of a run state machine: the three that can be written to the run
/// control property (`Ready` is the no-op) and the internal ones raised by
/// the load state machine and the run-condition check.
#[derive(Debug, Clone, Copy, PartialEq, Eq, Structural)]
pub enum RunEvent {
    Ready,
    Restart,
    Stop,
    Loaded,
    Unloaded,
    ReadyToRun,
    /// Any other octet: an unknown event.
    Other(u8),
}

impl RunEvent {
    /// The event an octet encodes.
    pub open spec fn decode(b: u8) -> RunEvent {
        if b == 0 {
            RunEvent::Ready
        } else if b == 1 {
            RunEvent::Restart
        } else if b == 2 {
            RunEvent::Stop
        } else if b == 3 {
            RunEvent::Loaded
        } else if b == 4 {
            RunEvent::Unloaded
        } else if b == 5 {
            RunEvent::ReadyToRun
        } else {
            RunEvent::Other(b)
        }
    }

    /// The octet that encodes this event.
    pub open spec fn code(self) -> u8 {
        match self {
            RunEvent::Ready => 0,
            RunEvent::Restart => 1,
            RunEvent::Stop => 2,
            RunEvent::Loaded => 3,
            RunEvent::Unloaded => 4,
            RunEvent::ReadyToRun => 5,
            RunEvent::Other(b) => b,
        }
    }

    /// The event an octet encodes.
    pub fn from_byte(b: u8) -> (r: RunEvent)
        ensures
            r == RunEvent::decode(b),
    {
        match b {
            0 => RunEvent::Ready,
            1 => RunEvent::Restart,
            2 => RunEvent::Stop,
            3 => RunEvent::Loaded,
            4 => RunEvent::Unloaded,
            5 => RunEvent::ReadyToRun,
            _ => RunEvent::Other(b),
        }
    }

    /// The octet that encodes this event.
    pub fn to_byte(self) -> (r: u8)
        ensures
            r == self.code(),
    {
        match self {
            RunEvent::Ready => 0,
            RunEvent::Restart => 1,
            RunEvent::Stop => 2,
            RunEvent::Loaded => 3,
            RunEvent::Unloaded => 4,
            RunEvent::ReadyToRun => 5,
            RunEvent::Other(b) => b,
        }
    }
}

impl From<u8> for RunEvent {
    fn from(b: u8) -> (r: RunEvent) {
        RunEvent::from_byte(b)
    }
}

impl FromSpecImpl<u8> for RunEvent {
    open spec fn obeys_from_spec() -> bool {
        true
    }

    open spec fn from_spec(v: u8) -> RunEvent {
        RunEvent::decode(v)
    }
}

impl From<RunEvent> for u8 {
    fn from(v: RunEvent) -> (r: u8) {
        v.to_byte()
    }
}

impl FromSpecImpl<RunEvent> for u8 {
    open spec fn obeys_from_spec() -> bool {
        true
    }

    open spec fn from_spec(v: RunEvent) -> u8 {
        v.code()
    }
}

/// Segment type of an `AdditionalLoadControls` allocation record.
#[derive(Debug, Clone, Copy, PartialEq, Eq, Structural)]
pub enum LoadSegment {
    AbsoluteData,
    AbsoluteStack,
    AbsoluteTask,
    AbsolutePointer,
    TaskCtrl1,
    TaskCtrl2,
    RelativeData,
    /// Any other octet: an unknown segment type.
    Other(u8),
}

impl LoadSegment {
    /// The segment type an octet encodes.
    pub open spec fn decode(b: u8) -> LoadSegment {
        if b == 0 {
            LoadSegment::AbsoluteData
        } else if b == 1 {
            LoadSegment::AbsoluteStack
        } else if b == 2 {
            LoadSegment::AbsoluteTask
        } else if b == 3 {
            LoadSegment::AbsolutePointer
        } else if b == 4 {
            LoadSegment::TaskCtrl1
        } else if b == 5 {
            LoadSegment::TaskCtrl2
        } else if b == 0x0B {
            LoadSegment::RelativeData
        } else {
            LoadSegment::Other(b)
        }
    }

    /// The segment type an octet encodes.
    pub fn from_byte(b: u8) -> (r: LoadSegment)
        ensures
            r == LoadSegment::decode(b),
    {
        match b {
            0 => LoadSegment::AbsoluteData,
            1 => LoadSegment::AbsoluteStack,
            2 => LoadSegment::AbsoluteTask,
            3 => LoadSegment::AbsolutePointer,
            4 => LoadSegment::TaskCtrl1,
            5 => LoadSegment::TaskCtrl2,
            0x0B => LoadSegment::RelativeData,
            _ => LoadSegment::Other(b),
        }
    }
}

impl From<u8> for LoadSegment {
    fn from(b: u8) -> (r: LoadSegment) {
        LoadSegment::from_byte(b)
    }
}

impl FromSpecImpl<u8> for LoadSegment {
    open spec fn obeys_from_spec() -> bool {
        true
    }

    open spec fn from_spec(v: u8) -> LoadSegment {
        LoadSegment::decode(v)
    }
}

} // verus!
