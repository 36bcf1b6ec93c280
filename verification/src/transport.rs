//! The decisions of the serial transport: how a failed open is reported,
//! and when a read that gathers bytes until the line falls silent is over.
//!
//! Waiting on the device is the caller's part. After each wait it says how
//! the wait ended, and is told whether to wait again or what to report.

use crate::engine::{Event, EventData};
use crate::error::TransportError;
use vstd::prelude::*;

verus! {

/// Why a device could not be opened.
#[derive(Clone, Copy, Debug, PartialEq, Eq, Structural)]
pub enum OpenFailure {
    /// There is nothing at the path of the device.
    NotFound,
    /// The device is held by someone else or has gone.
    NoDevice,
    /// The device refuses a setting of the line.
    InvalidInput,
    /// Anything else.
    Other,
}

impl OpenFailure {
    /// The transport error that stands for this failure.
    pub open spec fn error_spec(self) -> TransportError {
        match self {
            OpenFailure::NotFound => TransportError::DeviceUnavailable,
            OpenFailure::NoDevice => TransportError::DeviceUnavailable,
            OpenFailure::InvalidInput => TransportError::InvalidConfig,
            OpenFailure::Other => TransportError::Io,
        }
    }

    /// The transport error that stands for this failure.
    #[verifier::when_used_as_spec(error_spec)]
    pub fn error(self) -> (error: TransportError)
        ensures
            error == self.error_spec(),
    {
        match self {
            OpenFailure::NotFound => TransportError::DeviceUnavailable,
            OpenFailure::NoDevice => TransportError::DeviceUnavailable,
            OpenFailure::InvalidInput => TransportError::InvalidConfig,
            OpenFailure::Other => TransportError::Io,
        }
    }
}

/// How one wait on the device ended.
#[derive(Clone, Debug, PartialEq, Eq)]
pub enum Wait {
    /// These bytes arrived.
    Bytes(Vec<u8>),
    /// The line stayed silent for the time that ends a frame.
    Silence,
    /// The deadline for the reply passed.
    Deadline,
    /// The device failed.
    Failed,
}

/// The mathematical value of a [`Wait`].
pub enum WaitData {
    /// These bytes arrived.
    Bytes(Seq<u8>),
    /// The line stayed silent for the time that ends a frame.
    Silence,
    /// The deadline for the reply passed.
    Deadline,
    /// The device failed.
    Failed,
}

impl View for Wait {
    type V = WaitData;

    open spec fn view(&self) -> WaitData {
        match self {
            Wait::Bytes(bytes) => WaitData::Bytes(bytes@),
            Wait::Silence => WaitData::Silence,
            Wait::Deadline => WaitData::Deadline,
            Wait::Failed => WaitData::Failed,
        }
    }
}

/// What it means when a wait ends with nothing having arrived.
#[derive(Clone, Copy, Debug, PartialEq, Eq, Structural)]
pub enum Expiry {
    /// The line stayed silent for the time that ends a frame.
    Silence,
    /// The deadline for the reply passed.
    Deadline,
}

/// How long to wait for bytes, and what it means when none arrive.
#[derive(Clone, Copy, Debug, PartialEq, Eq, Structural)]
pub struct WaitPlan {
    /// Microseconds to wait at most; 0 where there is nothing left to
    /// wait for.
    pub micros: u64,
    /// What the end of that time means.
    pub expiry: Expiry,
}

/// The next wait of a read with `remaining` microseconds to its deadline,
/// on a line where `gap` microseconds of silence end a frame: the gap
/// where it ends before the deadline, else what remains to the deadline.
pub open spec fn plan_wait_spec(remaining: u64, gap: u64) -> WaitPlan {
    if gap < remaining {
        WaitPlan { micros: gap, expiry: Expiry::Silence }
    } else {
        WaitPlan { micros: remaining, expiry: Expiry::Deadline }
    }
}

/// Plans the next wait of a read.
pub fn plan_wait(remaining_micros: u64, gap_micros: u64) -> (plan: WaitPlan)
    ensures
        plan == plan_wait_spec(remaining_micros, gap_micros),
        plan.micros <= remaining_micros,
{
    if gap_micros < remaining_micros {
        WaitPlan { micros: gap_micros, expiry: Expiry::Silence }
    } else {
        WaitPlan { micros: remaining_micros, expiry: Expiry::Deadline }
    }
}

impl WaitPlan {
    /// How a wait ends that was made to this plan and brought nothing.
    pub open spec fn expired_spec(self) -> WaitData {
        match self.expiry {
            Expiry::Silence => WaitData::Silence,
            Expiry::Deadline => WaitData::Deadline,
        }
    }

    /// How a wait ends that was made to this plan and brought nothing.
    pub fn expired(self) -> (wait: Wait)
        ensures
            wait@ == self.expired_spec(),
    {
        match self.expiry {
            Expiry::Silence => Wait::Silence,
            Expiry::Deadline => Wait::Deadline,
        }
    }
}

/// Whether a read goes on.
#[derive(Clone, Debug, PartialEq, Eq)]
pub enum ReadStep {
    /// Wait again, with these bytes gathered so far.
    Continue(Vec<u8>),
    /// The read is over; report this to the engine.
    Report(Event),
}

/// The mathematical value of a [`ReadStep`].
pub enum ReadStepData {
    /// Wait again, with these bytes gathered so far.
    Continue(Seq<u8>),
    /// The read is over; report this to the engine.
    Report(EventData),
}

impl View for ReadStep {
    type V = ReadStepData;

    open spec fn view(&self) -> ReadStepData {
        match self {
            ReadStep::Continue(gathered) => ReadStepData::Continue(gathered@),
            ReadStep::Report(event) => ReadStepData::Report(event@),
        }
    }
}

/// What follows a wait, given the bytes gathered before it.
///
/// Bytes that arrive are added to those gathered, and the read goes on.
/// A silence ends the read once there is at least one byte, and is waited
/// out before that. The deadline ends the read: with the bytes gathered
/// where there are any, however few, and with `Timeout` where there are
/// none. A failure of the device ends it with `Io`.
pub open spec fn after_wait_spec(gathered: Seq<u8>, wait: WaitData) -> ReadStepData {
    match wait {
        WaitData::Bytes(bytes) => ReadStepData::Continue(gathered + bytes),
        WaitData::Silence => if gathered.len() == 0 {
            ReadStepData::Continue(gathered)
        } else {
            ReadStepData::Report(EventData::Received(gathered))
        },
        WaitData::Deadline => if gathered.len() == 0 {
            ReadStepData::Report(EventData::ReadFailed(TransportError::Timeout))
        } else {
            ReadStepData::Report(EventData::Received(gathered))
        },
        WaitData::Failed => ReadStepData::Report(EventData::ReadFailed(TransportError::Io)),
    }
}

/// Decides what follows a wait, given the bytes gathered before it.
pub fn after_wait(gathered: Vec<u8>, wait: Wait) -> (step: ReadStep)
    ensures
        step@ == after_wait_spec(gathered@, wait@),
{
    let mut gathered = gathered;
    match wait {
        Wait::Bytes(bytes) => {
            let mut bytes = bytes;
            gathered.append(&mut bytes);
            ReadStep::Continue(gathered)
        },
        Wait::Silence => {
            if gathered.len() == 0 {
                ReadStep::Continue(gathered)
            } else {
                ReadStep::Report(Event::Received(gathered))
            }
        },
        Wait::Deadline => {
            if gathered.len() == 0 {
                ReadStep::Report(Event::ReadFailed(TransportError::Timeout))
            } else {
                ReadStep::Report(Event::Received(gathered))
            }
        },
        Wait::Failed => ReadStep::Report(Event::ReadFailed(TransportError::Io)),
    }
}

} // verus!
