//! One transaction at a time: the decisions between a request and its
//! outcome, as a function from state and input to next state and action.
//!
//! The caller owns the serial device. It performs each action and reports
//! what came of it; the engine never touches the device itself.

use crate::codec::{
    answers, decode_response, decode_response_spec, encode_request, encode_request_spec,
};
use crate::error::{ModbusError, TransportError};
use crate::request::ReadRequest;
use crate::response::{ReadData, ReadResponse};
use vstd::prelude::*;

verus! {

/// Where the bus stands.
#[derive(Clone, Copy, Debug, PartialEq, Eq, Structural)]
pub enum Transaction {
    /// Nothing is outstanding; a request may begin.
    Idle,
    /// The frame of this request has been handed out for writing.
    Sending(ReadRequest),
    /// The frame of this request is on the wire and its reply is awaited.
    Receiving(ReadRequest),
}

impl Transaction {
    /// The outstanding request, if there is one, is valid.
    pub open spec fn wf(self) -> bool {
        match self {
            Transaction::Idle => true,
            Transaction::Sending(request) => request.valid(),
            Transaction::Receiving(request) => request.valid(),
        }
    }
}

/// What the transport reports after an action.
#[derive(Clone, Debug, PartialEq, Eq)]
pub enum Event {
    /// The whole frame was written.
    Written,
    /// Writing failed.
    WriteFailed(TransportError),
    /// Reading ended, at a silence on the line or at the deadline, with
    /// these bytes; none at all where the device stayed silent.
    Received(Vec<u8>),
    /// Reading failed.
    ReadFailed(TransportError),
}

/// The mathematical value of an [`Event`].
pub enum EventData {
    /// The whole frame was written.
    Written,
    /// Writing failed.
    WriteFailed(TransportError),
    /// Reading ended with these bytes.
    Received(Seq<u8>),
    /// Reading failed.
    ReadFailed(TransportError),
}

impl View for Event {
    type V = EventData;

    open spec fn view(&self) -> EventData {
        match self {
            Event::Written => EventData::Written,
            Event::WriteFailed(e) => EventData::WriteFailed(*e),
            Event::Received(bytes) => EventData::Received(bytes@),
            Event::ReadFailed(e) => EventData::ReadFailed(*e),
        }
    }
}

/// What the caller is to do next.
#[derive(Debug, PartialEq, Eq)]
pub enum Action {
    /// Write these bytes to the device, all of them.
    Write(Vec<u8>),
    /// Read from the device until the line falls silent or the deadline
    /// passes.
    Read,
    /// The transaction is over, with this outcome.
    Finish(Result<ReadResponse, ModbusError>),
    /// The input does not fit the state: a request while another is
    /// outstanding, or a report of something that was not asked for.
    /// Nothing has changed and nothing is to be done.
    Refuse,
}

/// The mathematical value of an [`Action`].
pub enum ActionData {
    /// Write these bytes.
    Write(Seq<u8>),
    /// Read a reply.
    Read,
    /// The transaction is over, with this outcome.
    Finish(Result<ReadData, ModbusError>),
    /// The input does not fit the state.
    Refuse,
}

/// An outcome as mathematical values.
pub open spec fn outcome_view(outcome: Result<ReadResponse, ModbusError>) -> Result<
    ReadData,
    ModbusError,
> {
    match outcome {
        Ok(response) => Ok(response@),
        Err(e) => Err(e),
    }
}

impl View for Action {
    type V = ActionData;

    open spec fn view(&self) -> ActionData {
        match self {
            Action::Write(frame) => ActionData::Write(frame@),
            Action::Read => ActionData::Read,
            Action::Finish(outcome) => ActionData::Finish(outcome_view(*outcome)),
            Action::Refuse => ActionData::Refuse,
        }
    }
}

/// The outcome of a transaction whose read ended with `bytes`: a timeout
/// where there are none, else what the decoder makes of them, an exception
/// reply being an error of its own kind.
pub open spec fn outcome_spec(bytes: Seq<u8>, request: ReadRequest) -> Result<
    ReadData,
    ModbusError,
> {
    if bytes.len() == 0 {
        Err(ModbusError::Transport(TransportError::Timeout))
    } else {
        match decode_response_spec(bytes, request) {
            Ok(ReadData::Exception(exception)) => Err(ModbusError::Exception(exception)),
            Ok(data) => Ok(data),
            Err(e) => Err(ModbusError::Frame(e)),
        }
    }
}

/// State and action after a request is submitted: refused while another is
/// outstanding; finished at once, with the rule it breaks, where it is not
/// valid; else its frame is handed out for writing.
pub open spec fn begin_spec(state: Transaction, request: ReadRequest) -> (Transaction, ActionData) {
    if state != Transaction::Idle {
        (state, ActionData::Refuse)
    } else {
        match request.check_spec() {
            Err(e) => (
                Transaction::Idle,
                ActionData::Finish(Err(ModbusError::Validation(e))),
            ),
            Ok(_) => (
                Transaction::Sending(request),
                ActionData::Write(encode_request_spec(request)),
            ),
        }
    }
}

/// State and action after the transport reports `event`.
pub open spec fn resume_spec(state: Transaction, event: EventData) -> (Transaction, ActionData) {
    match (state, event) {
        (Transaction::Sending(request), EventData::Written) => (
            Transaction::Receiving(request),
            ActionData::Read,
        ),
        (Transaction::Sending(request), EventData::WriteFailed(e)) => (
            Transaction::Idle,
            ActionData::Finish(Err(ModbusError::Transport(e))),
        ),
        (Transaction::Receiving(request), EventData::Received(bytes)) => (
            Transaction::Idle,
            ActionData::Finish(outcome_spec(bytes, request)),
        ),
        (Transaction::Receiving(request), EventData::ReadFailed(e)) => (
            Transaction::Idle,
            ActionData::Finish(Err(ModbusError::Transport(e))),
        ),
        _ => (state, ActionData::Refuse),
    }
}

/// Decides the outcome of a transaction from what the read delivered.
///
/// No bytes at all is a timeout, and the decoder is not asked. Any bytes
/// are decoded against the request that was sent: data is the outcome, an
/// exception reply is the error `Exception`, a refused frame the error
/// `Frame`.
pub fn conclude(bytes: &[u8], request: &ReadRequest) -> (outcome: Result<ReadResponse, ModbusError>)
    ensures
        outcome_view(outcome) == outcome_spec(bytes@, *request),
        outcome matches Ok(response) ==> !(response@ is Exception) && answers(
            *request,
            response@,
        ),
{
    if bytes.len() == 0 {
        return Err(ModbusError::Transport(TransportError::Timeout));
    }
    match decode_response(bytes, request) {
        Ok(ReadResponse::Exception(exception)) => Err(ModbusError::Exception(exception)),
        Ok(response) => Ok(response),
        Err(e) => Err(ModbusError::Frame(e)),
    }
}

/// Submits a request.
pub fn begin(state: Transaction, request: ReadRequest) -> (next: (Transaction, Action))
    ensures
        (next.0, next.1@) == begin_spec(state, request),
        state.wf() ==> next.0.wf(),
{
    match state {
        Transaction::Idle => {
            match request.validate() {
                Err(e) => (Transaction::Idle, Action::Finish(Err(ModbusError::Validation(e)))),
                Ok(_) => (Transaction::Sending(request), Action::Write(encode_request(&request))),
            }
        },
        _ => (state, Action::Refuse),
    }
}

/// Takes the report of the transport and says what to do next.
pub fn resume(state: Transaction, event: Event) -> (next: (Transaction, Action))
    ensures
        (next.0, next.1@) == resume_spec(state, event@),
        state.wf() ==> next.0.wf(),
        next.1 matches Action::Finish(Ok(response)) ==> state matches Transaction::Receiving(
            request,
        ) && answers(request, response@) && !(response@ is Exception),
{
    match state {
        Transaction::Idle => (state, Action::Refuse),
        Transaction::Sending(request) => {
            match event {
                Event::Written => (Transaction::Receiving(request), Action::Read),
                Event::WriteFailed(e) => (
                    Transaction::Idle,
                    Action::Finish(Err(ModbusError::Transport(e))),
                ),
                _ => (state, Action::Refuse),
            }
        },
        Transaction::Receiving(request) => {
            match event {
                Event::Received(bytes) => (
                    Transaction::Idle,
                    Action::Finish(conclude(bytes.as_slice(), &request)),
                ),
                Event::ReadFailed(e) => (
                    Transaction::Idle,
                    Action::Finish(Err(ModbusError::Transport(e))),
                ),
                _ => (state, Action::Refuse),
            }
        },
    }
}

} // verus!
