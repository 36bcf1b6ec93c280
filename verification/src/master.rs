//! The read operations of a master that talks to one device.

use crate::codec::answers;
use crate::engine::{
    begin, begin_spec, resume, resume_spec, Action, ActionData, Event, Transaction,
};
use crate::error::{ModbusError, ValidationError};
use crate::request::{FunctionCode, ReadRequest};
use vstd::prelude::*;

verus! {

/// A master bound to one device on the bus. It begins a read, is told
/// what the transport did, and says what to do next until the read is
/// finished; it never has more than one read outstanding.
#[derive(Debug)]
pub struct ModbusMaster {
    slave: u8,
    state: Transaction,
}

impl ModbusMaster {
    /// The device that this master addresses.
    pub closed spec fn slave_spec(&self) -> u8 {
        self.slave
    }

    /// Where the bus stands.
    pub closed spec fn state_spec(&self) -> Transaction {
        self.state
    }

    /// The request that is outstanding, if there is one, is valid and
    /// addressed to this master's device.
    pub closed spec fn wf(&self) -> bool {
        match self.state {
            Transaction::Idle => true,
            Transaction::Sending(request) => request.valid() && request.slave == self.slave,
            Transaction::Receiving(request) => request.valid() && request.slave == self.slave,
        }
    }

    /// The request that a read of `quantity` items from `start_address`
    /// makes of this master's device.
    pub open spec fn request_spec(
        &self,
        function: FunctionCode,
        start_address: u16,
        quantity: u16,
    ) -> ReadRequest {
        ReadRequest { slave: self.slave_spec(), function, start_address, quantity }
    }

    /// A master for the device at `slave`, with nothing outstanding.
    pub fn new(slave: u8) -> (master: ModbusMaster)
        ensures
            master.slave_spec() == slave,
            master.state_spec() == Transaction::Idle,
            master.wf(),
    {
        ModbusMaster { slave, state: Transaction::Idle }
    }

    /// The device that this master addresses.
    #[verifier::when_used_as_spec(slave_spec)]
    pub fn slave(&self) -> (slave: u8)
        ensures
            slave == self.slave_spec(),
    {
        self.slave
    }

    /// Where the bus stands.
    #[verifier::when_used_as_spec(state_spec)]
    pub fn state(&self) -> (state: Transaction)
        ensures
            state == self.state_spec(),
    {
        self.state
    }

    /// Whether a read may begin.
    pub fn is_idle(&self) -> (idle: bool)
        ensures
            idle == (self.state_spec() == Transaction::Idle),
    {
        match self.state {
            Transaction::Idle => true,
            _ => false,
        }
    }

    /// Begins a read with the given function.
    pub fn read_with(
        &mut self,
        function: FunctionCode,
        start_address: u16,
        quantity: u16,
    ) -> (action: Action)
        ensures
            (final(self).state_spec(), action@) == begin_spec(
                old(self).state_spec(),
                old(self).request_spec(function, start_address, quantity),
            ),
            final(self).slave_spec() == old(self).slave_spec(),
            old(self).wf() ==> final(self).wf(),
    {
        let request = ReadRequest { slave: self.slave, function, start_address, quantity };
        let (state, action) = begin(self.state, request);
        self.state = state;
        action
    }

    /// Begins a read of coils.
    pub fn read_coils(&mut self, start_address: u16, quantity: u16) -> (action: Action)
        ensures
            (final(self).state_spec(), action@) == begin_spec(
                old(self).state_spec(),
                old(self).request_spec(FunctionCode::ReadCoils, start_address, quantity),
            ),
            final(self).slave_spec() == old(self).slave_spec(),
            old(self).wf() ==> final(self).wf(),
    {
        self.read_with(FunctionCode::ReadCoils, start_address, quantity)
    }

    /// Begins a read of discrete inputs.
    pub fn read_discrete_inputs(&mut self, start_address: u16, quantity: u16) -> (action: Action)
        ensures
            (final(self).state_spec(), action@) == begin_spec(
                old(self).state_spec(),
                old(self).request_spec(FunctionCode::ReadDiscreteInputs, start_address, quantity),
            ),
            final(self).slave_spec() == old(self).slave_spec(),
            old(self).wf() ==> final(self).wf(),
    {
        self.read_with(FunctionCode::ReadDiscreteInputs, start_address, quantity)
    }

    /// Begins a read of holding registers.
    pub fn read_holding_registers(&mut self, start_address: u16, quantity: u16) -> (action: Action)
        ensures
            (final(self).state_spec(), action@) == begin_spec(
                old(self).state_spec(),
                old(self).request_spec(FunctionCode::ReadHoldingRegisters, start_address, quantity),
            ),
            final(self).slave_spec() == old(self).slave_spec(),
            old(self).wf() ==> final(self).wf(),
    {
        self.read_with(FunctionCode::ReadHoldingRegisters, start_address, quantity)
    }

    /// Begins a read of input registers.
    pub fn read_input_registers(&mut self, start_address: u16, quantity: u16) -> (action: Action)
        ensures
            (final(self).state_spec(), action@) == begin_spec(
                old(self).state_spec(),
                old(self).request_spec(FunctionCode::ReadInputRegisters, start_address, quantity),
            ),
            final(self).slave_spec() == old(self).slave_spec(),
            old(self).wf() ==> final(self).wf(),
    {
        self.read_with(FunctionCode::ReadInputRegisters, start_address, quantity)
    }

    /// State and action after a read is begun by the number of its
    /// function: refused while another is outstanding; finished at once
    /// with `UnsupportedFunction` where the number is none of 1 to 4; else
    /// as the read with that function.
    pub open spec fn read_spec(
        &self,
        function_code: u8,
        start_address: u16,
        quantity: u16,
    ) -> (Transaction, ActionData) {
        if self.state_spec() != Transaction::Idle {
            (self.state_spec(), ActionData::Refuse)
        } else {
            match FunctionCode::from_code_spec(function_code) {
                Some(function) => begin_spec(
                    self.state_spec(),
                    self.request_spec(function, start_address, quantity),
                ),
                None => (
                    Transaction::Idle,
                    ActionData::Finish(
                        Err(ModbusError::Validation(ValidationError::UnsupportedFunction)),
                    ),
                ),
            }
        }
    }

    /// Begins a read by the number of its function.
    pub fn read(&mut self, function_code: u8, start_address: u16, quantity: u16) -> (action: Action)
        ensures
            (final(self).state_spec(), action@) == old(self).read_spec(
                function_code,
                start_address,
                quantity,
            ),
            final(self).slave_spec() == old(self).slave_spec(),
            old(self).wf() ==> final(self).wf(),
    {
        if !self.is_idle() {
            return Action::Refuse;
        }
        match FunctionCode::from_code(function_code) {
            Ok(function) => self.read_with(function, start_address, quantity),
            Err(e) => Action::Finish(Err(ModbusError::Validation(e))),
        }
    }

    /// Takes the report of the transport on the last action and says what
    /// to do next.
    pub fn handle(&mut self, event: Event) -> (action: Action)
        ensures
            (final(self).state_spec(), action@) == resume_spec(old(self).state_spec(), event@),
            final(self).slave_spec() == old(self).slave_spec(),
            old(self).wf() ==> final(self).wf(),
            action matches Action::Finish(Ok(response)) ==> old(self).state_spec()
                matches Transaction::Receiving(request) && answers(request, response@) && !(response@
                is Exception),
    {
        let (state, action) = resume(self.state, event);
        self.state = state;
        action
    }
}

} // verus!
