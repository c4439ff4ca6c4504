//! A stand-in for a real socket device: the state it keeps and the answer
//! it gives to each command.

use crate::devices::smartsocket::SocketCommand;
use crate::devices::smartsocket::SocketResponse;
use crate::devices::wire::KILOWATT_BITS;
use crate::devices::wire::ZERO_BITS;
use vstd::prelude::*;

verus! {

/// What a socket device is at one moment: whether it is on, and the power it
/// draws, as the 32 bits of a single-precision number of watts.
pub struct SocketState {
    pub is_on: bool,
    pub power: u32,
}

impl SocketState {
    /// The power that a socket draws: 1000.0 watts when on, 0.0 when off.
    pub open spec fn rated_power(is_on: bool) -> u32 {
        if is_on {
            KILOWATT_BITS
        } else {
            ZERO_BITS
        }
    }

    /// A device as it starts: off, drawing nothing.
    pub open spec fn initial() -> SocketState {
        SocketState { is_on: false, power: ZERO_BITS }
    }

    /// The power is the one that goes with the on state.
    pub open spec fn consistent(self) -> bool {
        self.power == SocketState::rated_power(self.is_on)
    }

    /// The state after `command`: `Switch` toggles the device and sets the
    /// power that goes with its new state; no other command changes anything.
    pub open spec fn after(self, command: SocketCommand) -> SocketState {
        match command {
            SocketCommand::Switch => SocketState {
                is_on: !self.is_on,
                power: SocketState::rated_power(!self.is_on),
            },
            _ => self,
        }
    }

    /// The answer to `command`: `Switch` reports the state it has just set,
    /// the two queries report what they find, and `Unknown` is answered in kind.
    pub open spec fn reply(self, command: SocketCommand) -> SocketResponse {
        match command {
            SocketCommand::Switch => SocketResponse::On(!self.is_on),
            SocketCommand::GetPower => SocketResponse::Power(self.power),
            SocketCommand::IsOn => SocketResponse::On(self.is_on),
            SocketCommand::Unknown => SocketResponse::Unknown,
        }
    }
}

/// Consistency holds at the start and no command breaks it.
pub proof fn lemma_consistency_is_kept(state: SocketState, command: SocketCommand)
    ensures
        SocketState::initial().consistent(),
        state.consistent() ==> state.after(command).consistent(),
{
}

/// Switching twice brings a consistent device back to the state it was in.
pub proof fn lemma_switch_twice_restores(state: SocketState)
    requires
        state.consistent(),
    ensures
        state.after(SocketCommand::Switch).after(SocketCommand::Switch) == state,
{
}

/// After a switch the device is in the state that the switch reported, and
/// its power is the one that goes with that state, whatever it was before.
pub proof fn lemma_switch_reports_new_state(state: SocketState)
    ensures
        state.reply(SocketCommand::Switch) == SocketResponse::On(
            state.after(SocketCommand::Switch).is_on,
        ),
        state.after(SocketCommand::Switch).reply(SocketCommand::IsOn) == state.reply(
            SocketCommand::Switch,
        ),
        state.after(SocketCommand::Switch).reply(SocketCommand::GetPower) == SocketResponse::Power(
            SocketState::rated_power(!state.is_on),
        ),
{
}

/// An emulated socket device.
pub struct MockScoket {
    is_on: bool,
    power: u32,
}

impl View for MockScoket {
    type V = SocketState;

    closed spec fn view(&self) -> SocketState {
        SocketState { is_on: self.is_on, power: self.power }
    }
}

impl MockScoket {
    #[verifier::type_invariant]
    spec fn inv(self) -> bool {
        self@.consistent()
    }

    /// A device that is off.
    pub fn new() -> (device: MockScoket)
        ensures
            device@ == SocketState::initial(),
            device@.consistent(),
    {
        MockScoket { is_on: false, power: ZERO_BITS }
    }

    /// Carries out `command` and answers it.
    pub fn process_command(&mut self, command: SocketCommand) -> (response: SocketResponse)
        ensures
            old(self)@.consistent(),
            final(self)@.consistent(),
            final(self)@ == old(self)@.after(command),
            response == old(self)@.reply(command),
    {
        proof {
            use_type_invariant(&*self);
        }
        match command {
            SocketCommand::Switch => {
                let is_on = !self.is_on;
                let power = if is_on {
                    KILOWATT_BITS
                } else {
                    ZERO_BITS
                };
                *self = MockScoket { is_on, power };
                SocketResponse::On(is_on)
            },
            SocketCommand::GetPower => SocketResponse::Power(self.power),
            SocketCommand::IsOn => SocketResponse::On(self.is_on),
            SocketCommand::Unknown => SocketResponse::Unknown,
        }
    }

    /// Serves one request: reads `request` as a command, carries it out and
    /// frames the answer.
    pub fn serve(&mut self, request: u8) -> (frame: [u8; 5])
        ensures
            old(self)@.consistent(),
            final(self)@.consistent(),
            final(self)@ == old(self)@.after(SocketCommand::of_code(request)),
            frame == old(self)@.reply(SocketCommand::of_code(request)).frame(),
    {
        let command = SocketCommand::from(request);
        let response = self.process_command(command);
        <[u8; 5]>::from(response)
    }
}

} // verus!
