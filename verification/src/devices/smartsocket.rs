//! The remote socket: its commands, its responses, their encoding on the
//! wire, and the client that talks to one over a byte stream.

use crate::devices::journal::Link;
use crate::devices::wire::be_bytes;
use crate::devices::wire::from_be_bytes;
use crate::devices::wire::lemma_join_of_split;
use crate::devices::wire::spec_be_bytes;
use crate::devices::wire::spec_from_be_bytes;
use crate::SmartHomeError;
use vstd::prelude::*;
use vstd::std_specs::convert::FromSpecImpl;

verus! {

/// The number of bytes in every response frame.
pub const FRAME_LEN: usize = 5;

/// The tag of a frame that reports whether the socket is on.
pub const TAG_ON: u8 = 0;

/// The tag of a frame that reports the power drawn.
pub const TAG_POWER: u8 = 1;

/// The tag of a frame that carries no reading.
pub const TAG_UNKNOWN: u8 = 255;

/// What a client can ask of a socket. `Unknown` stands for every byte that
/// names no command.
#[derive(Clone, Copy, Debug, PartialEq, Eq, Structural)]
pub enum SocketCommand {
    Switch,
    GetPower,
    IsOn,
    Unknown,
}

impl SocketCommand {
    /// The byte that carries this command.
    pub open spec fn code(self) -> u8 {
        match self {
            SocketCommand::Switch => 0,
            SocketCommand::IsOn => 1,
            SocketCommand::GetPower => 2,
            SocketCommand::Unknown => 255,
        }
    }

    /// The command that `byte` carries.
    pub open spec fn of_code(byte: u8) -> SocketCommand {
        if byte == 0 {
            SocketCommand::Switch
        } else if byte == 1 {
            SocketCommand::IsOn
        } else if byte == 2 {
            SocketCommand::GetPower
        } else {
            SocketCommand::Unknown
        }
    }
}

impl From<SocketCommand> for u8 {
    /// The byte that carries `cmd`.
    fn from(cmd: SocketCommand) -> (byte: u8)
        ensures
            byte == cmd.code(),
    {
        match cmd {
            SocketCommand::Switch => 0,
            SocketCommand::IsOn => 1,
            SocketCommand::GetPower => 2,
            SocketCommand::Unknown => 255,
        }
    }
}

impl FromSpecImpl<SocketCommand> for u8 {
    open spec fn obeys_from_spec() -> bool {
        true
    }

    open spec fn from_spec(cmd: SocketCommand) -> u8 {
        cmd.code()
    }
}

impl From<u8> for SocketCommand {
    /// The command that `value` carries. Every byte carries one: a byte
    /// that names no command carries `Unknown`.
    fn from(value: u8) -> (cmd: SocketCommand)
        ensures
            cmd == SocketCommand::of_code(value),
    {
        match value {
            0 => SocketCommand::Switch,
            1 => SocketCommand::IsOn,
            2 => SocketCommand::GetPower,
            _ => SocketCommand::Unknown,
        }
    }
}

impl FromSpecImpl<u8> for SocketCommand {
    open spec fn obeys_from_spec() -> bool {
        true
    }

    open spec fn from_spec(value: u8) -> SocketCommand {
        SocketCommand::of_code(value)
    }
}

/// What a socket answers. A power reading is carried as the 32 bits of its
/// single-precision encoding. `Unknown` stands for every frame whose tag names
/// no reading.
#[derive(Clone, Copy, Debug, PartialEq, Eq, Structural)]
pub enum SocketResponse {
    On(bool),
    Power(u32),
    Unknown,
}

impl SocketResponse {
    /// The frame that carries this response: a tag, then four payload bytes.
    pub open spec fn frame(self) -> [u8; 5] {
        match self {
            SocketResponse::On(is_on) => [TAG_ON, if is_on { 1u8 } else { 0u8 }, 0u8, 0u8, 0u8],
            SocketResponse::Power(bits) => [
                TAG_POWER,
                spec_be_bytes(bits)[0],
                spec_be_bytes(bits)[1],
                spec_be_bytes(bits)[2],
                spec_be_bytes(bits)[3],
            ],
            SocketResponse::Unknown => [TAG_UNKNOWN, 0u8, 0u8, 0u8, 0u8],
        }
    }

    /// The response that the first five bytes of `bytes` carry.
    pub open spec fn parse(bytes: Seq<u8>) -> SocketResponse
        recommends
            bytes.len() >= FRAME_LEN,
    {
        if bytes[0] == TAG_ON {
            SocketResponse::On(bytes[1] != 0)
        } else if bytes[0] == TAG_POWER {
            SocketResponse::Power(spec_from_be_bytes(bytes.subrange(1, 5)))
        } else {
            SocketResponse::Unknown
        }
    }

    /// Reads this response as the answer to `Switch` or `IsOn`: the state
    /// that an `On` response reports, and a protocol mismatch for any other.
    pub fn on_state(self) -> (state: Result<bool, SmartHomeError>)
        ensures
            match self {
                SocketResponse::On(is_on) => state == Ok::<bool, SmartHomeError>(is_on),
                _ => state == Err::<bool, SmartHomeError>(SmartHomeError::ProtocolMismatch),
            },
    {
        match self {
            SocketResponse::On(is_on) => Ok(is_on),
            _ => Err(SmartHomeError::ProtocolMismatch),
        }
    }

    /// Reads this response as the answer to `GetPower`: the reading that a
    /// `Power` response reports, and a protocol mismatch for any other.
    pub fn power_bits(self) -> (power: Result<u32, SmartHomeError>)
        ensures
            match self {
                SocketResponse::Power(bits) => power == Ok::<u32, SmartHomeError>(bits),
                _ => power == Err::<u32, SmartHomeError>(SmartHomeError::ProtocolMismatch),
            },
    {
        match self {
            SocketResponse::Power(bits) => Ok(bits),
            _ => Err(SmartHomeError::ProtocolMismatch),
        }
    }
}

impl From<SocketResponse> for [u8; 5] {
    /// The frame that carries `response`.
    fn from(response: SocketResponse) -> (frame: [u8; 5])
        ensures
            frame == response.frame(),
    {
        match response {
            SocketResponse::On(is_on) => {
                let flag: u8 = if is_on {
                    1
                } else {
                    0
                };
                let frame = [TAG_ON, flag, 0u8, 0u8, 0u8];
                frame
            },
            SocketResponse::Power(bits) => {
                let payload = be_bytes(bits);
                let frame = [TAG_POWER, payload[0], payload[1], payload[2], payload[3]];
                frame
            },
            SocketResponse::Unknown => {
                let frame = [TAG_UNKNOWN, 0u8, 0u8, 0u8, 0u8];
                frame
            },
        }
    }
}

impl FromSpecImpl<SocketResponse> for [u8; 5] {
    open spec fn obeys_from_spec() -> bool {
        true
    }

    open spec fn from_spec(response: SocketResponse) -> [u8; 5] {
        response.frame()
    }
}

impl From<[u8; 5]> for SocketResponse {
    /// The response that the frame `bytes` carries. Every frame carries
    /// one: a frame whose tag names no reading carries `Unknown`.
    fn from(bytes: [u8; 5]) -> (response: SocketResponse)
        ensures
            response == SocketResponse::parse(bytes@),
    {
        if bytes[0] == TAG_ON {
            SocketResponse::On(bytes[1] != 0)
        } else if bytes[0] == TAG_POWER {
            let payload = [bytes[1], bytes[2], bytes[3], bytes[4]];
            SocketResponse::Power(from_be_bytes(&payload))
        } else {
            SocketResponse::Unknown
        }
    }
}

impl FromSpecImpl<[u8; 5]> for SocketResponse {
    open spec fn obeys_from_spec() -> bool {
        true
    }

    open spec fn from_spec(bytes: [u8; 5]) -> SocketResponse {
        SocketResponse::parse(bytes@)
    }
}

/// Every command survives the trip through its byte.
pub proof fn lemma_command_round_trip(cmd: SocketCommand)
    ensures
        SocketCommand::of_code(cmd.code()) == cmd,
{
}

/// The bytes 0, 1 and 2 each name a command that is carried by that same
/// byte; every other byte names no command.
pub proof fn lemma_command_bytes(byte: u8)
    ensures
        byte <= 2 ==> SocketCommand::of_code(byte).code() == byte,
        byte > 2 ==> SocketCommand::of_code(byte) == SocketCommand::Unknown,
{
}

/// Every response survives the trip through its frame.
pub proof fn lemma_response_round_trip(response: SocketResponse)
    ensures
        SocketResponse::parse(response.frame()@) == response,
{
    match response {
        SocketResponse::Power(bits) => {
            lemma_join_of_split(bits);
        },
        _ => {},
    }
}

/// The frame of `Unknown` begins with the tag 255, and a frame whose tag is
/// neither 0 nor 1 carries `Unknown`, whatever its payload.
pub proof fn lemma_unknown_frames(bytes: Seq<u8>)
    requires
        bytes.len() == FRAME_LEN,
    ensures
        SocketResponse::Unknown.frame()@[0] == TAG_UNKNOWN,
        bytes[0] != TAG_ON && bytes[0] != TAG_POWER ==> SocketResponse::parse(bytes)
            == SocketResponse::Unknown,
{
}

/// A reliable, ordered byte stream to one peer. Nothing is promised of an
/// implementation: a client learns what happened from what each call returns.
pub trait ReadWrite {
    /// Hands all of `buf` to the peer, or fails.
    fn write_all(&mut self, buf: &[u8]) -> Result<(), std::io::Error>;

    /// Fills all of `buf` with the next bytes from the peer, or fails.
    fn read_exact(&mut self, buf: &mut [u8]) -> Result<(), std::io::Error>;
}

/// One thing that happened on a client's stream.
pub enum Traffic {
    /// A write of these bytes succeeded.
    Wrote(Seq<u8>),
    /// A write of these bytes failed.
    WriteFailed(Seq<u8>),
    /// A read of one frame succeeded and gave these bytes.
    Read(Seq<u8>),
    /// A read of one frame failed.
    ReadFailed,
}

/// A client of one remote socket. It keeps no reading: every query is a
/// round trip on the link it owns, and the exclusive borrow that each
/// operation takes keeps two commands from overlapping.
pub struct SmartSocket {
    link: Link,
}

impl SmartSocket {
    /// Every write and read that this client has made on its stream,
    /// oldest first.
    pub closed spec fn journal(&self) -> Seq<Traffic> {
        self.link.journal()
    }

    /// The frame that the last read gave, if the last thing that happened
    /// is a read that succeeded.
    pub open spec fn last_frame(&self) -> Seq<u8> {
        match self.journal().last() {
            Traffic::Read(frame) => frame,
            _ => Seq::empty(),
        }
    }

    /// `after` is `before` with one full round trip added: the byte of
    /// `command` written, then one frame read.
    pub open spec fn round_trip(
        before: &SmartSocket,
        after: &SmartSocket,
        command: SocketCommand,
    ) -> bool {
        &&& after.last_frame().len() == FRAME_LEN
        &&& after.journal() == before.journal().push(Traffic::Wrote(seq![command.code()])).push(
            Traffic::Read(after.last_frame()),
        )
    }

    /// `after` is `before` with a round trip for `command` that broke off:
    /// the write of its byte failed and nothing was read, or the write
    /// succeeded and the read failed. Neither was tried again.
    pub open spec fn broken_trip(
        before: &SmartSocket,
        after: &SmartSocket,
        command: SocketCommand,
    ) -> bool {
        ||| after.journal() == before.journal().push(Traffic::WriteFailed(seq![command.code()]))
        ||| after.journal() == before.journal().push(Traffic::Wrote(seq![command.code()])).push(
            Traffic::ReadFailed,
        )
    }

    /// A client that talks over `stream` and has exchanged nothing yet.
    pub fn new<S: ReadWrite + 'static>(stream: S) -> (socket: SmartSocket)
        ensures
            socket.journal() == Seq::<Traffic>::empty(),
    {
        SmartSocket { link: Link::open(stream) }
    }

    /// One round trip: writes the byte of `command`, then reads one frame
    /// and returns the response it carries. Fails with the stream's failure
    /// if either step fails.
    pub fn run_command(&mut self, command: SocketCommand) -> (result: Result<
        SocketResponse,
        SmartHomeError,
    >)
        ensures
            match result {
                Ok(response) => SmartSocket::round_trip(old(self), final(self), command)
                    && response == SocketResponse::parse(final(self).last_frame()),
                Err(error) => error is ConnectionError && SmartSocket::broken_trip(
                    old(self),
                    final(self),
                    command,
                ),
            },
    {
        let request: [u8; 1] = [u8::from(command)];
        assert(request@ =~= seq![command.code()]);
        match self.link.send(request.as_slice()) {
            Ok(()) => {},
            Err(failure) => {
                return Err(SmartHomeError::from(failure));
            },
        }
        match self.link.receive() {
            Ok(frame) => Ok(SocketResponse::from(frame)),
            Err(failure) => Err(SmartHomeError::from(failure)),
        }
    }

    /// Toggles the socket. Succeeds when the socket answers with its new
    /// state; an answer of any other kind is a protocol mismatch.
    pub fn switch(&mut self) -> (result: Result<(), SmartHomeError>)
        ensures
            match result {
                Ok(()) => SmartSocket::round_trip(old(self), final(self), SocketCommand::Switch)
                    && SocketResponse::parse(final(self).last_frame()) is On,
                Err(SmartHomeError::ProtocolMismatch) => SmartSocket::round_trip(
                    old(self),
                    final(self),
                    SocketCommand::Switch,
                ) && !(SocketResponse::parse(final(self).last_frame()) is On),
                Err(SmartHomeError::ConnectionError(_)) => SmartSocket::broken_trip(
                    old(self),
                    final(self),
                    SocketCommand::Switch,
                ),
                Err(_) => false,
            },
    {
        match self.run_command(SocketCommand::Switch) {
            Ok(response) => match response.on_state() {
                Ok(_) => Ok(()),
                Err(mismatch) => Err(mismatch),
            },
            Err(failure) => Err(failure),
        }
    }

    /// Asks the socket for the power it draws, as the 32 bits of a
    /// single-precision number of watts. An answer of any other kind is a
    /// protocol mismatch.
    pub fn get_power(&mut self) -> (result: Result<u32, SmartHomeError>)
        ensures
            match result {
                Ok(bits) => SmartSocket::round_trip(old(self), final(self), SocketCommand::GetPower)
                    && SocketResponse::parse(final(self).last_frame()) == SocketResponse::Power(
                    bits,
                ),
                Err(SmartHomeError::ProtocolMismatch) => SmartSocket::round_trip(
                    old(self),
                    final(self),
                    SocketCommand::GetPower,
                ) && !(SocketResponse::parse(final(self).last_frame()) is Power),
                Err(SmartHomeError::ConnectionError(_)) => SmartSocket::broken_trip(
                    old(self),
                    final(self),
                    SocketCommand::GetPower,
                ),
                Err(_) => false,
            },
    {
        match self.run_command(SocketCommand::GetPower) {
            Ok(response) => response.power_bits(),
            Err(failure) => Err(failure),
        }
    }

    /// Asks the socket whether it is on. An answer of any other kind is a
    /// protocol mismatch.
    pub fn is_on(&mut self) -> (result: Result<bool, SmartHomeError>)
        ensures
            match result {
                Ok(state) => SmartSocket::round_trip(old(self), final(self), SocketCommand::IsOn)
                    && SocketResponse::parse(final(self).last_frame()) == SocketResponse::On(
                    state,
                ),
                Err(SmartHomeError::ProtocolMismatch) => SmartSocket::round_trip(
                    old(self),
                    final(self),
                    SocketCommand::IsOn,
                ) && !(SocketResponse::parse(final(self).last_frame()) is On),
                Err(SmartHomeError::ConnectionError(_)) => SmartSocket::broken_trip(
                    old(self),
                    final(self),
                    SocketCommand::IsOn,
                ),
                Err(_) => false,
            },
    {
        match self.run_command(SocketCommand::IsOn) {
            Ok(response) => response.on_state(),
            Err(failure) => Err(failure),
        }
    }
}

} // verus!
