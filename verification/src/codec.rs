//! The command protocol codec: device states and their two-byte wire
//! commands, related by a bijective encode/decode pair over the valid
//! subset of byte pairs.

use vstd::prelude::*;

verus! {

/// ASCII `Y`: the single-byte acknowledgement a device sends after
/// accepting a set command. It coincides with the identifier byte of
/// `Color::Yellow`; the two never appear in the same protocol position.
pub const ACK_BYTE: u8 = 89;

/// ASCII `N`: the single-byte rejection a device sends after a malformed
/// command.
pub const NACK_BYTE: u8 = 78;

/// ASCII `S`: both bytes of the status-query command.
pub const STATUS_BYTE: u8 = 83;

/// ASCII `A`: first byte of the aurora command.
pub const AURORA_FIRST: u8 = 65;

/// ASCII `<`: second byte of the aurora command.
pub const AURORA_SECOND: u8 = 60;

/// ASCII `*`: second byte of a flash command.
pub const FLASH_SECOND: u8 = 42;

/// ASCII `!`: second byte of a static command.
pub const STATIC_SECOND: u8 = 33;

/// ASCII `X`: both bytes of the off command.
pub const OFF_BYTE: u8 = 88;

/// The fixed two-byte unit exchanged over the transport in either direction.
pub type Command = [u8; 2];

/// The six LED colors, each with a fixed single-byte ASCII identifier.
#[derive(Clone, Copy, Debug, PartialEq, Eq, Structural)]
pub enum Color {
    Blue,
    Green,
    Orange,
    Purple,
    Red,
    Yellow,
}

impl Color {
    /// The wire identifier of this color: the ASCII initial of its name.
    pub open spec fn spec_byte(self) -> u8 {
        match self {
            Color::Blue => 66,  // B
            Color::Green => 71,  // G
            Color::Orange => 79,  // O
            Color::Purple => 80,  // P
            Color::Red => 82,  // R
            Color::Yellow => 89,  // Y
        }
    }

    /// The color a wire identifier stands for, if any.
    pub open spec fn spec_from_byte(b: u8) -> Option<Color> {
        if b == Color::Blue.spec_byte() {
            Some(Color::Blue)
        } else if b == Color::Green.spec_byte() {
            Some(Color::Green)
        } else if b == Color::Orange.spec_byte() {
            Some(Color::Orange)
        } else if b == Color::Purple.spec_byte() {
            Some(Color::Purple)
        } else if b == Color::Red.spec_byte() {
            Some(Color::Red)
        } else if b == Color::Yellow.spec_byte() {
            Some(Color::Yellow)
        } else {
            None
        }
    }

    /// Returns the wire identifier of this color.
    pub fn byte(self) -> (b: u8)
        ensures
            b == self.spec_byte(),
    {
        match self {
            Color::Blue => 66,
            Color::Green => 71,
            Color::Orange => 79,
            Color::Purple => 80,
            Color::Red => 82,
            Color::Yellow => 89,
        }
    }

    /// Looks a wire identifier up in the color table.
    pub fn from_byte(b: u8) -> (r: Option<Color>)
        ensures
            r == Color::spec_from_byte(b),
    {
        if b == 66 {
            Some(Color::Blue)
        } else if b == 71 {
            Some(Color::Green)
        } else if b == 79 {
            Some(Color::Orange)
        } else if b == 80 {
            Some(Color::Purple)
        } else if b == 82 {
            Some(Color::Red)
        } else if b == 89 {
            Some(Color::Yellow)
        } else {
            None
        }
    }
}

/// The device modes. The initial state of a fresh device is `Flash(Blue)`.
#[derive(Clone, Copy, Debug, PartialEq, Eq, Structural)]
pub enum State {
    Aurora,
    Flash(Color),
    Off,
    Static(Color),
}

/// A two-byte sequence that is not the status query and does not encode
/// any state; carries the offending pair of bytes.
#[derive(Clone, Copy, Debug, PartialEq, Eq, Structural)]
pub enum ProtocolError {
    InvalidCommand(u8, u8),
}

/// The wire encoding of a state.
pub open spec fn spec_encode(s: State) -> Seq<u8> {
    match s {
        State::Aurora => seq![AURORA_FIRST, AURORA_SECOND],
        State::Flash(c) => seq![c.spec_byte(), FLASH_SECOND],
        State::Off => seq![OFF_BYTE, OFF_BYTE],
        State::Static(c) => seq![c.spec_byte(), STATIC_SECOND],
    }
}

/// The state a two-byte command sets, or the error for a pair outside the
/// valid subset. The second byte selects the mode; `*` and `!` expect a
/// color identifier in the first byte.
pub open spec fn spec_decode(c: Seq<u8>) -> Result<State, ProtocolError>
    recommends
        c.len() == 2,
{
    if c[0] == AURORA_FIRST && c[1] == AURORA_SECOND {
        Ok(State::Aurora)
    } else if c[1] == FLASH_SECOND {
        match Color::spec_from_byte(c[0]) {
            Some(col) => Ok(State::Flash(col)),
            None => Err(ProtocolError::InvalidCommand(c[0], c[1])),
        }
    } else if c[1] == STATIC_SECOND {
        match Color::spec_from_byte(c[0]) {
            Some(col) => Ok(State::Static(col)),
            None => Err(ProtocolError::InvalidCommand(c[0], c[1])),
        }
    } else if c[0] == OFF_BYTE && c[1] == OFF_BYTE {
        Ok(State::Off)
    } else {
        Err(ProtocolError::InvalidCommand(c[0], c[1]))
    }
}

impl State {
    /// Encodes this state as its two-byte wire command. Total: every state
    /// has exactly one encoding.
    pub fn encode(self) -> (c: Command)
        ensures
            c@ == spec_encode(self),
    {
        let c: Command = match self {
            State::Aurora => [AURORA_FIRST, AURORA_SECOND],
            State::Flash(color) => [color.byte(), FLASH_SECOND],
            State::Off => [OFF_BYTE, OFF_BYTE],
            State::Static(color) => [color.byte(), STATIC_SECOND],
        };
        proof {
            assert(c@ =~= spec_encode(self));
        }
        c
    }

    /// Decodes a two-byte wire command back into the state it sets;
    /// fails with `InvalidCommand` on any pair outside the valid subset.
    pub fn decode(cmd: &Command) -> (r: Result<State, ProtocolError>)
        ensures
            r == spec_decode(cmd@),
    {
        let b0 = cmd[0];
        let b1 = cmd[1];
        if b0 == AURORA_FIRST && b1 == AURORA_SECOND {
            Ok(State::Aurora)
        } else if b1 == FLASH_SECOND {
            match Color::from_byte(b0) {
                Some(col) => Ok(State::Flash(col)),
                None => Err(ProtocolError::InvalidCommand(b0, b1)),
            }
        } else if b1 == STATIC_SECOND {
            match Color::from_byte(b0) {
                Some(col) => Ok(State::Static(col)),
                None => Err(ProtocolError::InvalidCommand(b0, b1)),
            }
        } else if b0 == OFF_BYTE && b1 == OFF_BYTE {
            Ok(State::Off)
        } else {
            Err(ProtocolError::InvalidCommand(b0, b1))
        }
    }
}

impl Default for State {
    /// The initial state of a fresh device or emulator: `Flash(Blue)`.
    fn default() -> (s: Self)
        ensures
            s == State::Flash(Color::Blue),
    {
        State::Flash(Color::Blue)
    }
}

/// The status-query command: both bytes ASCII `S`. It is never produced
/// by `encode` and never accepted by `decode`; it means "report the
/// current state" and is recognized by identity comparison before a
/// decode is attempted.
pub open spec fn spec_status_command() -> Seq<u8> {
    seq![STATUS_BYTE, STATUS_BYTE]
}

/// Returns the status-query command.
pub fn status_command() -> (c: Command)
    ensures
        c@ == spec_status_command(),
{
    let c: Command = [STATUS_BYTE, STATUS_BYTE];
    proof {
        assert(c@ =~= spec_status_command());
    }
    c
}

/// Whether a command is the status query, by identity comparison.
pub fn is_status_command(cmd: &Command) -> (b: bool)
    ensures
        b == (cmd@ == spec_status_command()),
{
    let b = cmd[0] == STATUS_BYTE && cmd[1] == STATUS_BYTE;
    proof {
        if b {
            assert(cmd@ =~= spec_status_command());
        } else {
            assert(cmd@[0] != STATUS_BYTE || cmd@[1] != STATUS_BYTE);
        }
    }
    b
}

/// Whether the one-byte reply to a set command means the device accepted
/// it: exactly the acknowledgement byte does; any other byte, typically
/// `N`, is a rejection.
pub fn set_accepted(reply: u8) -> (ok: bool)
    ensures
        ok == (reply == ACK_BYTE),
{
    reply == ACK_BYTE
}

/// Round trip: decoding the encoding of any state gives that state back.
/// Encoding is thus injective over the states.
pub proof fn lemma_round_trip(s: State)
    ensures
        spec_decode(spec_encode(s)) == Ok::<State, ProtocolError>(s),
{
}

/// Converse round trip: any two-byte pair that decodes to a state is that
/// state's encoding. Together with `lemma_round_trip`, the valid byte
/// pairs and the states are in bijection.
pub proof fn lemma_decode_inverse(c: Seq<u8>, s: State)
    requires
        c.len() == 2,
        spec_decode(c) == Ok::<State, ProtocolError>(s),
    ensures
        spec_encode(s) == c,
{
    assert(spec_encode(s) =~= c);
}

} // verus!
