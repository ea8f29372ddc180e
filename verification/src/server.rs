//! The emulator's state machine: one device-state value, read by status
//! queries and replaced by accepted set commands when the emulator is
//! writable. The transport loop around it reads a two-byte command, hands
//! it to `handle` under exclusive access to the server, and writes the
//! reply bytes back before releasing it.

use vstd::prelude::*;

use crate::codec::{is_status_command, spec_decode, spec_encode, spec_status_command, Color,
    Command, State, ACK_BYTE, NACK_BYTE};

verus! {

/// What the emulator writes back for one command: the encoded current
/// state for a status query, else a single acknowledgement or rejection
/// byte.
#[derive(Clone, Copy, Debug, PartialEq, Eq, Structural)]
pub enum Reply {
    /// Answer to a status query: the state to encode onto the wire.
    Status(State),
    /// Single byte `Y`: the set command was well-formed.
    Ack,
    /// Single byte `N`: the command was malformed.
    Nack,
}

/// The exact bytes a reply puts on the wire.
pub open spec fn spec_reply_bytes(r: Reply) -> Seq<u8> {
    match r {
        Reply::Status(s) => spec_encode(s),
        Reply::Ack => seq![ACK_BYTE],
        Reply::Nack => seq![NACK_BYTE],
    }
}

/// Serializes a reply for the transport.
pub fn reply_bytes(r: &Reply) -> (v: Vec<u8>)
    ensures
        v@ == spec_reply_bytes(*r),
{
    match r {
        Reply::Status(s) => {
            let c = s.encode();
            let mut v: Vec<u8> = Vec::new();
            v.push(c[0]);
            v.push(c[1]);
            proof {
                assert(v@ =~= spec_encode(*s));
            }
            v
        },
        Reply::Ack => {
            let mut v: Vec<u8> = Vec::new();
            v.push(ACK_BYTE);
            proof {
                assert(v@ =~= seq![ACK_BYTE]);
            }
            v
        },
        Reply::Nack => {
            let mut v: Vec<u8> = Vec::new();
            v.push(NACK_BYTE);
            proof {
                assert(v@ =~= seq![NACK_BYTE]);
            }
            v
        },
    }
}

/// One step of the emulator: the state after a command and the reply to
/// it. A status query reports the state and never changes it; a command
/// that decodes is acknowledged and replaces the state only when the
/// emulator is writable; a malformed command is rejected and changes
/// nothing.
pub open spec fn spec_step(state: State, writable: bool, c: Seq<u8>) -> (State, Reply) {
    if c == spec_status_command() {
        (state, Reply::Status(state))
    } else {
        match spec_decode(c) {
            Ok(new_state) => ((if writable { new_state } else { state }), Reply::Ack),
            Err(_) => (state, Reply::Nack),
        }
    }
}

/// The emulator: the one shared device-state value. The transport loop and
/// any direct accessors must share a single `Server` under exclusive
/// access, so that each command's read-decide-reply step is indivisible.
pub struct Server {
    state: State,
}

impl View for Server {
    type V = State;

    /// The current device state.
    closed spec fn view(&self) -> State {
        self.state
    }
}

impl Server {
    /// A fresh emulator, in the device's initial state `Flash(Blue)`.
    pub fn new() -> (s: Server)
        ensures
            s@ == State::Flash(Color::Blue),
    {
        Server { state: State::default() }
    }

    /// Reads the current state.
    pub fn get(&self) -> (s: State)
        ensures
            s == self@,
    {
        self.state
    }

    /// Replaces the current state directly, as an accepted set command
    /// would.
    pub fn set(&mut self, state: State)
        ensures
            final(self)@ == state,
    {
        self.state = state;
    }

    /// Handles one two-byte command: updates the state as `spec_step` says
    /// and returns the reply to write back. The whole step must run under
    /// the same exclusive access as the reply write.
    pub fn handle(&mut self, cmd: &Command, writable: bool) -> (r: Reply)
        ensures
            final(self)@ == spec_step(old(self)@, writable, cmd@).0,
            r == spec_step(old(self)@, writable, cmd@).1,
            // A status query never changes the state and reports it exactly.
            cmd@ == spec_status_command() ==> final(self)@ == old(self)@
                && r == Reply::Status(old(self)@),
            // A non-writable emulator never changes state, whatever arrives.
            !writable ==> final(self)@ == old(self)@,
            // A malformed command is rejected and changes nothing.
            cmd@ != spec_status_command() && spec_decode(cmd@) is Err ==> final(self)@ == old(
                self,
            )@ && r == Reply::Nack,
    {
        if is_status_command(cmd) {
            Reply::Status(self.state)
        } else {
            match State::decode(cmd) {
                Ok(new_state) => {
                    if writable {
                        self.state = new_state;
                    }
                    Reply::Ack
                },
                Err(_) => Reply::Nack,
            }
        }
    }
}

} // verus!
