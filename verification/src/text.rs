//! The textual form of a state used on the command line: `aurora`, `off`,
//! `flash:<color>` and `static:<color>` with the six lowercase color
//! names, and nothing else.

use vstd::prelude::*;

use crate::codec::{Color, State};

verus! {

/// The textual form of a state.
pub open spec fn spec_state_string(s: State) -> Seq<char> {
    match s {
        State::Aurora => "aurora"@,
        State::Off => "off"@,
        State::Flash(Color::Blue) => "flash:blue"@,
        State::Flash(Color::Green) => "flash:green"@,
        State::Flash(Color::Orange) => "flash:orange"@,
        State::Flash(Color::Purple) => "flash:purple"@,
        State::Flash(Color::Red) => "flash:red"@,
        State::Flash(Color::Yellow) => "flash:yellow"@,
        State::Static(Color::Blue) => "static:blue"@,
        State::Static(Color::Green) => "static:green"@,
        State::Static(Color::Orange) => "static:orange"@,
        State::Static(Color::Purple) => "static:purple"@,
        State::Static(Color::Red) => "static:red"@,
        State::Static(Color::Yellow) => "static:yellow"@,
    }
}

/// The state a piece of text names, if any: exactly the fourteen valid
/// forms are accepted.
pub open spec fn spec_parse_state(s: Seq<char>) -> Option<State> {
    if s == "aurora"@ {
        Some(State::Aurora)
    } else if s == "off"@ {
        Some(State::Off)
    } else if s == "flash:blue"@ {
        Some(State::Flash(Color::Blue))
    } else if s == "flash:green"@ {
        Some(State::Flash(Color::Green))
    } else if s == "flash:orange"@ {
        Some(State::Flash(Color::Orange))
    } else if s == "flash:purple"@ {
        Some(State::Flash(Color::Purple))
    } else if s == "flash:red"@ {
        Some(State::Flash(Color::Red))
    } else if s == "flash:yellow"@ {
        Some(State::Flash(Color::Yellow))
    } else if s == "static:blue"@ {
        Some(State::Static(Color::Blue))
    } else if s == "static:green"@ {
        Some(State::Static(Color::Green))
    } else if s == "static:orange"@ {
        Some(State::Static(Color::Orange))
    } else if s == "static:purple"@ {
        Some(State::Static(Color::Purple))
    } else if s == "static:red"@ {
        Some(State::Static(Color::Red))
    } else if s == "static:yellow"@ {
        Some(State::Static(Color::Yellow))
    } else {
        None
    }
}

/// Renders a state in its textual form.
pub fn state_into_string(state: State) -> (r: String)
    ensures
        r@ == spec_state_string(state),
{
    let s: &str = match state {
        State::Aurora => "aurora",
        State::Off => "off",
        State::Flash(Color::Blue) => "flash:blue",
        State::Flash(Color::Green) => "flash:green",
        State::Flash(Color::Orange) => "flash:orange",
        State::Flash(Color::Purple) => "flash:purple",
        State::Flash(Color::Red) => "flash:red",
        State::Flash(Color::Yellow) => "flash:yellow",
        State::Static(Color::Blue) => "static:blue",
        State::Static(Color::Green) => "static:green",
        State::Static(Color::Orange) => "static:orange",
        State::Static(Color::Purple) => "static:purple",
        State::Static(Color::Red) => "static:red",
        State::Static(Color::Yellow) => "static:yellow",
    };
    String::from_str(s)
}

/// Parses the textual form of a state; `None` for any other text.
pub fn parse_state(s: &str) -> (r: Option<State>)
    ensures
        r == spec_parse_state(s@),
{
    let t: String = s.to_owned();
    if t == String::from_str("aurora") {
        Some(State::Aurora)
    } else if t == String::from_str("off") {
        Some(State::Off)
    } else if t == String::from_str("flash:blue") {
        Some(State::Flash(Color::Blue))
    } else if t == String::from_str("flash:green") {
        Some(State::Flash(Color::Green))
    } else if t == String::from_str("flash:orange") {
        Some(State::Flash(Color::Orange))
    } else if t == String::from_str("flash:purple") {
        Some(State::Flash(Color::Purple))
    } else if t == String::from_str("flash:red") {
        Some(State::Flash(Color::Red))
    } else if t == String::from_str("flash:yellow") {
        Some(State::Flash(Color::Yellow))
    } else if t == String::from_str("static:blue") {
        Some(State::Static(Color::Blue))
    } else if t == String::from_str("static:green") {
        Some(State::Static(Color::Green))
    } else if t == String::from_str("static:orange") {
        Some(State::Static(Color::Orange))
    } else if t == String::from_str("static:purple") {
        Some(State::Static(Color::Purple))
    } else if t == String::from_str("static:red") {
        Some(State::Static(Color::Red))
    } else if t == String::from_str("static:yellow") {
        Some(State::Static(Color::Yellow))
    } else {
        None
    }
}

} // verus!
