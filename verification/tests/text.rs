use aorura::codec::{Color, State};
use aorura::text::{parse_state, state_into_string};

#[test]
fn render_all_forms() {
    assert_eq!(state_into_string(State::Aurora), "aurora");
    assert_eq!(state_into_string(State::Off), "off");
    assert_eq!(state_into_string(State::Flash(Color::Blue)), "flash:blue");
    assert_eq!(
        state_into_string(State::Static(Color::Yellow)),
        "static:yellow"
    );
    assert_eq!(
        state_into_string(State::Flash(Color::Orange)),
        "flash:orange"
    );
}

#[test]
fn parse_valid_forms() {
    assert_eq!(parse_state("aurora"), Some(State::Aurora));
    assert_eq!(parse_state("off"), Some(State::Off));
    assert_eq!(parse_state("flash:red"), Some(State::Flash(Color::Red)));
    assert_eq!(
        parse_state("static:green"),
        Some(State::Static(Color::Green))
    );
}

#[test]
fn parse_rejects_other_text() {
    assert_eq!(parse_state(""), None);
    assert_eq!(parse_state("flash"), None);
    assert_eq!(parse_state("static"), None);
    assert_eq!(parse_state("flash:"), None);
    assert_eq!(parse_state("flash:chartreuse"), None);
    assert_eq!(parse_state("Aurora"), None);
    assert_eq!(parse_state("off "), None);
    assert_eq!(parse_state("flash:blue:blue"), None);
}

#[test]
fn parse_inverts_render() {
    let colors = [
        Color::Blue,
        Color::Green,
        Color::Orange,
        Color::Purple,
        Color::Red,
        Color::Yellow,
    ];
    let mut states = vec![State::Aurora, State::Off];
    for c in colors {
        states.push(State::Flash(c));
        states.push(State::Static(c));
    }
    for s in states {
        assert_eq!(parse_state(&state_into_string(s)), Some(s));
    }
}
