use aorura::codec::{is_status_command, status_command, Color, State};
use aorura::server::{reply_bytes, Reply, Server};

#[test]
fn status_command_bytes() {
    assert_eq!(&status_command(), b"SS");
    assert!(is_status_command(b"SS"));
    assert!(!is_status_command(b"B*"));
    assert!(!is_status_command(b"SX"));
    assert!(!is_status_command(b"XS"));
}

#[test]
fn fresh_server_reports_default_state() {
    // The emulator starts as Flash(Blue); a status query reports it as "B*".
    let mut server = Server::new();
    assert_eq!(server.get(), State::Flash(Color::Blue));
    let reply = server.handle(b"SS", true);
    assert_eq!(reply, Reply::Status(State::Flash(Color::Blue)));
    assert_eq!(reply_bytes(&reply), b"B*".to_vec());
}

#[test]
fn accepted_set_changes_state_and_acks() {
    // "R!" sets Static(Red), is acknowledged with "Y", and a later status
    // query reports "R!".
    let mut server = Server::new();
    let reply = server.handle(b"R!", true);
    assert_eq!(reply, Reply::Ack);
    assert_eq!(reply_bytes(&reply), b"Y".to_vec());
    assert_eq!(server.get(), State::Static(Color::Red));
    let reply = server.handle(b"SS", true);
    assert_eq!(reply_bytes(&reply), b"R!".to_vec());
}

#[test]
fn malformed_command_nacks_and_keeps_state() {
    // "ZZ" is invalid: the emulator answers "N" and the prior accepted
    // state is still reported unchanged.
    let mut server = Server::new();
    assert_eq!(server.handle(b"R!", true), Reply::Ack);
    let reply = server.handle(b"ZZ", true);
    assert_eq!(reply, Reply::Nack);
    assert_eq!(reply_bytes(&reply), b"N".to_vec());
    let reply = server.handle(b"SS", true);
    assert_eq!(reply_bytes(&reply), b"R!".to_vec());
}

#[test]
fn status_query_never_mutates() {
    let states = [
        State::Aurora,
        State::Off,
        State::Flash(Color::Green),
        State::Static(Color::Yellow),
    ];
    for s in states {
        let mut server = Server::new();
        server.set(s);
        let reply = server.handle(b"SS", true);
        assert_eq!(reply, Reply::Status(s));
        assert_eq!(server.get(), s);
        let reply = server.handle(b"SS", false);
        assert_eq!(reply, Reply::Status(s));
        assert_eq!(server.get(), s);
    }
}

#[test]
fn non_writable_server_keeps_state() {
    let mut server = Server::new();
    let reply = server.handle(b"R!", false);
    assert_eq!(reply, Reply::Ack);
    assert_eq!(server.get(), State::Flash(Color::Blue));
    let reply = server.handle(b"SS", false);
    assert_eq!(reply_bytes(&reply), b"B*".to_vec());
}

#[test]
fn back_to_back_sets_leave_last_accepted_state() {
    // Two set commands in a row, fully serialized: the final state is the
    // later of the two, and a status query in between sees a whole command,
    // never a torn byte pair.
    let mut server = Server::new();
    assert_eq!(server.handle(b"G*", true), Reply::Ack);
    let reply = server.handle(b"SS", true);
    assert_eq!(reply_bytes(&reply), b"G*".to_vec());
    assert_eq!(server.handle(b"P!", true), Reply::Ack);
    assert_eq!(server.get(), State::Static(Color::Purple));
}

#[test]
fn direct_set_matches_accepted_command() {
    let mut server = Server::new();
    server.set(State::Aurora);
    assert_eq!(server.get(), State::Aurora);
    let reply = server.handle(b"SS", true);
    assert_eq!(reply_bytes(&reply), b"A<".to_vec());
}
