use telwrap::session::{
    fixed_geometry, Geometry, ProcessSession, SessionAction, SessionError, SessionEvent,
    StandardStream, TerminalAttributes, COLUMNS, ROWS,
};

fn attributes() -> TerminalAttributes {
    TerminalAttributes {
        input_flags: 0x4500,
        output_flags: 0x5,
        control_flags: 0xBF,
        local_flags: 0x8A3B,
        control_characters: vec![3, 28, 127, 21, 4, 0, 1, 0, 17, 19, 26],
    }
}

/// A setup that has asked for the attributes of the output.
fn querying_output() -> ProcessSession {
    let mut session = ProcessSession::new();
    assert_eq!(session.step(SessionEvent::Started), SessionAction::Query(StandardStream::Input));
    assert_eq!(
        session.step(SessionEvent::Attributes(Some(attributes()))),
        SessionAction::Query(StandardStream::Output)
    );
    session
}

#[test]
fn the_geometry_is_fixed() {
    assert_eq!(COLUMNS, 55);
    assert_eq!(ROWS, 30);
    assert_eq!(
        fixed_geometry(),
        Geometry { columns: 55, rows: 30, width_in_pixels: 0, height_in_pixels: 0 }
    );
}

#[test]
fn a_session_is_set_up_step_by_step() {
    let mut session = querying_output();
    assert_eq!(
        session.step(SessionEvent::Attributes(Some(attributes()))),
        SessionAction::Allocate(fixed_geometry(), attributes())
    );
    assert_eq!(session.step(SessionEvent::Allocated), SessionAction::Spawn);
    assert_eq!(session.step(SessionEvent::Spawned), SessionAction::Ready);
    assert_eq!(session.step(SessionEvent::Spawned), SessionAction::Ready);
    assert_eq!(session.step(SessionEvent::Started), SessionAction::Ready);
}

#[test]
fn unknown_attributes_end_the_attempt() {
    let mut session = ProcessSession::new();
    session.step(SessionEvent::Started);
    assert_eq!(
        session.step(SessionEvent::Attributes(None)),
        SessionAction::Fail(SessionError::AttributeQueryFailed)
    );
    assert_eq!(
        session.step(SessionEvent::Attributes(Some(attributes()))),
        SessionAction::Fail(SessionError::AttributeQueryFailed)
    );

    let mut session = querying_output();
    assert_eq!(
        session.step(SessionEvent::Attributes(None)),
        SessionAction::Fail(SessionError::AttributeQueryFailed)
    );
}

#[test]
fn differing_attributes_end_the_attempt() {
    let mut flags = attributes();
    flags.local_flags ^= 0x8;
    let mut characters = attributes();
    characters.control_characters[2] = 8;
    let mut shorter = attributes();
    shorter.control_characters.pop();
    let mut input = attributes();
    input.input_flags += 1;
    let mut output = attributes();
    output.output_flags = 0;
    let mut control = attributes();
    control.control_flags = 0;

    for other in [flags, characters, shorter, input, output, control] {
        let mut session = querying_output();
        assert_eq!(
            session.step(SessionEvent::Attributes(Some(other))),
            SessionAction::Fail(SessionError::AttributeMismatch)
        );
        assert_eq!(
            session.step(SessionEvent::Allocated),
            SessionAction::Fail(SessionError::AttributeMismatch)
        );
    }
}

#[test]
fn attributes_match_field_by_field() {
    let base = attributes();
    assert!(base.matches(&attributes()));
    let mut other = attributes();
    other.control_characters[10] = 0;
    assert!(!base.matches(&other));
    assert!(!other.matches(&base));
    let mut longer = attributes();
    longer.control_characters.push(0);
    assert!(!base.matches(&longer));
    let mut flags = attributes();
    flags.control_flags = 0xBE;
    assert!(!base.matches(&flags));
}

#[test]
fn a_failed_allocation_ends_the_attempt() {
    let mut session = querying_output();
    session.step(SessionEvent::Attributes(Some(attributes())));
    assert_eq!(
        session.step(SessionEvent::AllocationFailed),
        SessionAction::Fail(SessionError::AllocationFailed)
    );
    assert_eq!(
        session.step(SessionEvent::Spawned),
        SessionAction::Fail(SessionError::AllocationFailed)
    );
}

#[test]
fn a_failed_spawn_ends_the_attempt() {
    let mut session = querying_output();
    session.step(SessionEvent::Attributes(Some(attributes())));
    session.step(SessionEvent::Allocated);
    assert_eq!(
        session.step(SessionEvent::SpawnFailed),
        SessionAction::Fail(SessionError::SpawnFailed)
    );
}

#[test]
fn a_setup_takes_its_events_in_turn() {
    let mut session = ProcessSession::new();
    assert_eq!(
        session.step(SessionEvent::Allocated),
        SessionAction::Fail(SessionError::OutOfTurn)
    );

    let mut session = querying_output();
    assert_eq!(
        session.step(SessionEvent::Spawned),
        SessionAction::Fail(SessionError::OutOfTurn)
    );

    let mut session = querying_output();
    session.step(SessionEvent::Attributes(Some(attributes())));
    assert_eq!(
        session.step(SessionEvent::Attributes(Some(attributes()))),
        SessionAction::Fail(SessionError::OutOfTurn)
    );
}
