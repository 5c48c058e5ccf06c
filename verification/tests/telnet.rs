use std::collections::VecDeque;

use telwrap::escape::escape_iacs;
use telwrap::protocol::{NegotiationVerb, TelnetCommand, TelnetEvent, TelnetOption, IAC};
use telwrap::telnet::{FramerInput, FramerStep, TelnetError, TelnetStream, BUFFER_SIZE};

/// The accessor of these tests: what each read will deliver, in turn. When
/// nothing is left the stream has ended.
type Reads = VecDeque<Vec<u8>>;

type Decoder = fn(&[u8]) -> Option<(TelnetEvent, usize)>;

fn verb_of(code: u8) -> Option<NegotiationVerb> {
    [NegotiationVerb::Will, NegotiationVerb::Wont, NegotiationVerb::Do, NegotiationVerb::Dont]
        .into_iter()
        .find(|verb| verb.code() == code)
}

fn option_of(code: u8) -> Option<TelnetOption> {
    [
        TelnetOption::BinaryTransmission,
        TelnetOption::Echo,
        TelnetOption::SuppressGoAhead,
        TelnetOption::Status,
        TelnetOption::TimingMark,
        TelnetOption::TerminalType,
        TelnetOption::NegotiateAboutWindowSize,
        TelnetOption::TerminalSpeed,
        TelnetOption::RemoteFlowControl,
        TelnetOption::Linemode,
    ]
    .into_iter()
    .find(|option| option.code() == code)
}

fn command_of(code: u8) -> Option<TelnetCommand> {
    [
        TelnetCommand::Nop,
        TelnetCommand::DataMark,
        TelnetCommand::Break,
        TelnetCommand::InterruptProcess,
        TelnetCommand::AbortOutput,
        TelnetCommand::AreYouThere,
        TelnetCommand::EraseCharacter,
        TelnetCommand::EraseLine,
        TelnetCommand::GoAhead,
    ]
    .into_iter()
    .find(|command| command.code() == code)
}

/// What stands at the front of `pending` if it is no payload.
fn control(pending: &[u8]) -> Option<(TelnetEvent, usize)> {
    if pending.len() < 2 {
        return None;
    }
    if let Some(verb) = verb_of(pending[1]) {
        if pending.len() < 3 {
            return None;
        }
        return option_of(pending[2]).map(|option| (TelnetEvent::Negotiation(verb, option), 3));
    }
    command_of(pending[1]).map(|command| (TelnetEvent::Command(command), 2))
}

/// A stand-in for a protocol engine that gathers all the payload it can see
/// into one event.
fn gathering(pending: &[u8]) -> Option<(TelnetEvent, usize)> {
    let mut payload = Vec::new();
    let mut at = 0;
    while at < pending.len() {
        if pending[at] != IAC {
            payload.push(pending[at]);
            at += 1;
        } else if at + 1 < pending.len() && pending[at + 1] == IAC {
            payload.push(IAC);
            at += 2;
        } else {
            break;
        }
    }
    if at > 0 {
        Some((TelnetEvent::Data(payload), at))
    } else {
        control(pending)
    }
}

/// A stand-in for a protocol engine that reports every byte of payload as an
/// event of its own, so that bytes behind it never change what it finds.
fn bytewise(pending: &[u8]) -> Option<(TelnetEvent, usize)> {
    if pending.is_empty() {
        None
    } else if pending[0] != IAC {
        Some((TelnetEvent::Data(vec![pending[0]]), 1))
    } else if pending.len() >= 2 && pending[1] == IAC {
        Some((TelnetEvent::Data(vec![IAC]), 2))
    } else {
        control(pending)
    }
}

/// Runs `next` to its end, as a driver does.
fn next_event(stream: &mut TelnetStream<Reads>, decoder: Decoder) -> Option<TelnetEvent> {
    let mut step = stream.poll_next(FramerInput::Started);
    loop {
        step = match step {
            FramerStep::Decode => {
                let found = decoder(stream.pending_bytes());
                stream.poll_next(FramerInput::Decoded(found))
            }
            FramerStep::Read(limit) => {
                let chunk = stream.accessor_mut().pop_front().unwrap_or_default();
                assert!(chunk.len() <= limit);
                stream.poll_next(FramerInput::Received(chunk))
            }
            FramerStep::Yield(event) => return event,
        };
    }
}

/// Every event up to the end of the stream.
fn all_events(stream: &mut TelnetStream<Reads>, decoder: Decoder) -> Vec<TelnetEvent> {
    let mut events = Vec::new();
    while let Some(event) = next_event(stream, decoder) {
        events.push(event);
    }
    events
}

/// Puts `frame` on the way to `stream`, cut into reads of at most `limit` bytes.
fn deliver(stream: &mut TelnetStream<Reads>, frame: &[u8], limit: usize) {
    for chunk in frame.chunks(limit) {
        stream.accessor_mut().push_back(chunk.to_vec());
    }
}

fn get_mock_objects() -> (TelnetStream<Reads>, TelnetStream<Reads>) {
    (TelnetStream::from_accessor(Reads::new()), TelnetStream::from_accessor(Reads::new()))
}

#[test]
fn send_string() {
    let (client, mut server) = get_mock_objects();

    let test_string = "Hello World!";
    let frame = client.send_str(test_string);
    assert_eq!(frame, b"Hello World!".to_vec());
    deliver(&mut server, &frame, BUFFER_SIZE);

    match next_event(&mut server, gathering).unwrap() {
        TelnetEvent::Data(data) => {
            assert_eq!(String::from_utf8_lossy(&data).to_string(), test_string);
        }
        _ => {
            panic!("Received telnet command but should have received data");
        }
    }
}

#[test]
fn send_events() {
    let (client, mut server) = get_mock_objects();

    let events = [
        TelnetEvent::Data(vec![0x42]),
        TelnetEvent::Command(TelnetCommand::Nop),
        TelnetEvent::will(TelnetOption::SuppressGoAhead),
        TelnetEvent::dont(TelnetOption::TimingMark),
        TelnetEvent::wont(TelnetOption::BinaryTransmission),
        TelnetEvent::do_(TelnetOption::NegotiateAboutWindowSize),
    ];

    for event in events {
        let frame = client.send_event(event.clone());
        deliver(&mut server, &frame, BUFFER_SIZE);
        assert_eq!(next_event(&mut server, gathering), Some(event));
    }
}

#[test]
fn three_events_arrive_in_order() {
    let (client, mut server) = get_mock_objects();
    let sent = vec![
        TelnetEvent::Data(vec![0x42]),
        TelnetEvent::Command(TelnetCommand::Nop),
        TelnetEvent::Negotiation(NegotiationVerb::Will, TelnetOption::SuppressGoAhead),
    ];
    let mut stream = Vec::new();
    for event in &sent {
        stream.extend(client.send_event(event.clone()));
    }
    assert_eq!(stream, vec![0x42, 255, 241, 255, 251, 3]);
    deliver(&mut server, &stream, BUFFER_SIZE);
    assert_eq!(all_events(&mut server, gathering), sent);
}

#[test]
fn frames_of_negotiations_are_exact() {
    let stream = TelnetStream::from_accessor(());
    assert_eq!(stream.send_will(TelnetOption::Echo), vec![255, 251, 1]);
    assert_eq!(stream.send_wont(TelnetOption::Status), vec![255, 252, 5]);
    assert_eq!(stream.send_do(TelnetOption::NegotiateAboutWindowSize), vec![255, 253, 31]);
    assert_eq!(stream.send_dont(TelnetOption::Linemode), vec![255, 254, 34]);
    assert_eq!(stream.send_event(TelnetEvent::Command(TelnetCommand::GoAhead)), vec![255, 249]);
    assert_eq!(stream.send_event(TelnetEvent::Data(vec![1, 2, 3])), vec![1, 2, 3]);
    assert_eq!(stream.send_event(TelnetEvent::Data(Vec::new())), Vec::<u8>::new());
}

#[test]
fn constructors_name_their_verb() {
    let option = TelnetOption::TerminalType;
    assert_eq!(TelnetEvent::will(option), TelnetEvent::Negotiation(NegotiationVerb::Will, option));
    assert_eq!(TelnetEvent::wont(option), TelnetEvent::Negotiation(NegotiationVerb::Wont, option));
    assert_eq!(TelnetEvent::do_(option), TelnetEvent::Negotiation(NegotiationVerb::Do, option));
    assert_eq!(TelnetEvent::dont(option), TelnetEvent::Negotiation(NegotiationVerb::Dont, option));
    assert_eq!(TelnetEvent::will(option).into_bytes(), vec![255, 251, 24]);
}

#[test]
fn codes_are_those_of_the_protocol() {
    assert_eq!(IAC, 0xFF);
    let options: Vec<u8> = (0..=255u8).filter(|code| option_of(*code).is_some()).collect();
    assert_eq!(options, vec![0, 1, 3, 5, 6, 24, 31, 32, 33, 34]);
    assert_eq!(TelnetOption::BinaryTransmission.code(), 0);
    assert_eq!(TelnetOption::Echo.code(), 1);
    assert_eq!(TelnetOption::SuppressGoAhead.code(), 3);
    assert_eq!(TelnetOption::Status.code(), 5);
    assert_eq!(TelnetOption::TimingMark.code(), 6);
    assert_eq!(TelnetOption::TerminalType.code(), 24);
    assert_eq!(TelnetOption::NegotiateAboutWindowSize.code(), 31);
    assert_eq!(TelnetOption::TerminalSpeed.code(), 32);
    assert_eq!(TelnetOption::RemoteFlowControl.code(), 33);
    assert_eq!(TelnetOption::Linemode.code(), 34);
    let commands: Vec<u8> = (0..=255u8).filter(|code| command_of(*code).is_some()).collect();
    assert_eq!(commands, vec![241, 242, 243, 244, 245, 246, 247, 248, 249]);
    assert_eq!(TelnetCommand::Nop.code(), 241);
    assert_eq!(TelnetCommand::GoAhead.code(), 249);
    assert_eq!(NegotiationVerb::Will.code(), 251);
    assert_eq!(NegotiationVerb::Wont.code(), 252);
    assert_eq!(NegotiationVerb::Do.code(), 253);
    assert_eq!(NegotiationVerb::Dont.code(), 254);
}

#[test]
fn send_data_doubles_nothing() {
    let stream = TelnetStream::from_accessor(());
    let payload = [0x42, 0xFF, 0x41];
    assert_eq!(stream.send_data(&payload), payload.to_vec());
    assert_eq!(stream.send_data(&[0xFF, 0xFF]), vec![0xFF, 0xFF]);
    assert_eq!(stream.send_data(&[]), Vec::<u8>::new());
}

#[test]
fn send_str_carries_the_bytes_of_the_text() {
    let stream = TelnetStream::from_accessor(());
    assert_eq!(stream.send_str(""), Vec::<u8>::new());
    assert_eq!(stream.send_str("a\r\n"), vec![0x61, 0x0D, 0x0A]);
    assert_eq!(stream.send_str("\u{ff}"), vec![0xC3, 0xBF]);
}

#[test]
fn escaped_payload_comes_back_whole() {
    let payloads: [&[u8]; 6] = [
        &[0x42, 0xFF, 0x41],
        &[0x42, 0xFF],
        &[0xFF],
        &[0xFF, 0xFF],
        &[0xFF, 0x00, 0xFF, 0xFF, 0x7F],
        b"Hello World!",
    ];
    for payload in payloads {
        let (_, mut server) = get_mock_objects();
        let frame = escape_iacs(payload);
        deliver(&mut server, &frame, BUFFER_SIZE);
        assert_eq!(all_events(&mut server, gathering), vec![TelnetEvent::Data(payload.to_vec())]);
    }
}

#[test]
fn raw_introducer_is_not_read_back() {
    let (client, mut server) = get_mock_objects();
    let payload = vec![0x42, 0xFF, 0x41];

    // Sent as it is, the introducer byte opens a command that does not exist:
    // what stands before it arrives, the rest never does.
    let frame = client.send_data(&payload);
    assert_eq!(frame, payload);
    deliver(&mut server, &frame, BUFFER_SIZE);
    assert_eq!(all_events(&mut server, gathering), vec![TelnetEvent::Data(vec![0x42])]);
    assert_eq!(server.pending_bytes(), &[0xFF, 0x41]);

    // Followed by a verb and an option it is read as a negotiation.
    let (_, mut server) = get_mock_objects();
    deliver(&mut server, &client.send_data(&[0xFF, 251, 1]), BUFFER_SIZE);
    assert_eq!(
        all_events(&mut server, gathering),
        vec![TelnetEvent::Negotiation(NegotiationVerb::Will, TelnetOption::Echo)]
    );

    // A payload that was escaped beforehand goes through the same path unharmed.
    let (_, mut server) = get_mock_objects();
    let frame = client.send_data(&escape_iacs(&payload));
    assert_eq!(frame, vec![0x42, 0xFF, 0xFF, 0x41]);
    deliver(&mut server, &frame, BUFFER_SIZE);
    assert_eq!(all_events(&mut server, gathering), vec![TelnetEvent::Data(payload)]);

    // Without an introducer byte both paths send the same.
    assert_eq!(client.send_data(b"plain"), escape_iacs(b"plain"));
}

#[test]
fn bytewise_reads_yield_the_same_events() {
    let client = TelnetStream::from_accessor(());
    let mut stream = Vec::new();
    stream.extend(client.send_will(TelnetOption::Echo));
    stream.extend(escape_iacs(&[0x41, 0xFF, 0x42]));
    stream.extend(client.send_event(TelnetEvent::Command(TelnetCommand::AreYouThere)));
    stream.extend(client.send_do(TelnetOption::NegotiateAboutWindowSize));
    stream.extend(client.send_str("ok"));

    let expected = vec![
        TelnetEvent::Negotiation(NegotiationVerb::Will, TelnetOption::Echo),
        TelnetEvent::Data(vec![0x41]),
        TelnetEvent::Data(vec![0xFF]),
        TelnetEvent::Data(vec![0x42]),
        TelnetEvent::Command(TelnetCommand::AreYouThere),
        TelnetEvent::Negotiation(NegotiationVerb::Do, TelnetOption::NegotiateAboutWindowSize),
        TelnetEvent::Data(vec![0x6F]),
        TelnetEvent::Data(vec![0x6B]),
    ];

    for limit in [1, 2, 3, 5, BUFFER_SIZE] {
        let mut server = TelnetStream::from_accessor(Reads::new());
        deliver(&mut server, &stream, limit);
        assert_eq!(all_events(&mut server, bytewise), expected);
    }
}

#[test]
fn a_gathering_decoder_shows_the_cuts() {
    let mut whole = TelnetStream::from_accessor(Reads::new());
    deliver(&mut whole, b"AB", BUFFER_SIZE);
    assert_eq!(all_events(&mut whole, gathering), vec![TelnetEvent::Data(vec![0x41, 0x42])]);

    let mut cut = TelnetStream::from_accessor(Reads::new());
    deliver(&mut cut, b"AB", 1);
    assert_eq!(
        all_events(&mut cut, gathering),
        vec![TelnetEvent::Data(vec![0x41]), TelnetEvent::Data(vec![0x42])]
    );
}

#[test]
fn a_frame_in_pieces_waits_in_the_buffer() {
    let mut server = TelnetStream::from_accessor(Reads::new());
    assert_eq!(server.pending_bytes(), &[] as &[u8]);

    assert_eq!(server.poll_next::<TelnetEvent>(FramerInput::Started), FramerStep::Decode);
    assert_eq!(server.poll_next::<TelnetEvent>(FramerInput::Decoded(None)), FramerStep::Read(16));
    assert_eq!(
        server.poll_next::<TelnetEvent>(FramerInput::Received(vec![255])),
        FramerStep::Decode
    );
    assert_eq!(server.pending_bytes(), &[255]);
    assert_eq!(gathering(server.pending_bytes()), None);
    assert_eq!(server.poll_next::<TelnetEvent>(FramerInput::Decoded(None)), FramerStep::Read(16));
    assert_eq!(
        server.poll_next::<TelnetEvent>(FramerInput::Received(vec![253, 31, 0x68, 0x69])),
        FramerStep::Decode
    );
    assert_eq!(server.pending_bytes(), &[255, 253, 31, 0x68, 0x69]);

    let found = gathering(server.pending_bytes());
    let event = TelnetEvent::Negotiation(NegotiationVerb::Do, TelnetOption::NegotiateAboutWindowSize);
    assert_eq!(found, Some((event.clone(), 3)));
    assert_eq!(server.poll_next(FramerInput::Decoded(found)), FramerStep::Yield(Some(event)));
    assert_eq!(server.pending_bytes(), &[0x68, 0x69]);

    // The next event is found without a read.
    assert!(server.accessor_mut().is_empty());
    assert_eq!(next_event(&mut server, gathering), Some(TelnetEvent::Data(vec![0x68, 0x69])));
    assert_eq!(server.pending_bytes(), &[] as &[u8]);
}

#[test]
fn an_empty_read_ends_the_stream() {
    let mut server = TelnetStream::from_accessor(Reads::new());
    server.poll_next::<TelnetEvent>(FramerInput::Received(vec![255]));
    assert_eq!(
        server.poll_next::<TelnetEvent>(FramerInput::Received(Vec::new())),
        FramerStep::Yield(None)
    );
    assert_eq!(server.pending_bytes(), &[255]);
    assert_eq!(next_event(&mut server, gathering), None);
}

#[test]
fn a_failed_read_ends_the_stream() {
    let mut server = TelnetStream::from_accessor(Reads::new());
    server.poll_next::<TelnetEvent>(FramerInput::Received(vec![1, 2]));
    assert_eq!(server.poll_next::<TelnetEvent>(FramerInput::ReadFailed), FramerStep::Yield(None));
    assert_eq!(server.pending_bytes(), &[1, 2]);
}

#[test]
fn the_accessor_is_carried_along() {
    let mut stream = TelnetStream::from_accessor(vec![7u8]);
    stream.accessor_mut().push(8);
    stream.poll_next::<TelnetEvent>(FramerInput::Received(vec![9]));
    assert_eq!(stream.accessor_mut().len(), 2);
    assert_eq!(stream.into_accessor(), vec![7, 8]);
}

#[test]
fn only_a_whole_write_passes() {
    let stream = TelnetStream::from_accessor(());
    assert_eq!(stream.check_written(3, 3), Ok(()));
    assert_eq!(stream.check_written(0, 0), Ok(()));
    assert_eq!(stream.check_written(3, 2), Err(TelnetError::ShortWrite));
    assert_eq!(stream.check_written(3, 0), Err(TelnetError::ShortWrite));
    assert_eq!(stream.check_written(3, 4), Err(TelnetError::ShortWrite));
}
