//! Telnet events and the bytes that stand for them on the wire.

use vstd::prelude::*;

verus! {

/// "Interpret as command": the byte that introduces every command and every
/// negotiation. A data byte of this value travels doubled.
pub const IAC: u8 = 255;

/// A capability that the two ends of a connection can switch on or off.
#[derive(Clone, Copy, Debug, PartialEq, Eq, Hash)]
pub enum TelnetOption {
    BinaryTransmission,
    Echo,
    SuppressGoAhead,
    Status,
    TimingMark,
    TerminalType,
    NegotiateAboutWindowSize,
    TerminalSpeed,
    RemoteFlowControl,
    Linemode,
}

/// A command that is complete in the one byte behind the introducer.
#[derive(Clone, Copy, Debug, PartialEq, Eq, Hash)]
pub enum TelnetCommand {
    Nop,
    DataMark,
    Break,
    InterruptProcess,
    AbortOutput,
    AreYouThere,
    EraseCharacter,
    EraseLine,
    GoAhead,
}

/// What a negotiation says about its option.
#[derive(Clone, Copy, Debug, PartialEq, Eq, Hash)]
pub enum NegotiationVerb {
    /// The sender offers to use the option itself.
    Will,
    /// The sender refuses to use the option itself.
    Wont,
    /// The sender asks the receiver to use the option.
    Do,
    /// The sender asks the receiver not to use the option.
    Dont,
}

/// One unit of the protocol.
#[derive(Clone, Debug, PartialEq, Eq)]
pub enum TelnetEvent {
    /// Application payload.
    Data(Vec<u8>),
    Command(TelnetCommand),
    Negotiation(NegotiationVerb, TelnetOption),
}

/// A `TelnetEvent` with its payload as a sequence.
pub enum EventView {
    Data(Seq<u8>),
    Command(TelnetCommand),
    Negotiation(NegotiationVerb, TelnetOption),
}

impl View for TelnetEvent {
    type V = EventView;

    open spec fn view(&self) -> EventView {
        match *self {
            TelnetEvent::Data(payload) => EventView::Data(payload@),
            TelnetEvent::Command(command) => EventView::Command(command),
            TelnetEvent::Negotiation(verb, option) => EventView::Negotiation(verb, option),
        }
    }
}

impl TelnetOption {
    /// The number that names the option on the wire.
    pub open spec fn spec_code(self) -> u8 {
        match self {
            TelnetOption::BinaryTransmission => 0,
            TelnetOption::Echo => 1,
            TelnetOption::SuppressGoAhead => 3,
            TelnetOption::Status => 5,
            TelnetOption::TimingMark => 6,
            TelnetOption::TerminalType => 24,
            TelnetOption::NegotiateAboutWindowSize => 31,
            TelnetOption::TerminalSpeed => 32,
            TelnetOption::RemoteFlowControl => 33,
            TelnetOption::Linemode => 34,
        }
    }

    #[verifier::when_used_as_spec(spec_code)]
    pub fn code(self) -> (code: u8)
        ensures
            code == self.spec_code(),
    {
        match self {
            TelnetOption::BinaryTransmission => 0,
            TelnetOption::Echo => 1,
            TelnetOption::SuppressGoAhead => 3,
            TelnetOption::Status => 5,
            TelnetOption::TimingMark => 6,
            TelnetOption::TerminalType => 24,
            TelnetOption::NegotiateAboutWindowSize => 31,
            TelnetOption::TerminalSpeed => 32,
            TelnetOption::RemoteFlowControl => 33,
            TelnetOption::Linemode => 34,
        }
    }
}

impl TelnetCommand {
    /// The byte that follows the introducer for this command.
    pub open spec fn spec_code(self) -> u8 {
        match self {
            TelnetCommand::Nop => 241,
            TelnetCommand::DataMark => 242,
            TelnetCommand::Break => 243,
            TelnetCommand::InterruptProcess => 244,
            TelnetCommand::AbortOutput => 245,
            TelnetCommand::AreYouThere => 246,
            TelnetCommand::EraseCharacter => 247,
            TelnetCommand::EraseLine => 248,
            TelnetCommand::GoAhead => 249,
        }
    }

    #[verifier::when_used_as_spec(spec_code)]
    pub fn code(self) -> (code: u8)
        ensures
            code == self.spec_code(),
    {
        match self {
            TelnetCommand::Nop => 241,
            TelnetCommand::DataMark => 242,
            TelnetCommand::Break => 243,
            TelnetCommand::InterruptProcess => 244,
            TelnetCommand::AbortOutput => 245,
            TelnetCommand::AreYouThere => 246,
            TelnetCommand::EraseCharacter => 247,
            TelnetCommand::EraseLine => 248,
            TelnetCommand::GoAhead => 249,
        }
    }
}

impl NegotiationVerb {
    /// The byte that follows the introducer for this verb.
    pub open spec fn spec_code(self) -> u8 {
        match self {
            NegotiationVerb::Will => 251,
            NegotiationVerb::Wont => 252,
            NegotiationVerb::Do => 253,
            NegotiationVerb::Dont => 254,
        }
    }

    #[verifier::when_used_as_spec(spec_code)]
    pub fn code(self) -> (code: u8)
        ensures
            code == self.spec_code(),
    {
        match self {
            NegotiationVerb::Will => 251,
            NegotiationVerb::Wont => 252,
            NegotiationVerb::Do => 253,
            NegotiationVerb::Dont => 254,
        }
    }
}

/// The bytes that carry an event. A payload goes out as it is: nothing in it is
/// doubled. A command is the introducer and its code, a negotiation the
/// introducer, the verb's code and the option's code.
pub open spec fn wire(event: EventView) -> Seq<u8> {
    match event {
        EventView::Data(payload) => payload,
        EventView::Command(command) => seq![IAC, command.spec_code()],
        EventView::Negotiation(verb, option) => seq![IAC, verb.spec_code(), option.spec_code()],
    }
}

impl TelnetEvent {
    /// The offer to use `option`.
    pub fn will(option: TelnetOption) -> (event: TelnetEvent)
        ensures
            event@ == EventView::Negotiation(NegotiationVerb::Will, option),
    {
        TelnetEvent::Negotiation(NegotiationVerb::Will, option)
    }

    /// The refusal to use `option`.
    pub fn wont(option: TelnetOption) -> (event: TelnetEvent)
        ensures
            event@ == EventView::Negotiation(NegotiationVerb::Wont, option),
    {
        TelnetEvent::Negotiation(NegotiationVerb::Wont, option)
    }

    /// The request that the other end use `option`.
    pub fn do_(option: TelnetOption) -> (event: TelnetEvent)
        ensures
            event@ == EventView::Negotiation(NegotiationVerb::Do, option),
    {
        TelnetEvent::Negotiation(NegotiationVerb::Do, option)
    }

    /// The request that the other end stop using `option`.
    pub fn dont(option: TelnetOption) -> (event: TelnetEvent)
        ensures
            event@ == EventView::Negotiation(NegotiationVerb::Dont, option),
    {
        TelnetEvent::Negotiation(NegotiationVerb::Dont, option)
    }

    /// Turns the event into the bytes that carry it.
    pub fn into_bytes(self) -> (bytes: Vec<u8>)
        ensures
            bytes@ == wire(self@),
    {
        match self {
            TelnetEvent::Data(payload) => payload,
            TelnetEvent::Command(command) => {
                let mut bytes: Vec<u8> = Vec::with_capacity(2);
                bytes.push(IAC);
                bytes.push(command.code());
                assert(bytes@ =~= wire(self@));
                bytes
            },
            TelnetEvent::Negotiation(verb, option) => {
                let mut bytes: Vec<u8> = Vec::with_capacity(3);
                bytes.push(IAC);
                bytes.push(verb.code());
                bytes.push(option.code());
                assert(bytes@ =~= wire(self@));
                bytes
            },
        }
    }
}

} // verus!
