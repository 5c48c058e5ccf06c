//! Setting up the wrapped program: what is asked of the operating system, in
//! which order, and which failure ends the attempt.
//!
//! The terminal of the host is described by plain numbers, so that what the
//! host reports for its input and for its output can be compared here.

use vstd::prelude::*;

verus! {

/// The width of every pseudo-terminal, in columns.
pub const COLUMNS: u16 = 55;

/// The height of every pseudo-terminal, in rows.
pub const ROWS: u16 = 30;

/// The size of a terminal window.
#[derive(Clone, Copy, Debug, PartialEq, Eq)]
pub struct Geometry {
    pub columns: u16,
    pub rows: u16,
    pub width_in_pixels: u16,
    pub height_in_pixels: u16,
}

/// The size that every session gets. It is never changed afterwards.
pub open spec fn spec_fixed_geometry() -> Geometry {
    Geometry { columns: COLUMNS, rows: ROWS, width_in_pixels: 0, height_in_pixels: 0 }
}

#[verifier::when_used_as_spec(spec_fixed_geometry)]
pub fn fixed_geometry() -> (geometry: Geometry)
    ensures
        geometry == spec_fixed_geometry(),
{
    Geometry { columns: COLUMNS, rows: ROWS, width_in_pixels: 0, height_in_pixels: 0 }
}

/// The attributes of a terminal: its four words of flags and its control
/// characters.
#[derive(Clone, Debug, PartialEq, Eq)]
pub struct TerminalAttributes {
    pub input_flags: u64,
    pub output_flags: u64,
    pub control_flags: u64,
    pub local_flags: u64,
    pub control_characters: Vec<u8>,
}

/// `TerminalAttributes` with the control characters as a sequence.
pub struct TerminalAttributesView {
    pub input_flags: u64,
    pub output_flags: u64,
    pub control_flags: u64,
    pub local_flags: u64,
    pub control_characters: Seq<u8>,
}

impl View for TerminalAttributes {
    type V = TerminalAttributesView;

    open spec fn view(&self) -> TerminalAttributesView {
        TerminalAttributesView {
            input_flags: self.input_flags,
            output_flags: self.output_flags,
            control_flags: self.control_flags,
            local_flags: self.local_flags,
            control_characters: self.control_characters@,
        }
    }
}

impl TerminalAttributes {
    /// Whether two terminals have the same attributes throughout.
    pub fn matches(&self, other: &TerminalAttributes) -> (same: bool)
        ensures
            same == (self@ == other@),
    {
        if self.input_flags != other.input_flags || self.output_flags != other.output_flags
            || self.control_flags != other.control_flags || self.local_flags
            != other.local_flags {
            return false;
        }
        let count: usize = self.control_characters.len();
        if other.control_characters.len() != count {
            return false;
        }
        let mut i: usize = 0;
        while i < count
            invariant
                i <= count,
                count == self.control_characters.len(),
                count == other.control_characters.len(),
                forall|j: int|
                    0 <= j < i ==> self.control_characters@[j] == other.control_characters@[j],
            decreases count - i,
        {
            if self.control_characters[i] != other.control_characters[i] {
                return false;
            }
            i = i + 1;
        }
        assert(self.control_characters@ =~= other.control_characters@);
        true
    }
}

/// Why a session could not be set up. Each of these ends the attempt.
#[derive(Clone, Copy, Debug, PartialEq, Eq)]
pub enum SessionError {
    /// The host could not say what the attributes of its input or output are.
    AttributeQueryFailed,
    /// The host's input and output have different attributes.
    AttributeMismatch,
    /// No pseudo-terminal could be had.
    AllocationFailed,
    /// The program could not be started.
    SpawnFailed,
    /// The driver reported something that the setup had not asked for.
    OutOfTurn,
}

/// One of the host's own standard streams.
#[derive(Clone, Copy, Debug, PartialEq, Eq)]
pub enum StandardStream {
    Input,
    Output,
}

/// Where a setup stands.
pub enum SessionState {
    /// Made and not yet started.
    Idle,
    /// The attributes of the host's input were asked for.
    QueryingInput,
    /// The input has these attributes, and those of the output were asked for.
    QueryingOutput(TerminalAttributesView),
    /// The pseudo-terminal was asked for.
    Allocating,
    /// The start of the program was asked for.
    Spawning,
    /// The program runs on its pseudo-terminal.
    Ready,
    Failed(SessionError),
}

/// What the driver reports to a setup.
#[derive(Debug)]
pub enum SessionEvent {
    Started,
    /// The answer to a query: the attributes, or nothing where the host could
    /// not tell.
    Attributes(Option<TerminalAttributes>),
    Allocated,
    AllocationFailed,
    Spawned,
    SpawnFailed,
}

/// A `SessionEvent` with the attributes by their view.
pub enum SessionEventView {
    Started,
    Attributes(Option<TerminalAttributesView>),
    Allocated,
    AllocationFailed,
    Spawned,
    SpawnFailed,
}

impl View for SessionEvent {
    type V = SessionEventView;

    open spec fn view(&self) -> SessionEventView {
        match *self {
            SessionEvent::Started => SessionEventView::Started,
            SessionEvent::Attributes(None) => SessionEventView::Attributes(None),
            SessionEvent::Attributes(Some(attributes)) => SessionEventView::Attributes(
                Some(attributes@),
            ),
            SessionEvent::Allocated => SessionEventView::Allocated,
            SessionEvent::AllocationFailed => SessionEventView::AllocationFailed,
            SessionEvent::Spawned => SessionEventView::Spawned,
            SessionEvent::SpawnFailed => SessionEventView::SpawnFailed,
        }
    }
}

/// What a setup asks its driver to do.
#[derive(Clone, Debug, PartialEq, Eq)]
pub enum SessionAction {
    /// Ask the host for the attributes of this stream.
    Query(StandardStream),
    /// Allocate a pseudo-terminal of this size and with these attributes.
    Allocate(Geometry, TerminalAttributes),
    /// Start the program with its input, its output and its error stream on
    /// the secondary side of the pseudo-terminal, each on a descriptor of its
    /// own.
    Spawn,
    /// The session is set up: the primary side of the pseudo-terminal carries
    /// the program's output one way and its input the other.
    Ready,
    /// Give the attempt up.
    Fail(SessionError),
}

/// A `SessionAction` with the attributes by their view.
pub enum SessionActionView {
    Query(StandardStream),
    Allocate(Geometry, TerminalAttributesView),
    Spawn,
    Ready,
    Fail(SessionError),
}

impl View for SessionAction {
    type V = SessionActionView;

    open spec fn view(&self) -> SessionActionView {
        match *self {
            SessionAction::Query(stream) => SessionActionView::Query(stream),
            SessionAction::Allocate(geometry, attributes) => SessionActionView::Allocate(
                geometry,
                attributes@,
            ),
            SessionAction::Spawn => SessionActionView::Spawn,
            SessionAction::Ready => SessionActionView::Ready,
            SessionAction::Fail(error) => SessionActionView::Fail(error),
        }
    }
}

/// The state and the action with which a setup gives up.
pub open spec fn abandon(error: SessionError) -> (SessionState, SessionActionView) {
    (SessionState::Failed(error), SessionActionView::Fail(error))
}

/// One step of a setup: the state and the action that follow from a state and
/// an event.
///
/// The attributes of the host's input are asked for first, then those of its
/// output. Only if both are known and equal is a pseudo-terminal allocated: of
/// the fixed size and with those attributes. Then the program is started. The
/// first failure ends the attempt, and so does an event out of turn.
pub open spec fn arrange(state: SessionState, event: SessionEventView) -> (
    SessionState,
    SessionActionView,
) {
    match state {
        SessionState::Idle => match event {
            SessionEventView::Started => (
                SessionState::QueryingInput,
                SessionActionView::Query(StandardStream::Input),
            ),
            _ => abandon(SessionError::OutOfTurn),
        },
        SessionState::QueryingInput => match event {
            SessionEventView::Attributes(Some(input)) => (
                SessionState::QueryingOutput(input),
                SessionActionView::Query(StandardStream::Output),
            ),
            SessionEventView::Attributes(None) => abandon(SessionError::AttributeQueryFailed),
            _ => abandon(SessionError::OutOfTurn),
        },
        SessionState::QueryingOutput(input) => match event {
            SessionEventView::Attributes(Some(output)) => if output == input {
                (
                    SessionState::Allocating,
                    SessionActionView::Allocate(spec_fixed_geometry(), output),
                )
            } else {
                abandon(SessionError::AttributeMismatch)
            },
            SessionEventView::Attributes(None) => abandon(SessionError::AttributeQueryFailed),
            _ => abandon(SessionError::OutOfTurn),
        },
        SessionState::Allocating => match event {
            SessionEventView::Allocated => (SessionState::Spawning, SessionActionView::Spawn),
            SessionEventView::AllocationFailed => abandon(SessionError::AllocationFailed),
            _ => abandon(SessionError::OutOfTurn),
        },
        SessionState::Spawning => match event {
            SessionEventView::Spawned => (SessionState::Ready, SessionActionView::Ready),
            SessionEventView::SpawnFailed => abandon(SessionError::SpawnFailed),
            _ => abandon(SessionError::OutOfTurn),
        },
        SessionState::Ready => (SessionState::Ready, SessionActionView::Ready),
        SessionState::Failed(error) => abandon(error),
    }
}

/// The part of a setup's state that holds no attributes.
#[derive(Clone, Copy, Debug, PartialEq, Eq)]
enum Phase {
    Idle,
    QueryingInput,
    QueryingOutput,
    Allocating,
    Spawning,
    Ready,
    Failed(SessionError),
}

/// The setup of one session.
pub struct ProcessSession {
    phase: Phase,
    /// The attributes of the host's input, once they are known.
    input: Option<TerminalAttributes>,
}

impl ProcessSession {
    /// Where the setup stands.
    pub closed spec fn state(&self) -> SessionState {
        match self.phase {
            Phase::Idle => SessionState::Idle,
            Phase::QueryingInput => SessionState::QueryingInput,
            Phase::QueryingOutput => match self.input {
                Some(input) => SessionState::QueryingOutput(input@),
                None => SessionState::Failed(SessionError::OutOfTurn),
            },
            Phase::Allocating => SessionState::Allocating,
            Phase::Spawning => SessionState::Spawning,
            Phase::Ready => SessionState::Ready,
            Phase::Failed(error) => SessionState::Failed(error),
        }
    }

    /// Makes a setup that has asked for nothing yet.
    pub fn new() -> (session: Self)
        ensures
            session.state() == SessionState::Idle,
    {
        ProcessSession { phase: Phase::Idle, input: None }
    }

    fn fail(&mut self, error: SessionError) -> (action: SessionAction)
        ensures
            (final(self).state(), action@) == abandon(error),
    {
        self.phase = Phase::Failed(error);
        SessionAction::Fail(error)
    }

    /// Takes one step, as `arrange` describes it.
    pub fn step(&mut self, event: SessionEvent) -> (action: SessionAction)
        ensures
            (final(self).state(), action@) == arrange(old(self).state(), event@),
    {
        match self.phase {
            Phase::Idle => match event {
                SessionEvent::Started => {
                    self.phase = Phase::QueryingInput;
                    SessionAction::Query(StandardStream::Input)
                },
                _ => self.fail(SessionError::OutOfTurn),
            },
            Phase::QueryingInput => match event {
                SessionEvent::Attributes(Some(input)) => {
                    self.input = Some(input);
                    self.phase = Phase::QueryingOutput;
                    SessionAction::Query(StandardStream::Output)
                },
                SessionEvent::Attributes(None) => self.fail(SessionError::AttributeQueryFailed),
                _ => self.fail(SessionError::OutOfTurn),
            },
            Phase::QueryingOutput => match &self.input {
                Some(input) => match event {
                    SessionEvent::Attributes(Some(output)) => {
                        if output.matches(input) {
                            self.phase = Phase::Allocating;
                            SessionAction::Allocate(fixed_geometry(), output)
                        } else {
                            self.fail(SessionError::AttributeMismatch)
                        }
                    },
                    SessionEvent::Attributes(None) => self.fail(
                        SessionError::AttributeQueryFailed,
                    ),
                    _ => self.fail(SessionError::OutOfTurn),
                },
                None => self.fail(SessionError::OutOfTurn),
            },
            Phase::Allocating => match event {
                SessionEvent::Allocated => {
                    self.phase = Phase::Spawning;
                    SessionAction::Spawn
                },
                SessionEvent::AllocationFailed => self.fail(SessionError::AllocationFailed),
                _ => self.fail(SessionError::OutOfTurn),
            },
            Phase::Spawning => match event {
                SessionEvent::Spawned => {
                    self.phase = Phase::Ready;
                    SessionAction::Ready
                },
                SessionEvent::SpawnFailed => self.fail(SessionError::SpawnFailed),
                _ => self.fail(SessionError::OutOfTurn),
            },
            Phase::Ready => SessionAction::Ready,
            Phase::Failed(error) => SessionAction::Fail(error),
        }
    }
}

} // verus!
