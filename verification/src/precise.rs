//! The detection engine client: the session with the external wake-word
//! process, without the process itself. The client decides what is written to
//! the process and what its answers mean; whoever owns the pipes performs the
//! writes and reads and reports what came of them.

use crate::wire::{encode_chunk, line_text, parse_line, payload_of, LineError};
use vstd::prelude::*;

verus! {

/// Where a session with the engine stands.
#[derive(Clone, Copy, Debug, PartialEq, Eq, Structural)]
pub enum EngineState {
    /// The process has not been spawned yet.
    NotStarted,
    /// The process runs and takes chunks.
    Running,
    /// The session was torn down.
    Stopped,
}

/// Why the engine client refused or failed.
#[derive(Clone, Copy, Debug, PartialEq, Eq, Structural)]
pub enum EngineError {
    /// The chunk does not have the configured number of samples.
    ChunkSizeMismatch,
    /// The session is not running: it was never started, or it was stopped.
    EngineNotRunning,
    /// The process could not be launched.
    EngineSpawnError,
    /// The pipe to the process broke, or its output ended.
    EngineCrashed,
    /// The process answered with something that is not one line of text.
    MalformedResponse,
}

impl EngineError {
    /// What the error says, in words.
    pub open spec fn spec_message(&self) -> Seq<char> {
        match self {
            EngineError::ChunkSizeMismatch => "audio data length doesn't match the expected chunk size"@,
            EngineError::EngineNotRunning => "the detection engine is not running"@,
            EngineError::EngineSpawnError => "the detection engine could not be started"@,
            EngineError::EngineCrashed => "the detection engine closed its pipe"@,
            EngineError::MalformedResponse => "the detection engine sent a malformed response"@,
        }
    }

    /// What the error says, in words.
    pub fn message(&self) -> (text: &'static str)
        ensures
            text@ == self.spec_message(),
    {
        match self {
            EngineError::ChunkSizeMismatch => "audio data length doesn't match the expected chunk size",
            EngineError::EngineNotRunning => "the detection engine is not running",
            EngineError::EngineSpawnError => "the detection engine could not be started",
            EngineError::EngineCrashed => "the detection engine closed its pipe",
            EngineError::MalformedResponse => "the detection engine sent a malformed response",
        }
    }
}

/// What an exchange with the process gave, as seen by whoever owns the pipes.
#[derive(Debug, PartialEq, Eq)]
pub enum PipeReply {
    /// Writing the chunk, flushing, or reading the answer failed.
    Broken,
    /// The bytes that a read up to the next newline returned. They are empty,
    /// or lack the newline, when the output ended first.
    Read(Vec<u8>),
}

/// The engine's answer to one chunk: the text of its response line.
#[derive(Debug, PartialEq, Eq)]
pub struct Prediction {
    text: String,
}

impl View for Prediction {
    type V = Seq<char>;

    closed spec fn view(&self) -> Seq<char> {
        self.text@
    }
}

impl Prediction {
    /// The text of the response line, without the newline.
    pub fn text(&self) -> (text: &String)
        ensures
            text@ == self@,
    {
        &self.text
    }
}

/// The character of a decimal digit.
pub open spec fn digit(d: nat) -> char {
    (0x30 + d) as char
}

/// A number written in decimal, without sign or leading zeros.
pub open spec fn decimal(n: nat) -> Seq<char>
    decreases n,
{
    if n < 10 {
        seq![digit(n)]
    } else {
        decimal(n / 10).push(digit(n % 10))
    }
}

/// `usize::to_string`: the number written in decimal.
#[verifier::external_body]
fn decimal_string(n: usize) -> (text: String)
    ensures
        text@ == decimal(n as nat),
{
    n.to_string()
}

/// A session with the detection engine.
pub struct PreciseEngine {
    model: String,
    chunk_size: usize,
    state: EngineState,
}

/// The outcome of offering a chunk of the given length to a session: the
/// length is checked first, then the state.
pub open spec fn admission(state: EngineState, chunk_size: nat, len: nat) -> Result<(), EngineError> {
    if len != chunk_size {
        Err(EngineError::ChunkSizeMismatch)
    } else if state != EngineState::Running {
        Err(EngineError::EngineNotRunning)
    } else {
        Ok(())
    }
}

/// What a reply means to a session in the given state: the text of the
/// response line, or the error that the reply amounts to.
pub open spec fn reading(state: EngineState, reply: PipeReply) -> Result<Seq<char>, EngineError> {
    if state != EngineState::Running {
        Err(EngineError::EngineNotRunning)
    } else {
        match reply {
            PipeReply::Broken => Err(EngineError::EngineCrashed),
            PipeReply::Read(bytes) => match line_text(bytes@) {
                Ok(text) => Ok(text),
                Err(LineError::Incomplete) => Err(EngineError::EngineCrashed),
                Err(LineError::Malformed) => Err(EngineError::MalformedResponse),
            },
        }
    }
}

/// The state that a report on the launch of the process leads to.
pub open spec fn state_after_launch(state: EngineState, spawned: bool) -> EngineState {
    if state == EngineState::NotStarted && spawned {
        EngineState::Running
    } else {
        state
    }
}

/// The state that a stop leads to: stopped, whatever the state was.
pub open spec fn state_after_stop(state: EngineState) -> EngineState {
    EngineState::Stopped
}

/// Whether a stop in the given state finds a process to kill.
pub open spec fn kills(state: EngineState) -> bool {
    state == EngineState::Running
}

impl PreciseEngine {
    /// The state of the session.
    pub closed spec fn spec_state(&self) -> EngineState {
        self.state
    }

    /// The number of samples that each chunk must have.
    pub closed spec fn spec_chunk_size(&self) -> nat {
        self.chunk_size as nat
    }

    /// The model that the process is started with.
    pub closed spec fn spec_model(&self) -> Seq<char> {
        self.model@
    }

    /// The state of the session.
    pub fn state(&self) -> (state: EngineState)
        ensures
            state == self.spec_state(),
    {
        self.state
    }

    /// The number of samples that each chunk must have.
    pub fn chunk_size(&self) -> (n: usize)
        ensures
            n == self.spec_chunk_size(),
    {
        self.chunk_size
    }

    /// The model that the process is started with.
    pub fn get_model(&self) -> (model: String)
        ensures
            model@ == self.spec_model(),
    {
        self.model.clone()
    }

    /// The arguments to launch the process with: the model, then the chunk
    /// size in decimal.
    pub fn launch_arguments(&self) -> (arguments: Vec<String>)
        ensures
            arguments@.len() == 2,
            arguments@[0]@ == self.spec_model(),
            arguments@[1]@ == decimal(self.spec_chunk_size()),
    {
        let mut arguments: Vec<String> = Vec::new();
        arguments.push(self.model.clone());
        arguments.push(decimal_string(self.chunk_size));
        arguments
    }

    /// Records how the launch of the process went. A session that has not
    /// been started and whose process was spawned is running from now on.
    /// A failed launch, and a launch reported to a session that was started
    /// before, is an error and changes nothing.
    pub fn launched(&mut self, spawned: bool) -> (r: Result<(), EngineError>)
        ensures
            final(self).spec_state() == state_after_launch(old(self).spec_state(), spawned),
            final(self).spec_chunk_size() == old(self).spec_chunk_size(),
            final(self).spec_model() == old(self).spec_model(),
            r is Ok <==> old(self).spec_state() == EngineState::NotStarted && spawned,
            r is Err ==> r == Err::<(), EngineError>(EngineError::EngineSpawnError),
    {
        if spawned && self.state == EngineState::NotStarted {
            self.state = EngineState::Running;
            Ok(())
        } else {
            Err(EngineError::EngineSpawnError)
        }
    }

    /// Takes a chunk for the engine and returns the bytes to write to the
    /// process's input. A chunk of the wrong length is refused with
    /// `ChunkSizeMismatch`, whatever the state; a chunk of the right length is
    /// refused with `EngineNotRunning` unless the session is running. A
    /// refused chunk yields no bytes, so nothing reaches the process.
    pub fn submit(&self, audio_data: &[i16]) -> (r: Result<Vec<u8>, EngineError>)
        ensures
            match admission(self.spec_state(), self.spec_chunk_size(), audio_data@.len()) {
                Ok(_) => r matches Ok(payload) && payload@ == payload_of(audio_data@),
                Err(error) => r == Err::<Vec<u8>, EngineError>(error),
            },
    {
        if audio_data.len() != self.chunk_size {
            Err(EngineError::ChunkSizeMismatch)
        } else if self.state != EngineState::Running {
            Err(EngineError::EngineNotRunning)
        } else {
            Ok(encode_chunk(audio_data))
        }
    }

    /// Interprets what the exchange for a submitted chunk gave. A broken pipe
    /// and an output that ended before the line did are `EngineCrashed`; a
    /// line that is not one line of UTF-8 text is `MalformedResponse`; any
    /// other line is the prediction.
    pub fn get_prediction(&self, reply: PipeReply) -> (r: Result<Prediction, EngineError>)
        ensures
            match reading(self.spec_state(), reply) {
                Ok(text) => r matches Ok(prediction) && prediction@ == text,
                Err(error) => r == Err::<Prediction, EngineError>(error),
            },
    {
        if self.state != EngineState::Running {
            return Err(EngineError::EngineNotRunning);
        }
        match reply {
            PipeReply::Broken => Err(EngineError::EngineCrashed),
            PipeReply::Read(bytes) => match parse_line(bytes) {
                Ok(text) => Ok(Prediction { text }),
                Err(LineError::Incomplete) => Err(EngineError::EngineCrashed),
                Err(LineError::Malformed) => Err(EngineError::MalformedResponse),
            },
        }
    }

    /// Ends the session. Returns whether the process is to be killed now,
    /// which is the case when the session was running. Stopping a session
    /// that is already stopped changes nothing and asks for nothing.
    pub fn stop(&mut self) -> (kill: bool)
        ensures
            final(self).spec_state() == state_after_stop(old(self).spec_state()),
            final(self).spec_chunk_size() == old(self).spec_chunk_size(),
            final(self).spec_model() == old(self).spec_model(),
            kill == kills(old(self).spec_state()),
    {
        let kill = self.state == EngineState::Running;
        self.state = EngineState::Stopped;
        kill
    }
}

/// A session for the given model and chunk size, not started yet.
pub fn get_runner(model: String, chunk_size: usize) -> (engine: PreciseEngine)
    ensures
        engine.spec_state() == EngineState::NotStarted,
        engine.spec_chunk_size() == chunk_size,
        engine.spec_model() == model@,
{
    PreciseEngine { model, chunk_size, state: EngineState::NotStarted }
}

/// A chunk of the wrong length is refused with `ChunkSizeMismatch` in every
/// state, and a refused chunk is never encoded.
pub proof fn lemma_wrong_length_is_refused(state: EngineState, chunk_size: nat, len: nat)
    requires
        len != chunk_size,
    ensures
        admission(state, chunk_size, len) == Err::<(), EngineError>(EngineError::ChunkSizeMismatch),
{
}

/// A stop is final. After it a chunk of the right length is refused with
/// `EngineNotRunning`, a reply is answered with `EngineNotRunning`, and no
/// report of a launch brings the session back. A second stop changes nothing
/// and finds nothing to kill.
pub proof fn lemma_stop_is_final(state: EngineState, chunk_size: nat, reply: PipeReply, spawned: bool)
    ensures
        admission(state_after_stop(state), chunk_size, chunk_size) == Err::<(), EngineError>(
            EngineError::EngineNotRunning,
        ),
        reading(state_after_stop(state), reply) == Err::<Seq<char>, EngineError>(
            EngineError::EngineNotRunning,
        ),
        state_after_launch(state_after_stop(state), spawned) == state_after_stop(state),
        state_after_stop(state_after_stop(state)) == state_after_stop(state),
        !kills(state_after_stop(state)),
{
}

/// When an answer of the engine counts as the wake word.
#[derive(Debug, PartialEq, Eq)]
pub enum TriggerPolicy {
    /// No answer does: listening goes on until something else ends it.
    Never,
    /// The answer whose text is exactly the given one does.
    Exactly(String),
}

impl TriggerPolicy {
    /// Whether an answer with the given text counts as the wake word.
    pub open spec fn spec_triggers(&self, text: Seq<char>) -> bool {
        match self {
            TriggerPolicy::Never => false,
            TriggerPolicy::Exactly(wanted) => wanted@ == text,
        }
    }

    /// Whether a prediction counts as the wake word.
    pub fn triggers(&self, prediction: &Prediction) -> (triggered: bool)
        ensures
            triggered == self.spec_triggers(prediction@),
    {
        match self {
            TriggerPolicy::Never => false,
            TriggerPolicy::Exactly(wanted) => *wanted == prediction.text,
        }
    }
}

} // verus!
