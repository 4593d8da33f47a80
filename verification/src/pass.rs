//! The pass orchestrator, as a state machine.
//!
//! A pass parses the current text, cleans the document and writes it back.
//! The caller makes the pass and reports its outcome; this module holds the
//! state of a run and decides what follows. A text that cannot be parsed ends
//! the run with an error. A document that cannot be cleaned ends the run
//! without one, on the text that this pass was given. A pass that wrote is
//! followed by another only in a multipass run, while the length still
//! changes and the limit allows.

use vstd::prelude::*;
use vstd::utf8::encode_utf8;

use crate::error::RunError;

verus! {

/// How a pass over a text ends, in the model.
pub enum PassModel {
    /// The engine rejected the text.
    ParseFailed,
    /// The engine parsed the text and gave up cleaning the document.
    CleanFailed,
    /// The engine parsed, cleaned and wrote the document: the bytes written.
    Written(Seq<u8>),
}

/// How a pass over the current text ended.
#[derive(Debug)]
pub enum PassOutcome {
    /// The text could not be parsed, with the engine's reason.
    ParseFailed(String),
    /// The document could not be cleaned.
    CleanFailed,
    /// The document was cleaned and written: the text written.
    Written(String),
}

impl View for PassOutcome {
    type V = PassModel;

    open spec fn view(&self) -> PassModel {
        match self {
            PassOutcome::ParseFailed(_) => PassModel::ParseFailed,
            PassOutcome::CleanFailed => PassModel::CleanFailed,
            PassOutcome::Written(text) => PassModel::Written(encode_utf8(text@)),
        }
    }
}

/// What follows a pass that wrote.
#[derive(Clone, Copy, Debug, PartialEq, Eq, Structural)]
pub enum Decision {
    /// The run ends on what the pass wrote.
    Stop,
    /// Another pass follows, over what the pass wrote.
    Repeat,
}

/// What follows a pass that wrote `written_len` bytes, after a pass that
/// wrote `prev_size` bytes (0 before the first pass), with `passes_left`
/// passes allowed to the run, the one that just ended included.
pub open spec fn decide_model(
    written_len: nat,
    prev_size: nat,
    multipass: bool,
    passes_left: nat,
) -> Decision {
    if !multipass || written_len == prev_size || passes_left <= 1 {
        Decision::Stop
    } else {
        Decision::Repeat
    }
}

/// Decides what follows a pass that wrote.
///
/// The run stops unless `multipass` is set, the length differs from that of
/// the pass before, and the limit allows another pass.
pub fn decide(written_len: usize, prev_size: usize, multipass: bool, passes_left: usize) -> (d:
    Decision)
    ensures
        d == decide_model(written_len as nat, prev_size as nat, multipass, passes_left as nat),
{
    if !multipass {
        // Without multipass, exactly one pass.
        Decision::Stop
    } else if written_len == prev_size {
        // The size is unchanged: the run has converged.
        Decision::Stop
    } else if passes_left <= 1 {
        Decision::Stop
    } else {
        Decision::Repeat
    }
}

/// The state of a run between two passes, in the model.
pub struct RunModel {
    /// The bytes of the current text: the input, or what the last pass wrote.
    pub text: Seq<u8>,
    /// The length of what the last pass wrote, 0 before the first pass.
    pub prev_size: nat,
    /// The passes that the run may still make.
    pub passes_left: nat,
    /// Whether passes are repeated.
    pub multipass: bool,
}

/// What a run does on the outcome of a pass, in the model.
pub enum StepModel {
    /// The run fails: the pass could not parse its text.
    Failed,
    /// The run ends on these bytes.
    Done(Seq<u8>),
    /// Another pass follows, from this state.
    Again(RunModel),
}

/// The state in which a run over `input` starts.
pub open spec fn start_model(input: Seq<u8>, multipass: bool, max_passes: nat) -> RunModel {
    RunModel { text: input, prev_size: 0, passes_left: max_passes, multipass }
}

/// What a run in `state` does on the outcome of the pass over its text.
pub open spec fn step_model(state: RunModel, outcome: PassModel) -> StepModel {
    match outcome {
        PassModel::ParseFailed => StepModel::Failed,
        PassModel::CleanFailed => StepModel::Done(state.text),
        PassModel::Written(bytes) => match decide_model(
            bytes.len(),
            state.prev_size,
            state.multipass,
            state.passes_left,
        ) {
            Decision::Stop => StepModel::Done(bytes),
            Decision::Repeat => StepModel::Again(
                RunModel {
                    text: bytes,
                    prev_size: bytes.len(),
                    passes_left: (state.passes_left - 1) as nat,
                    multipass: state.multipass,
                },
            ),
        },
    }
}

/// The result of a run from `state` with an engine whose passes are the
/// function `pass`: the final bytes, or `None` where some pass fails to
/// parse.
///
/// At least one pass is made, whatever the limit.
pub open spec fn run_from(pass: spec_fn(Seq<u8>) -> PassModel, state: RunModel) -> Option<Seq<u8>>
    decreases state.passes_left,
{
    match step_model(state, pass(state.text)) {
        StepModel::Failed => None,
        StepModel::Done(bytes) => Some(bytes),
        StepModel::Again(next) => run_from(pass, next),
    }
}

/// The result of a whole run on `input` with an engine whose passes are the
/// function `pass`.
pub open spec fn run_model(
    pass: spec_fn(Seq<u8>) -> PassModel,
    input: Seq<u8>,
    multipass: bool,
    max_passes: nat,
) -> Option<Seq<u8>> {
    run_from(pass, start_model(input, multipass, max_passes))
}

/// The state of a run between two passes.
#[derive(Debug)]
pub struct Run {
    text: String,
    prev_size: usize,
    passes_left: usize,
    multipass: bool,
}

impl View for Run {
    type V = RunModel;

    closed spec fn view(&self) -> RunModel {
        RunModel {
            text: encode_utf8(self.text@),
            prev_size: self.prev_size as nat,
            passes_left: self.passes_left as nat,
            multipass: self.multipass,
        }
    }
}

/// What a run does on the outcome of a pass.
#[derive(Debug)]
pub enum Step {
    /// The run fails.
    Failed(RunError),
    /// The run ends on this text.
    Done(String),
    /// Another pass follows, over the text of this state.
    Again(Run),
}

impl Run {
    /// Starts a run over `input`, of at most `max_passes` passes (a limit of
    /// 0 counts as 1).
    pub fn start(input: &str, multipass: bool, max_passes: usize) -> (run: Run)
        ensures
            run@ == start_model(encode_utf8(input@), multipass, max_passes as nat),
    {
        Run { text: input.to_owned(), prev_size: 0, passes_left: max_passes, multipass }
    }

    /// The text that the next pass is to be made over.
    pub fn text(&self) -> (text: &str)
        ensures
            encode_utf8(text@) == self@.text,
    {
        self.text.as_str()
    }

    /// Takes the outcome of the pass over `self.text()` and says what follows.
    ///
    /// A parse failure fails the run, with the reason it came with. A
    /// cleaning failure ends the run on the text that the pass was given. A
    /// pass that wrote either ends the run on what it wrote or is followed by
    /// another pass over it, as `decide` says.
    pub fn step(self, outcome: PassOutcome) -> (step: Step)
        ensures
            match step_model(self@, outcome@) {
                StepModel::Failed => {
                    &&& outcome matches PassOutcome::ParseFailed(reason)
                    &&& step == Step::Failed(RunError::Parse(reason))
                },
                StepModel::Done(bytes) => {
                    &&& step matches Step::Done(text)
                    &&& encode_utf8(text@) == bytes
                },
                StepModel::Again(next) => {
                    &&& step matches Step::Again(run)
                    &&& run@ == next
                },
            },
    {
        match outcome {
            PassOutcome::ParseFailed(reason) => Step::Failed(RunError::Parse(reason)),
            PassOutcome::CleanFailed => Step::Done(self.text),
            PassOutcome::Written(text) => {
                let written_len = text.as_str().as_bytes().len();
                match decide(written_len, self.prev_size, self.multipass, self.passes_left) {
                    Decision::Stop => Step::Done(text),
                    Decision::Repeat => Step::Again(
                        Run {
                            text,
                            prev_size: written_len,
                            passes_left: self.passes_left - 1,
                            multipass: self.multipass,
                        },
                    ),
                }
            },
        }
    }
}

} // verus!
