//! A whole cleaning, as a state machine: the passes of a run, then the guard
//! on what they end on.
//!
//! The caller resolves the options with `split`, starts a cleaning with the
//! flags, and then makes passes over `text()` and hands each outcome to
//! `step` until the cleaning has finished.

use vstd::prelude::*;
use vstd::pervasive::unreached;
use vstd::slice::slice_to_vec;
use vstd::utf8::{encode_utf8, encode_utf8_valid_utf8, valid_utf8};

use crate::error::{ErrorKind, RunError};
use crate::guard::{finalize, finalize_model};
use crate::options::{NodeSvgCleanerFlags, SvgCleanerOptions};
use crate::pass::{run_model, step_model, PassModel, PassOutcome, Run, RunModel, Step, StepModel};

verus! {

/// The number of passes after which a multipass run stops even though the
/// output still changes its length.
pub const DEFAULT_MAX_PASSES: usize = 10;

/// A cleaned document.
#[derive(Debug)]
pub struct Cleaned {
    /// The length of `content` in bytes.
    pub length: usize,
    /// The cleaned text.
    pub content: String,
}

impl Cleaned {
    /// The bytes of the cleaned text.
    pub open spec fn bytes(&self) -> Seq<u8> {
        encode_utf8(self.content@)
    }
}

/// The options of the fixed configuration: the defaults, with multipass on.
pub open spec fn fixed_options_model() -> SvgCleanerOptions {
    SvgCleanerOptions { multipass: true, ..SvgCleanerOptions::defaults() }
}

/// The options of the fixed configuration: the defaults, with passes repeated
/// until the output keeps its length.
pub fn fixed_options() -> (options: SvgCleanerOptions)
    ensures
        options == fixed_options_model(),
{
    let mut options = SvgCleanerOptions::default();
    options.multipass = true;
    options
}

/// What the guard makes of the end of a run: the final bytes, or the kind of
/// failure.
pub open spec fn guarded(
    candidate: Option<Seq<u8>>,
    original_length: nat,
    flags: NodeSvgCleanerFlags,
) -> Result<Seq<u8>, ErrorKind> {
    match candidate {
        None => Err(ErrorKind::Parse),
        Some(bytes) => match finalize_model(
            original_length,
            bytes,
            flags.allow_bigger_file,
            flags.append_newline,
        ) {
            None => Err(ErrorKind::OutputTooLarge),
            Some(out) => Ok(out),
        },
    }
}

/// What cleaning `content` under `flags` gives, with an engine whose passes
/// are the function `pass`: the bytes of the result, or the kind of failure.
pub open spec fn clean_model(
    pass: spec_fn(Seq<u8>) -> PassModel,
    content: Seq<u8>,
    flags: NodeSvgCleanerFlags,
    max_passes: nat,
) -> Result<Seq<u8>, ErrorKind> {
    guarded(run_model(pass, content, flags.multipass, max_passes), content.len(), flags)
}

/// The state of a cleaning between two passes, in the model.
pub struct CleaningModel {
    /// The state of the run.
    pub run: RunModel,
    /// The length of the input in bytes.
    pub original_length: nat,
    /// The flags of the cleaning.
    pub flags: NodeSvgCleanerFlags,
}

/// What a cleaning does on the outcome of a pass, in the model.
pub enum ProgressModel {
    /// Another pass follows, from this state.
    Again(CleaningModel),
    /// The cleaning has finished, with these bytes or this kind of failure.
    Finished(Result<Seq<u8>, ErrorKind>),
}

/// What a cleaning in `state` does on the outcome of the pass over its text.
pub open spec fn progress_model(state: CleaningModel, outcome: PassModel) -> ProgressModel {
    match step_model(state.run, outcome) {
        StepModel::Failed => ProgressModel::Finished(
            guarded(None, state.original_length, state.flags),
        ),
        StepModel::Done(bytes) => ProgressModel::Finished(
            guarded(Some(bytes), state.original_length, state.flags),
        ),
        StepModel::Again(next) => ProgressModel::Again(
            CleaningModel { run: next, original_length: state.original_length, flags: state.flags },
        ),
    }
}

/// The result of a cleaning that goes on from `state`, step by step, with an
/// engine whose passes are the function `pass`.
pub open spec fn clean_from(
    pass: spec_fn(Seq<u8>) -> PassModel,
    state: CleaningModel,
) -> Result<Seq<u8>, ErrorKind>
    decreases state.run.passes_left,
{
    match progress_model(state, pass(state.run.text)) {
        ProgressModel::Finished(result) => result,
        ProgressModel::Again(next) => clean_from(pass, next),
    }
}

/// The state of a cleaning between two passes.
#[derive(Debug)]
pub struct Cleaning {
    run: Run,
    original_length: usize,
    flags: NodeSvgCleanerFlags,
}

impl View for Cleaning {
    type V = CleaningModel;

    closed spec fn view(&self) -> CleaningModel {
        CleaningModel {
            run: self.run@,
            original_length: self.original_length as nat,
            flags: self.flags,
        }
    }
}

/// What a cleaning does on the outcome of a pass.
#[derive(Debug)]
pub enum Progress {
    /// Another pass follows, over the text of this state.
    Again(Cleaning),
    /// The cleaning has finished.
    Finished(Result<Cleaned, RunError>),
}

/// Turns the bytes of a result into a cleaned document.
fn cleaned_of(bytes: Vec<u8>) -> (cleaned: Cleaned)
    requires
        valid_utf8(bytes@),
    ensures
        cleaned.bytes() == bytes@,
        cleaned.length == bytes@.len(),
{
    let length = bytes.len();
    match core::str::from_utf8(bytes.as_slice()) {
        Ok(text) => Cleaned { length, content: text.to_owned() },
        Err(_) => unreached(),
    }
}

impl Cleaning {
    /// The state in which a cleaning of `content` starts.
    pub open spec fn start_model(
        content: Seq<u8>,
        flags: NodeSvgCleanerFlags,
        max_passes: nat,
    ) -> CleaningModel {
        CleaningModel {
            run: crate::pass::start_model(content, flags.multipass, max_passes),
            original_length: content.len(),
            flags,
        }
    }

    /// Starts a cleaning of `content` under `flags`, of at most `max_passes`
    /// passes (a limit of 0 counts as 1).
    pub fn start(content: &str, flags: NodeSvgCleanerFlags, max_passes: usize) -> (state: Cleaning)
        ensures
            state@ == Self::start_model(encode_utf8(content@), flags, max_passes as nat),
    {
        let original_length = content.as_bytes().len();
        Cleaning { run: Run::start(content, flags.multipass, max_passes), original_length, flags }
    }

    /// The text that the next pass is to be made over.
    pub fn text(&self) -> (text: &str)
        ensures
            encode_utf8(text@) == self@.run.text,
    {
        self.run.text()
    }

    /// Takes the outcome of the pass over `self.text()` and says what follows:
    /// another pass, or the end of the cleaning.
    ///
    /// The cleaning fails with `Parse` exactly when the pass could not parse
    /// its text, and with `OutputTooLarge` exactly when the run ends on more
    /// bytes than the input has and `allow_bigger_file` is not set. Where it
    /// succeeds, the result is what the run ended on, followed by one line
    /// feed if `append_newline` is set.
    pub fn step(self, outcome: PassOutcome) -> (progress: Progress)
        ensures
            match progress_model(self@, outcome@) {
                ProgressModel::Again(next) => {
                    &&& progress matches Progress::Again(state)
                    &&& state@ == next
                },
                ProgressModel::Finished(Ok(bytes)) => {
                    &&& progress matches Progress::Finished(Ok(cleaned))
                    &&& cleaned.bytes() == bytes
                    &&& cleaned.length == bytes.len()
                },
                ProgressModel::Finished(Err(ErrorKind::Parse)) => {
                    &&& outcome matches PassOutcome::ParseFailed(reason)
                    &&& progress matches Progress::Finished(Err(e))
                    &&& e == RunError::Parse(reason)
                },
                ProgressModel::Finished(Err(ErrorKind::OutputTooLarge)) => {
                    &&& progress matches Progress::Finished(Err(e))
                    &&& e == RunError::OutputTooLarge
                },
            },
    {
        match self.run.step(outcome) {
            Step::Failed(e) => Progress::Finished(Err(e)),
            Step::Done(text) => {
                let candidate = slice_to_vec(text.as_str().as_bytes());
                proof {
                    encode_utf8_valid_utf8(text@);
                }
                match finalize(
                    self.original_length,
                    candidate,
                    self.flags.allow_bigger_file,
                    self.flags.append_newline,
                ) {
                    Ok(out) => Progress::Finished(Ok(cleaned_of(out))),
                    Err(e) => Progress::Finished(Err(e)),
                }
            },
            Step::Again(run) => Progress::Again(
                Cleaning { run, original_length: self.original_length, flags: self.flags },
            ),
        }
    }
}

} // verus!
