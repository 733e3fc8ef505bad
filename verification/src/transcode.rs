//! Encoder invocations: the check of the parameters before the encoder is
//! launched, and the reading of what the launch gave.

use vstd::prelude::*;

verus! {

/// The four operations that are handed to the encoder.
#[derive(Clone, Copy, Debug, PartialEq, Eq, Structural)]
pub enum TranscodeOp {
    Loop,
    Reverse,
    ExtractAudio,
    OverlayAudio,
}

/// The parameters of an operation. `loop_count` counts for `Loop` only and
/// `audio` for `OverlayAudio` only.
#[derive(Clone, Debug, PartialEq, Eq)]
pub struct TranscodeParams {
    pub input: String,
    pub output: String,
    pub loop_count: u32,
    pub duration: Option<String>,
    pub audio: Option<String>,
}

/// Why an operation failed.
#[derive(Clone, Debug, PartialEq, Eq)]
pub enum TranscodeError {
    /// The parameters do not fit the operation; no process was launched.
    InvalidParams,
    /// The encoder could not be launched; the text says why.
    ProcessLaunch(String),
    /// The encoder ended with an exit code other than 0.
    ProcessExit { code: i32, output: String },
}

/// The text shown for a failure.
pub open spec fn failure_text(e: TranscodeError) -> Seq<char> {
    match e {
        TranscodeError::InvalidParams => "Неверные параметры операции"@,
        TranscodeError::ProcessLaunch(cause) => "Не удалось запустить кодировщик: "@ + cause@,
        TranscodeError::ProcessExit { code, output } => "Кодировщик завершился с ошибкой: "@
            + output@,
    }
}

impl TranscodeError {
    /// Renders the failure as the text a user reads.
    pub fn message(&self) -> (r: String)
        ensures
            r@ == failure_text(*self),
    {
        match self {
            TranscodeError::InvalidParams => String::from_str("Неверные параметры операции"),
            TranscodeError::ProcessLaunch(cause) => String::from_str(
                "Не удалось запустить кодировщик: ",
            ).concat(cause.as_str()),
            TranscodeError::ProcessExit { code, output } => String::from_str(
                "Кодировщик завершился с ошибкой: ",
            ).concat(output.as_str()),
        }
    }
}

/// What launching the encoder gave.
#[derive(Clone, Debug, PartialEq, Eq)]
pub enum Launched {
    /// The process could not be started; the text says why.
    NotStarted(String),
    /// The process ran to its end, with this exit code and captured text.
    Exited { code: i32, output: String },
}

/// A text that is given and is not empty.
pub open spec fn is_given(text: Option<String>) -> bool {
    text matches Some(t) && t@.len() > 0
}

/// The parameters fit the operation: both paths are given; a duration,
/// where there is one, is not empty; a loop runs at least once; an overlay
/// names its audio file.
pub open spec fn valid_params(op: TranscodeOp, params: TranscodeParams) -> bool {
    &&& params.input@.len() > 0
    &&& params.output@.len() > 0
    &&& (params.duration is Some ==> is_given(params.duration))
    &&& (op == TranscodeOp::Loop ==> params.loop_count > 0)
    &&& (op == TranscodeOp::OverlayAudio ==> is_given(params.audio))
}

fn given(text: &Option<String>) -> (r: bool)
    ensures
        r == is_given(*text),
{
    match text {
        Some(t) => t.as_str().unicode_len() > 0,
        None => false,
    }
}

/// Checks the parameters of an operation before anything is launched:
/// parameters that do not fit it fail with `InvalidParams`.
pub fn run_transcode(op: TranscodeOp, params: &TranscodeParams) -> (r: Result<(), TranscodeError>)
    ensures
        valid_params(op, *params) ==> r is Ok,
        !valid_params(op, *params) ==> r == Err::<(), TranscodeError>(TranscodeError::InvalidParams),
{
    if params.input.as_str().unicode_len() == 0 || params.output.as_str().unicode_len() == 0 {
        return Err(TranscodeError::InvalidParams);
    }
    if params.duration.is_some() && !given(&params.duration) {
        return Err(TranscodeError::InvalidParams);
    }
    if op == TranscodeOp::Loop && params.loop_count == 0 {
        return Err(TranscodeError::InvalidParams);
    }
    if op == TranscodeOp::OverlayAudio && !given(&params.audio) {
        return Err(TranscodeError::InvalidParams);
    }
    Ok(())
}

/// Reads what the launch gave: exit code 0 is success, with the captured
/// text; any other code, and a process that did not start, are failures.
pub fn transcode_outcome(launched: Launched) -> (r: Result<String, TranscodeError>)
    ensures
        match launched {
            Launched::NotStarted(cause) => r == Err::<String, TranscodeError>(
                TranscodeError::ProcessLaunch(cause),
            ),
            Launched::Exited { code, output } => if code == 0 {
                r == Ok::<String, TranscodeError>(output)
            } else {
                r == Err::<String, TranscodeError>(TranscodeError::ProcessExit { code, output })
            },
        },
{
    match launched {
        Launched::NotStarted(cause) => Err(TranscodeError::ProcessLaunch(cause)),
        Launched::Exited { code, output } => {
            if code == 0 {
                Ok(output)
            } else {
                Err(TranscodeError::ProcessExit { code, output })
            }
        },
    }
}

} // verus!
