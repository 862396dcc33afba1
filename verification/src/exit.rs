//! How an execution ends: the failures that the dispatcher knows by name,
//! and the rule that turns a guest's request to exit into an exit code.

use vstd::prelude::*;
use vstd::string::StringExecFns;
use crate::binary::{ClassifiedBinary, WasmBinaryType};
use crate::text::{decimal, decimal_text};

verus! {

/// Why an execution did not run to a plain end.
#[derive(Debug)]
pub enum Failure {
    /// The guest asked to leave the process with this code. This is an
    /// outcome, not a fault.
    Exit(i32),
    /// The payload is neither a source nor a compiled artifact.
    InvalidBinary,
    /// The module has no start function of the requested name.
    MissingStart,
    /// The component exports no function of this name.
    MissingExport(String),
    /// The `run` of a command component reported failure.
    CommandFailed,
    /// Whatever else the engine or the guest reported.
    Engine(anyhow::Error),
}

/// `anyhow::Error`'s `Debug` rendering, through std's `format!`: the error's
/// text with the chain of its causes. Nothing is promised of it.
#[verifier::external_body]
fn describe(error: &anyhow::Error) -> String {
    format!("{error:?}")
}

/// The code with which the guest asked to exit, where `error` is such a
/// request: what a downcast of the error to `wasmtime_wasi::I32Exit` finds.
pub uninterp spec fn exit_request(error: anyhow::Error) -> Option<i32>;

/// `anyhow::Error::downcast_ref` to `wasmtime_wasi::I32Exit`: the exit
/// request that the error is, if it is one. What the downcast finds depends
/// on the error alone.
#[verifier::external_body]
fn guest_exit_code(error: &anyhow::Error) -> (code: Option<i32>)
    ensures
        code == exit_request(*error),
{
    error.downcast_ref::<wasmtime_wasi::I32Exit>().map(|exit| exit.0)
}

/// The decimal numeral of an integer, with a minus sign where it is
/// negative.
pub open spec fn signed_text(n: int) -> Seq<char> {
    if n < 0 {
        seq!['-'] + decimal_text((-n) as nat)
    } else {
        decimal_text(n as nat)
    }
}

/// Renders an exit code as its decimal numeral.
pub fn signed_decimal(n: i32) -> (text: String)
    ensures
        text@ == signed_text(n as int),
{
    if n < 0 {
        proof {
            reveal_strlit("-");
            assert("-"@ =~= seq!['-']);
        }
        let magnitude: u64 = (-(n as i64)) as u64;
        String::from_str("-").concat(decimal(magnitude).as_str())
    } else {
        decimal(n as u64)
    }
}

impl Failure {
    /// The failure that an engine error stands for, given the exit code that
    /// was found in it: with a code it is the guest's request to exit, and
    /// without one it is the engine's error, kept as it is.
    pub fn from_parts(exit: Option<i32>, error: anyhow::Error) -> (failure: Failure)
        ensures
            failure == match exit {
                Some(code) => Failure::Exit(code),
                None => Failure::Engine(error),
            },
    {
        match exit {
            Some(code) => Failure::Exit(code),
            None => Failure::Engine(error),
        }
    }

    /// Reads an engine error: a guest's request to exit becomes
    /// [`Failure::Exit`], and anything else is kept as it is.
    pub fn from_engine(error: anyhow::Error) -> (failure: Failure)
        ensures
            failure == match exit_request(error) {
                Some(code) => Failure::Exit(code),
                None => Failure::Engine(error),
            },
    {
        let exit = guest_exit_code(&error);
        Failure::from_parts(exit, error)
    }

    /// The text of a failure that the dispatcher names itself; `None` for the
    /// engine's own errors, whose text is the engine's.
    pub open spec fn spec_message(self) -> Option<Seq<char>> {
        match self {
            Failure::Exit(code) => Some("exited with status "@ + signed_text(code as int)),
            Failure::InvalidBinary => Some("invalid precompiled module"@),
            Failure::MissingStart => Some("module does not have a WASI start function"@),
            Failure::MissingExport(func) => Some(
                "component does not have exported function \""@ + func@ + "\""@,
            ),
            Failure::CommandFailed => Some(
                "failed to run component targeting `wasi:cli/command` world"@,
            ),
            Failure::Engine(_) => None,
        }
    }

    /// The failure in words.
    pub fn message(&self) -> (text: String)
        ensures
            self.spec_message() matches Some(expected) ==> text@ == expected,
    {
        match self {
            Failure::Exit(code) => String::from_str("exited with status ").concat(
                signed_decimal(*code).as_str(),
            ),
            Failure::InvalidBinary => String::from_str("invalid precompiled module"),
            Failure::MissingStart => String::from_str("module does not have a WASI start function"),
            Failure::MissingExport(func) => String::from_str(
                "component does not have exported function \"",
            ).concat(func.as_str()).concat("\""),
            Failure::CommandFailed => String::from_str(
                "failed to run component targeting `wasi:cli/command` world",
            ),
            Failure::Engine(error) => describe(error),
        }
    }
}

/// Turns the end of an execution into the process's exit code.
pub trait IntoErrorCode: Sized {
    /// The exit code, or the failure that remains one.
    spec fn exit_status(self) -> Result<i32, Failure>;

    /// A plain end is its code; a guest's request to exit is the code that it
    /// asked for; every other failure stays a failure, unchanged.
    fn into_error_code(self) -> (status: Result<i32, Failure>)
        ensures
            status == self.exit_status(),
            !(status matches Err(Failure::Exit(_))),
    ;
}

impl IntoErrorCode for Result<i32, Failure> {
    open spec fn exit_status(self) -> Result<i32, Failure> {
        match self {
            Ok(code) => Ok(code),
            Err(Failure::Exit(code)) => Ok(code),
            Err(failure) => Err(failure),
        }
    }

    fn into_error_code(self) -> (status: Result<i32, Failure>) {
        match self {
            Ok(code) => Ok(code),
            Err(Failure::Exit(code)) => Ok(code),
            Err(failure) => Err(failure),
        }
    }
}

impl IntoErrorCode for Result<(), Failure> {
    open spec fn exit_status(self) -> Result<i32, Failure> {
        match self {
            Ok(_) => Ok(0i32),
            Err(Failure::Exit(code)) => Ok(code),
            Err(failure) => Err(failure),
        }
    }

    fn into_error_code(self) -> (status: Result<i32, Failure>) {
        match self {
            Ok(_) => Ok(0),
            Err(Failure::Exit(code)) => Ok(code),
            Err(failure) => Err(failure),
        }
    }
}

/// How a payload is turned into code that can run.
#[derive(Clone, Copy, Debug, PartialEq, Eq, Structural)]
pub struct Load {
    /// Whether a module or a component comes out.
    pub kind: WasmBinaryType,
    /// Whether the bytes are a compiled artifact, to be read back, or a
    /// source, to be compiled.
    pub precompiled: bool,
}

/// The way to load a payload of this shape, if there is one.
pub open spec fn load_of(shape: ClassifiedBinary) -> Option<Load> {
    match shape {
        ClassifiedBinary::Module => Some(Load { kind: WasmBinaryType::Module, precompiled: false }),
        ClassifiedBinary::Component => Some(
            Load { kind: WasmBinaryType::Component, precompiled: false },
        ),
        ClassifiedBinary::PrecompiledModule => Some(
            Load { kind: WasmBinaryType::Module, precompiled: true },
        ),
        ClassifiedBinary::PrecompiledComponent => Some(
            Load { kind: WasmBinaryType::Component, precompiled: true },
        ),
        ClassifiedBinary::Unrecognized => None,
    }
}

/// Picks the way to load a classified payload. A payload that was not
/// recognised is refused; nothing is guessed.
pub fn load_plan(shape: ClassifiedBinary) -> (plan: Result<Load, Failure>)
    ensures
        match load_of(shape) {
            Some(load) => plan == Ok::<Load, Failure>(load),
            None => plan == Err::<Load, Failure>(Failure::InvalidBinary),
        },
{
    match shape {
        ClassifiedBinary::Module => Ok(Load { kind: WasmBinaryType::Module, precompiled: false }),
        ClassifiedBinary::Component => Ok(
            Load { kind: WasmBinaryType::Component, precompiled: false },
        ),
        ClassifiedBinary::PrecompiledModule => Ok(
            Load { kind: WasmBinaryType::Module, precompiled: true },
        ),
        ClassifiedBinary::PrecompiledComponent => Ok(
            Load { kind: WasmBinaryType::Component, precompiled: true },
        ),
        ClassifiedBinary::Unrecognized => Err(Failure::InvalidBinary),
    }
}

/// The start function of a module, or the failure that names its absence.
pub fn required_start<F>(found: Option<F>) -> (start: Result<F, Failure>)
    ensures
        match found {
            Some(f) => start == Ok::<F, Failure>(f),
            None => start == Err::<F, Failure>(Failure::MissingStart),
        },
{
    match found {
        Some(f) => Ok(f),
        None => Err(Failure::MissingStart),
    }
}

/// The exported function `func` of a component, or the failure that names
/// the function that is missing.
pub fn required_export<F>(found: Option<F>, func: &str) -> (export: Result<F, Failure>)
    ensures
        match found {
            Some(f) => export == Ok::<F, Failure>(f),
            None => export matches Err(Failure::MissingExport(name)) && name@ == func@,
        },
{
    match found {
        Some(f) => Ok(f),
        None => Err(Failure::MissingExport(String::from_str(func))),
    }
}

/// The status of a command component's `run`. A failure that the guest
/// declares is reported in one generic form: its detail is not handed on.
pub fn command_status(run: Result<(), ()>) -> (status: Result<(), Failure>)
    ensures
        match run {
            Ok(_) => status == Ok::<(), Failure>(()),
            Err(_) => status == Err::<(), Failure>(Failure::CommandFailed),
        },
{
    match run {
        Ok(_) => Ok(()),
        Err(_) => Err(Failure::CommandFailed),
    }
}

} // verus!
