use containerd_shim_wasmtime::binary::{ClassifiedBinary, WasmBinaryType};
use containerd_shim_wasmtime::exit::{
    command_status, load_plan, required_export, required_start, signed_decimal, Failure,
    IntoErrorCode, Load,
};

#[test]
fn plain_end_is_its_code() {
    let status: Result<i32, Failure> = Ok(0);
    assert!(matches!(status.into_error_code(), Ok(0)));
    let status: Result<i32, Failure> = Ok(17);
    assert!(matches!(status.into_error_code(), Ok(17)));
    let status: Result<(), Failure> = Ok(());
    assert!(matches!(status.into_error_code(), Ok(0)));
}

#[test]
fn guest_exit_is_unwrapped_into_its_code() {
    let status: Result<i32, Failure> = Err(Failure::Exit(42));
    assert!(matches!(status.into_error_code(), Ok(42)));
    let status: Result<(), Failure> = Err(Failure::Exit(3));
    assert!(matches!(status.into_error_code(), Ok(3)));
    let status: Result<(), Failure> = Err(Failure::Exit(0));
    assert!(matches!(status.into_error_code(), Ok(0)));
    let status: Result<i32, Failure> = Err(Failure::Exit(-1));
    assert!(matches!(status.into_error_code(), Ok(-1)));
}

#[test]
fn other_failures_stay_failures() {
    let status: Result<i32, Failure> = Err(Failure::InvalidBinary);
    assert!(matches!(status.into_error_code(), Err(Failure::InvalidBinary)));
    let status: Result<(), Failure> = Err(Failure::CommandFailed);
    assert!(matches!(status.into_error_code(), Err(Failure::CommandFailed)));
    let status: Result<i32, Failure> = Err(Failure::MissingStart);
    assert!(matches!(status.into_error_code(), Err(Failure::MissingStart)));
    let status: Result<(), Failure> = Err(Failure::MissingExport("f".to_string()));
    assert!(matches!(status.into_error_code(), Err(Failure::MissingExport(name)) if name == "f"));
    let status: Result<i32, Failure> = Err(Failure::Engine(anyhow::Error::msg("trap")));
    match status.into_error_code() {
        Err(Failure::Engine(error)) => assert_eq!(error.to_string(), "trap"),
        _ => panic!("an engine error must stay what it is"),
    }
}

#[test]
fn engine_error_with_an_exit_is_an_exit() {
    let error = anyhow::Error::new(wasmtime_wasi::I32Exit(7));
    assert!(matches!(Failure::from_engine(error), Failure::Exit(7)));
    let error = anyhow::Error::new(wasmtime_wasi::I32Exit(0)).context("while running");
    assert!(matches!(Failure::from_engine(error), Failure::Exit(0)));
    let status: Result<i32, Failure> =
        Err(Failure::from_engine(anyhow::Error::new(wasmtime_wasi::I32Exit(137))));
    assert!(matches!(status.into_error_code(), Ok(137)));
}

#[test]
fn engine_error_without_an_exit_is_kept() {
    match Failure::from_engine(anyhow::Error::msg("out of fuel")) {
        Failure::Engine(error) => assert_eq!(error.to_string(), "out of fuel"),
        _ => panic!("a plain error is no exit"),
    }
}

#[test]
fn from_parts_goes_by_the_code() {
    assert!(matches!(
        Failure::from_parts(Some(9), anyhow::Error::msg("x")),
        Failure::Exit(9)
    ));
    match Failure::from_parts(None, anyhow::Error::msg("x")) {
        Failure::Engine(error) => assert_eq!(error.to_string(), "x"),
        _ => panic!("without a code the error is kept"),
    }
}

#[test]
fn failures_have_their_words() {
    assert_eq!(Failure::Exit(3).message(), "exited with status 3");
    assert_eq!(Failure::Exit(-2).message(), "exited with status -2");
    assert_eq!(Failure::InvalidBinary.message(), "invalid precompiled module");
    assert_eq!(
        Failure::MissingStart.message(),
        "module does not have a WASI start function"
    );
    assert_eq!(
        Failure::MissingExport("thunk".to_string()).message(),
        "component does not have exported function \"thunk\""
    );
    assert_eq!(
        Failure::CommandFailed.message(),
        "failed to run component targeting `wasi:cli/command` world"
    );
    let text = Failure::Engine(anyhow::Error::msg("wasm trap: unreachable")).message();
    assert!(text.contains("wasm trap: unreachable"));
}

#[test]
fn signed_decimal_of_exit_codes() {
    assert_eq!(signed_decimal(0), "0");
    assert_eq!(signed_decimal(1), "1");
    assert_eq!(signed_decimal(-1), "-1");
    assert_eq!(signed_decimal(143), "143");
    assert_eq!(signed_decimal(i32::MAX), "2147483647");
    assert_eq!(signed_decimal(i32::MIN), "-2147483648");
}

#[test]
fn load_plan_follows_the_shape() {
    assert!(matches!(
        load_plan(ClassifiedBinary::Module),
        Ok(Load { kind: WasmBinaryType::Module, precompiled: false })
    ));
    assert!(matches!(
        load_plan(ClassifiedBinary::Component),
        Ok(Load { kind: WasmBinaryType::Component, precompiled: false })
    ));
    assert!(matches!(
        load_plan(ClassifiedBinary::PrecompiledModule),
        Ok(Load { kind: WasmBinaryType::Module, precompiled: true })
    ));
    assert!(matches!(
        load_plan(ClassifiedBinary::PrecompiledComponent),
        Ok(Load { kind: WasmBinaryType::Component, precompiled: true })
    ));
}

#[test]
fn unrecognized_payload_is_refused() {
    assert!(matches!(load_plan(ClassifiedBinary::Unrecognized), Err(Failure::InvalidBinary)));
}

#[test]
fn missing_functions_are_named_failures() {
    assert!(matches!(required_start(Some(5u8)), Ok(5)));
    assert!(matches!(required_start::<u8>(None), Err(Failure::MissingStart)));
    assert!(matches!(required_export(Some("f"), "run"), Ok("f")));
    match required_export::<u8>(None, "run-me") {
        Err(Failure::MissingExport(name)) => assert_eq!(name, "run-me"),
        _ => panic!("the missing function must be named"),
    }
}

#[test]
fn command_failure_is_generic() {
    assert!(matches!(command_status(Ok(())), Ok(())));
    assert!(matches!(command_status(Err(())), Err(Failure::CommandFailed)));
    assert!(matches!(command_status(Ok(())).into_error_code(), Ok(0)));
    assert!(matches!(
        command_status(Err(())).into_error_code(),
        Err(Failure::CommandFailed)
    ));
}
