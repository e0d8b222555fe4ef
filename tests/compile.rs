use c_to_wasm_compiler::compile::{Artifact, Compilation, Event, Stage, Step, MODULE_SUFFIX, SOURCE_SUFFIX};
use c_to_wasm_compiler::configuration::{Configuration, Debugging, Profile};
use c_to_wasm_compiler::configuration_builder::ConfigurationBuilder;
use c_to_wasm_compiler::error::{CompileError, ProcessOutput};

const FAC_SOURCE: &str = r#"
        #include <stdint.h>

        __attribute__((export_name("fac")))
        int32_t fac(int32_t n) {
            if (n == 0) {
                return 1;
            } else {
                return n * fac(n - 1);
            }
        }
    "#;

const MODULE: &[u8] = b"\0asm\x01\0\0\0";

fn report(exit_code: Option<i32>, stderr: &str) -> ProcessOutput {
    ProcessOutput { exit_code, stdout: Vec::new(), stderr: stderr.as_bytes().to_vec() }
}

/// Drives a compilation against a file system that performs `budget`
/// operations and fails every later one, and a toolchain that reports `run`.
fn compile_with_budget(
    config: &Configuration,
    budget: u32,
    run: &ProcessOutput,
) -> (Result<Vec<u8>, CompileError>, Vec<String>) {
    let mut budget = budget;
    let mut log = Vec::new();
    let (mut compilation, mut step) = Compilation::start();
    loop {
        let event = match step {
            Step::Finish(result) => {
                assert_eq!(compilation.stage(), Stage::Done);
                return (result, log);
            }
            Step::Run(invocation) => {
                log.push(format!("run {}", invocation.args.join(" ")));
                Event::Ran(run.clone())
            }
            _ if budget == 0 => Event::Failed(std::io::Error::from_raw_os_error(0)),
            Step::Create(artifact) => {
                budget -= 1;
                log.push(format!("create {}", artifact.suffix()));
                Event::Created(format!("/tmp/t{}", artifact.suffix()))
            }
            Step::Write(text) => {
                budget -= 1;
                log.push(format!("write {}", text.len()));
                Event::Written
            }
            Step::Read => {
                budget -= 1;
                log.push("read".to_string());
                Event::ReadBack(MODULE.to_vec())
            }
        };
        assert!(compilation.accepts(&event));
        step = compilation.advance(config, event);
    }
}

#[test]
fn test_create_temp_file_error() {
    let run_with_fs_budget = |budget| {
        let config = ConfigurationBuilder::init()
            .debugging(Debugging::Disabled)
            .profile(Profile::O0)
            .source(FAC_SOURCE.into())
            .build();

        compile_with_budget(&config, budget, &report(Some(0), "")).0
    };

    let max_fail_budget = 3;

    for failing_budget in 0..=max_fail_budget {
        run_with_fs_budget(failing_budget).unwrap_err();
    }

    run_with_fs_budget(max_fail_budget + 1).unwrap();
}

#[test]
fn io_failures_are_io_failures_and_success_yields_the_module() {
    let config = ConfigurationBuilder::init()
        .debugging(Debugging::Enabled)
        .profile(Profile::O2)
        .source(FAC_SOURCE.into())
        .build();
    for budget in 0..4 {
        let (result, _) = compile_with_budget(&config, budget, &report(Some(0), ""));
        assert!(matches!(result, Err(CompileError::IoFailure(_))));
    }
    let (result, log) = compile_with_budget(&config, 4, &report(Some(0), ""));
    assert_eq!(result.unwrap(), MODULE.to_vec());
    assert_eq!(
        log,
        vec![
            format!("create {}", SOURCE_SUFFIX),
            format!("create {}", MODULE_SUFFIX),
            format!("write {}", FAC_SOURCE.len()),
            "run /tmp/t_c-to-wasm-source.c --no-entry -O2 -g -s STANDALONE_WASM=1 -o /tmp/t_c-to-wasm-out.wasm".to_string(),
            "read".to_string(),
        ]
    );
}

#[test]
fn failing_compilation() {
    let config = ConfigurationBuilder::init()
        .debugging(Debugging::Disabled)
        .profile(Profile::O3)
        .source("no c source code".into())
        .build();

    let (result, log) = compile_with_budget(&config, 10, &report(Some(1), "error: unknown type name"));
    assert!(result.is_err_and(|err| matches!(err, CompileError::ToolchainFailure(_))));
    assert!(!log.contains(&"read".to_string()));
}

#[test]
fn toolchain_failure_keeps_the_whole_report() {
    let config = ConfigurationBuilder::init()
        .debugging(Debugging::Disabled)
        .profile(Profile::O0)
        .source("no c source code".into())
        .build();
    let killed = report(None, "killed");
    let (result, _) = compile_with_budget(&config, 10, &killed);
    match result {
        Err(CompileError::ToolchainFailure(out)) => {
            assert_eq!(out.exit_code, None);
            assert_eq!(out.stderr, b"killed".to_vec());
        }
        _ => panic!("expected a toolchain failure"),
    }
}

#[test]
fn write_step_carries_the_source_text() {
    let config = ConfigurationBuilder::init()
        .debugging(Debugging::Disabled)
        .profile(Profile::O1)
        .source("int x;".into())
        .build();
    let (mut c, step) = Compilation::start();
    assert!(matches!(step, Step::Create(Artifact::Source)));
    let step = c.advance(&config, Event::Created("in.c".into()));
    assert!(matches!(step, Step::Create(Artifact::Module)));
    let step = c.advance(&config, Event::Created("out.wasm".into()));
    match step {
        Step::Write(text) => assert_eq!(text, "int x;"),
        _ => panic!("expected a write"),
    }
    assert_eq!(c.stage(), Stage::WritingSource);
    assert!(!c.accepts(&Event::ReadBack(Vec::new())));
}

#[test]
fn process_success_means_exit_code_zero() {
    assert!(report(Some(0), "").success());
    assert!(!report(Some(2), "").success());
    assert!(!report(None, "").success());
}
