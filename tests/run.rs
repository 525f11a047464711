use cargo_wrap::error::WrapError;
use cargo_wrap::run::{
    build_invocation, secondary_invocation, Action, ArtifactStatus, Event, Invocation, Phase,
};

fn strings(v: &[&str]) -> Vec<String> {
    v.iter().map(|s| s.to_string()).collect()
}

fn step(phase: Phase, e: Event) -> (Phase, Action) {
    assert!(phase.expects(&e));
    phase.step(e)
}

fn started(args: &[&str], build_tool: Option<&str>) -> Event {
    Event::Started { args: strings(args), build_tool: build_tool.map(|s| s.to_string()) }
}

fn exited(success: bool, code: i32, out: &[u8]) -> Event {
    Event::BuildExited { success, code: Some(code), stdout: out.to_vec() }
}

fn run_build(a: Action) -> Invocation {
    match a {
        Action::RunBuild(inv) => inv,
        other => panic!("expected a build, got {:?}", other),
    }
}

fn failure(a: Action) -> WrapError {
    match a {
        Action::Fail(e) => e,
        other => panic!("expected a failure, got {:?}", other),
    }
}

fn marker() -> Vec<(String, String)> {
    vec![("CARGO_WRAP".to_string(), "1".to_string())]
}

#[test]
fn flag_and_check_reach_dispatch() {
    let (p, a) = step(Phase::Start, started(&["id", "--flag", "::", "check"], None));
    let inv = run_build(a);
    assert_eq!(inv.program, "cargo");
    assert_eq!(inv.args, strings(&["check"]));
    assert_eq!(inv.env, marker());
    let (p, a) = step(p, exited(true, 0, b"/out/bin\n"));
    match a {
        Action::CheckArtifact { path } => assert_eq!(path, "/out/bin"),
        other => panic!("expected a check, got {:?}", other),
    }
    let (p, a) = step(p, Event::ArtifactChecked { status: ArtifactStatus::File });
    match a {
        Action::Dispatch { path, tool_args } => {
            assert_eq!(path, "/out/bin");
            assert_eq!(tool_args, strings(&["--flag"]));
        },
        other => panic!("expected a dispatch, got {:?}", other),
    }
    let (p, a) = step(p, Event::Decided { program: "gdb".to_string(), args: strings(&["/out/bin"]) });
    match a {
        Action::RunSecondary(inv) => {
            assert_eq!(inv.program, "gdb");
            assert_eq!(inv.args, strings(&["/out/bin"]));
            assert!(inv.env.is_empty());
        },
        other => panic!("expected the secondary tool, got {:?}", other),
    }
    let (p, a) = step(p, Event::SecondaryExited);
    assert!(matches!(a, Action::Finish));
    assert!(matches!(p, Phase::Done));
    assert!(!p.expects(&Event::SecondaryExited));
}

#[test]
fn caller_token_alone_builds_by_default() {
    let (p, a) = step(Phase::Start, started(&["id"], None));
    let inv = run_build(a);
    assert_eq!(inv.program, "cargo");
    assert_eq!(inv.args, strings(&["build"]));
    assert_eq!(inv.env, marker());
    match p {
        Phase::ArgsParsed { program, tool_args } => {
            assert_eq!(program, "cargo");
            assert!(tool_args.is_empty());
        },
        other => panic!("expected the build phase, got {:?}", other),
    }
}

#[test]
fn build_tool_override_is_used() {
    let (_, a) = step(Phase::Start, started(&["id", "::", "test", "--no-run"], Some("/opt/cargo")));
    let inv = run_build(a);
    assert_eq!(inv.program, "/opt/cargo");
    assert_eq!(inv.args, strings(&["test", "--no-run"]));
}

#[test]
fn missing_caller_token_fails_without_spawning() {
    let (p, a) = step(Phase::Start, started(&[], None));
    assert!(matches!(failure(a), WrapError::Invocation));
    assert!(matches!(p, Phase::Fatal));
    assert!(!p.expects(&exited(true, 0, b"/x")));
}

#[test]
fn failed_build_reports_status_and_output() {
    let (p, _) = step(Phase::Start, started(&["id"], None));
    let (p, a) = step(p, exited(false, 1, b"error: could not compile"));
    match failure(a) {
        WrapError::BuildFailure { code, output } => {
            assert_eq!(code, Some(1));
            assert_eq!(output, "error: could not compile");
        },
        other => panic!("expected a build failure, got {:?}", other),
    }
    assert!(matches!(p, Phase::Fatal));
    assert!(!p.expects(&Event::ArtifactChecked { status: ArtifactStatus::File }));
}

#[test]
fn failed_build_with_invalid_output_uses_placeholder() {
    let (p, _) = step(Phase::Start, started(&["id"], None));
    let (_, a) = step(p, Event::BuildExited { success: false, code: None, stdout: vec![0xff] });
    match failure(a) {
        WrapError::BuildFailure { code, output } => {
            assert_eq!(code, None);
            assert_eq!(output, "<invalid UTF-8>");
        },
        other => panic!("expected a build failure, got {:?}", other),
    }
}

#[test]
fn build_spawn_failure_names_the_tool() {
    let (p, _) = step(Phase::Start, started(&["id"], Some("nocargo")));
    let (p, a) = step(p, Event::BuildSpawnFailed { reason: "not found".to_string() });
    match failure(a) {
        WrapError::ToolResolution { program, reason } => {
            assert_eq!(program, "nocargo");
            assert_eq!(reason, "not found");
        },
        other => panic!("expected a resolution error, got {:?}", other),
    }
    assert!(matches!(p, Phase::Fatal));
}

#[test]
fn whitespace_output_is_missing_artifact() {
    let (p, _) = step(Phase::Start, started(&["id"], None));
    let (p, a) = step(p, exited(true, 0, b"  \n"));
    assert!(matches!(failure(a), WrapError::ArtifactMissing));
    assert!(matches!(p, Phase::Fatal));
}

#[test]
fn invalid_output_is_decoding_failure() {
    let (p, _) = step(Phase::Start, started(&["id"], None));
    let (_, a) = step(p, exited(true, 0, &[0x2f, 0xc0, 0xaf]));
    assert!(matches!(failure(a), WrapError::OutputDecoding));
}

#[test]
fn directory_artifact_fails() {
    let (p, _) = step(Phase::Start, started(&["id"], None));
    let (p, _) = step(p, exited(true, 0, b"/out\n"));
    let (p, a) = step(p, Event::ArtifactChecked { status: ArtifactStatus::Directory });
    match failure(a) {
        WrapError::ArtifactType { path } => assert_eq!(path, "/out"),
        other => panic!("expected a type error, got {:?}", other),
    }
    assert!(matches!(p, Phase::Fatal));
    assert!(!p.expects(&Event::Decided { program: "gdb".to_string(), args: Vec::new() }));
}

#[test]
fn unreadable_artifact_fails() {
    let (p, _) = step(Phase::Start, started(&["id"], None));
    let (p, _) = step(p, exited(true, 0, b"/nowhere\n"));
    let status = ArtifactStatus::Unreadable { reason: "No such file or directory".to_string() };
    let (_, a) = step(p, Event::ArtifactChecked { status });
    match failure(a) {
        WrapError::ArtifactNotFound { path, reason } => {
            assert_eq!(path, "/nowhere");
            assert_eq!(reason, "No such file or directory");
        },
        other => panic!("expected a not-found error, got {:?}", other),
    }
}

#[test]
fn secondary_spawn_failure_after_resolution() {
    let (p, _) = step(Phase::Start, started(&["id", "-q", "::"], None));
    let (p, _) = step(p, exited(true, 0, b"/out/bin\n"));
    let (p, a) = step(p, Event::ArtifactChecked { status: ArtifactStatus::File });
    assert!(matches!(a, Action::Dispatch { .. }));
    let (p, _) = step(p, Event::Decided { program: "no-such-tool".to_string(), args: strings(&["-q"]) });
    let (p, a) = step(p, Event::SecondarySpawnFailed { reason: "not found".to_string() });
    match failure(a) {
        WrapError::SecondarySpawn { program, reason } => {
            assert_eq!(program, "no-such-tool");
            assert_eq!(reason, "not found");
        },
        other => panic!("expected a spawn error, got {:?}", other),
    }
    assert!(matches!(p, Phase::Fatal));
}

#[test]
fn events_out_of_order_are_not_expected() {
    assert!(!Phase::Start.expects(&Event::SecondaryExited));
    let (p, _) = step(Phase::Start, started(&["id"], None));
    assert!(!p.expects(&started(&["id"], None)));
    assert!(p.expects(&Event::BuildSpawnFailed { reason: String::new() }));
}

#[test]
fn build_invocation_defaults() {
    let inv = build_invocation(None, Vec::new());
    assert_eq!(inv.program, "cargo");
    assert_eq!(inv.args, strings(&["build"]));
    assert_eq!(inv.env, marker());
    let inv = build_invocation(Some("x".to_string()), strings(&["check"]));
    assert_eq!(inv.program, "x");
    assert_eq!(inv.args, strings(&["check"]));
}

#[test]
fn secondary_invocation_keeps_choice() {
    let inv = secondary_invocation("valgrind".to_string(), strings(&["/out/bin", "--x"]));
    assert_eq!(inv.program, "valgrind");
    assert_eq!(inv.args, strings(&["/out/bin", "--x"]));
    assert!(inv.env.is_empty());
}
