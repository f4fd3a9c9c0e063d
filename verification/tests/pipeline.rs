use sniprun::context::DataHolder;
use sniprun::error::{FailureKind, Outcome, SniprunError};
use sniprun::interpreter::{Artifact, Interpreter};
use sniprun::interpreters::js_ts_deno::JS_TS_deno;
use sniprun::level::SupportLevel;
use sniprun::pipeline::{Action, Event, Pipeline, Stage};
use sniprun::process::{Invocation, ProcessReport};

/// A host that answers from a script and keeps what it was asked to do.
struct Host {
    workspace: Option<String>,
    write: Option<String>,
    launch: Option<Event>,
    created: Vec<String>,
    written: Vec<Artifact>,
    started: Vec<Invocation>,
}

fn host(launch: Event) -> Host {
    Host {
        workspace: None,
        write: None,
        launch: Some(launch),
        created: Vec::new(),
        written: Vec::new(),
        started: Vec::new(),
    }
}

fn exited(success: bool, stdout: &[u8], stderr: &[u8]) -> Event {
    Event::ProcessExited(ProcessReport {
        success,
        stdout: stdout.to_vec(),
        stderr: stderr.to_vec(),
    })
}

fn run(host: &mut Host, pipeline: &mut Pipeline<JS_TS_deno>) -> Outcome {
    let mut action = pipeline.pending();
    for _ in 0..16 {
        let event = match action {
            Action::Continue => Event::Proceed,
            Action::CreateWorkspace(path) => {
                host.created.push(path);
                match host.workspace.take() {
                    Some(detail) => Event::WorkspaceDenied(detail),
                    None => Event::WorkspaceReady,
                }
            }
            Action::WriteArtifact(artifact) => {
                host.written.push(artifact);
                match host.write.take() {
                    Some(detail) => Event::ArtifactWriteFailed(detail),
                    None => Event::ArtifactWritten,
                }
            }
            Action::Launch(invocation) => {
                host.started.push(invocation);
                host.launch.take().unwrap()
            }
            Action::Finish(outcome) => return outcome,
        };
        action = pipeline.step(event);
    }
    panic!("the run did not end");
}

fn request(work_dir: &str, block: &str, line: &str) -> DataHolder {
    let mut data = DataHolder::new();
    data.filetype = String::from("typescript");
    data.work_dir = String::from(work_dir);
    data.current_bloc = String::from(block);
    data.current_line = String::from(line);
    data
}

#[test]
fn simple_print() {
    let mut data = DataHolder::new();

    data.current_bloc = String::from("let message: string = 'Hi';\nconsole.log(message);");
    let interpreter = JS_TS_deno::new(data);
    let mut pipeline = Pipeline::new(interpreter);
    let mut deno = host(exited(true, b"Hi\n", b""));
    let res = run(&mut deno, &mut pipeline).into_result();

    let string_result = res.unwrap();

    assert_eq!(string_result, "Hi\n");
}

#[test]
fn block_at_bloc_level_is_written_and_run() {
    let data = request(
        "/home/u/.cache/sniprun",
        "let message: string = 'Hi';\nconsole.log(message);",
        "console.log(message);",
    );
    let mut pipeline = Pipeline::new(JS_TS_deno::new_with_level(data, SupportLevel::Bloc));
    let mut deno = host(exited(true, b"Hi\n", b""));
    let outcome = run(&mut deno, &mut pipeline);
    assert_eq!(outcome, Outcome::Success(String::from("Hi\n")));
    assert_eq!(deno.created, vec![String::from("/home/u/.cache/sniprun/JS_TS_deno")]);
    assert_eq!(
        deno.written,
        vec![Artifact {
            path: String::from("/home/u/.cache/sniprun/JS_TS_deno/main.ts"),
            content: String::from("let message: string = 'Hi';\nconsole.log(message);"),
        }]
    );
    assert_eq!(
        deno.started,
        vec![Invocation {
            program: String::from("deno"),
            args: vec![String::from("run"), String::from("-A"), String::from("--unstable")],
            artifact_path: String::from("/home/u/.cache/sniprun/JS_TS_deno/main.ts"),
        }]
    );
    assert_eq!(pipeline.stage(), &Stage::Done(String::from("Hi\n")));
}

#[test]
fn line_at_line_level_is_written_and_run() {
    let data = request("/c", " \t\r\n ", "console.log(1+1)");
    let mut pipeline = Pipeline::new(JS_TS_deno::new_with_level(data, SupportLevel::Line));
    let mut deno = host(exited(true, b"2\n", b""));
    let outcome = run(&mut deno, &mut pipeline);
    assert_eq!(outcome, Outcome::Success(String::from("2\n")));
    assert_eq!(deno.written.len(), 1);
    assert_eq!(deno.written[0].content, "console.log(1+1)");
}

#[test]
fn missing_program_is_a_launch_failure() {
    let data = request("/c", "console.log(1)", "");
    let mut pipeline = Pipeline::new(JS_TS_deno::new(data));
    let mut deno = host(Event::LaunchFailed(String::from("No such file or directory (os error 2)")));
    let outcome = run(&mut deno, &mut pipeline);
    assert_eq!(
        outcome,
        Outcome::Failure(
            FailureKind::ProcessLaunchError,
            String::from("No such file or directory (os error 2)")
        )
    );
    assert_eq!(deno.created, vec![String::from("/c/JS_TS_deno")]);
    assert_eq!(
        deno.written,
        vec![Artifact {
            path: String::from("/c/JS_TS_deno/main.ts"),
            content: String::from("console.log(1)"),
        }]
    );
}

#[test]
fn failing_program_reports_its_diagnostics_verbatim() {
    let diagnostics = "error: Uncaught ReferenceError: x is not defined\nconsole.log(x)\n            ^\n    at file:///c/JS_TS_deno/main.ts:1:13\n";
    let data = request("/c", "console.log(x)", "");
    let mut pipeline = Pipeline::new(JS_TS_deno::new(data));
    let mut deno = host(exited(false, b"partial output", diagnostics.as_bytes()));
    let outcome = run(&mut deno, &mut pipeline);
    assert_eq!(
        outcome,
        Outcome::Failure(FailureKind::RuntimeError, String::from(diagnostics))
    );
    assert_eq!(
        outcome.into_result(),
        Err(SniprunError::RuntimeError(String::from(diagnostics)))
    );
}

#[test]
fn blank_request_runs_with_empty_code() {
    let data = request("/c", " \n\t\r\n", "    ");
    let mut pipeline = Pipeline::new(JS_TS_deno::new(data));
    let mut deno = host(exited(true, b"", b""));
    let outcome = run(&mut deno, &mut pipeline);
    assert_eq!(outcome, Outcome::Success(String::new()));
    assert_eq!(deno.written.len(), 1);
    assert_eq!(deno.written[0].content, "");
    assert_eq!(deno.started.len(), 1);
}

#[test]
fn blank_request_passes_on_what_the_runtime_says() {
    let data = request("/c", "", "");
    let mut pipeline = Pipeline::new(JS_TS_deno::new(data));
    let mut deno = host(exited(true, b"nothing to run\n", b""));
    assert_eq!(
        run(&mut deno, &mut pipeline),
        Outcome::Success(String::from("nothing to run\n"))
    );
}

#[test]
fn echoed_artifact_comes_back_unchanged() {
    let code = "const s = 'h\u{e9}llo \u{1f980}';\n\tconsole.log(s)\n";
    let data = request("/c", code, "");
    let mut pipeline = Pipeline::new(JS_TS_deno::new(data));
    assert_eq!(pipeline.step(Event::WorkspaceReady), Action::Continue);
    assert_eq!(pipeline.step(Event::Proceed), Action::Continue);
    let written = match pipeline.step(Event::Proceed) {
        Action::WriteArtifact(artifact) => artifact,
        other => panic!("unexpected request {:?}", other),
    };
    assert_eq!(written.content, code);
    pipeline.step(Event::ArtifactWritten);
    let echoed = written.content.clone().into_bytes();
    assert_eq!(
        pipeline.step(exited(true, &echoed, b"")),
        Action::Finish(Outcome::Success(written.content))
    );
}

#[test]
fn denied_workspace_ends_the_run() {
    let data = request("/root/forbidden", "console.log(1)", "");
    let mut pipeline = Pipeline::new(JS_TS_deno::new(data));
    let mut deno = host(exited(true, b"1\n", b""));
    deno.workspace = Some(String::from("Permission denied (os error 13)"));
    let outcome = run(&mut deno, &mut pipeline);
    assert_eq!(
        outcome,
        Outcome::Failure(
            FailureKind::WorkspaceCreationError,
            String::from("Permission denied (os error 13)")
        )
    );
    assert!(deno.written.is_empty());
    assert!(deno.started.is_empty());
}

#[test]
fn failed_write_ends_the_run() {
    let data = request("/c", "console.log(1)", "");
    let mut pipeline = Pipeline::new(JS_TS_deno::new(data));
    let mut deno = host(exited(true, b"1\n", b""));
    deno.write = Some(String::from("No space left on device (os error 28)"));
    let outcome = run(&mut deno, &mut pipeline);
    assert_eq!(
        outcome,
        Outcome::Failure(
            FailureKind::ArtifactWriteError,
            String::from("No space left on device (os error 28)")
        )
    );
    assert!(deno.started.is_empty());
    assert_eq!(
        pipeline.stage(),
        &Stage::Failed(
            FailureKind::ArtifactWriteError,
            String::from("No space left on device (os error 28)")
        )
    );
}

#[test]
fn timeout_ends_the_run() {
    let data = request("/c", "while (true) {}", "");
    let mut pipeline = Pipeline::new(JS_TS_deno::new(data));
    let mut deno = host(Event::TimedOut(String::from("stopped after 10 s")));
    assert_eq!(
        run(&mut deno, &mut pipeline),
        Outcome::Failure(FailureKind::Timeout, String::from("stopped after 10 s"))
    );
}

#[test]
fn undecodable_output_is_a_decoding_failure() {
    let data = request("/c", "console.log(1)", "");
    let mut pipeline = Pipeline::new(JS_TS_deno::new(data));
    let mut deno = host(exited(true, &[b'o', b'k', 0xff, b'\n'], b""));
    match run(&mut deno, &mut pipeline) {
        Outcome::Failure(kind, detail) => {
            assert_eq!(kind, FailureKind::DecodingError);
            assert_eq!(detail, "invalid utf-8 sequence of 1 bytes from index 2");
        }
        other => panic!("unexpected outcome {:?}", other),
    }
}

#[test]
fn workspace_is_asked_for_again_until_it_is_answered() {
    let data = request("/c", "console.log(1)", "");
    let mut pipeline = Pipeline::new(JS_TS_deno::new(data));
    let wanted = Action::CreateWorkspace(String::from("/c/JS_TS_deno"));
    assert_eq!(pipeline.pending(), wanted);
    assert_eq!(pipeline.step(Event::Proceed), wanted);
    assert_eq!(pipeline.step(Event::ArtifactWritten), wanted);
    assert_eq!(pipeline.stage(), &Stage::Workspace);
    assert_eq!(pipeline.step(Event::WorkspaceReady), Action::Continue);
    assert_eq!(pipeline.stage(), &Stage::Fetch);

    let again = request("/c", "console.log(2)", "");
    let second = Pipeline::new(JS_TS_deno::new(again));
    assert_eq!(second.pending(), wanted);
}

#[test]
fn events_that_answer_nothing_change_nothing() {
    let data = request("/c", "console.log(1)", "");
    let mut pipeline = Pipeline::new(JS_TS_deno::new(data));
    pipeline.step(Event::WorkspaceReady);
    assert_eq!(pipeline.step(Event::ArtifactWritten), Action::Continue);
    assert_eq!(pipeline.stage(), &Stage::Fetch);
    assert_eq!(pipeline.backend().get_current_level(), SupportLevel::Bloc);
    pipeline.step(Event::Proceed);
    assert_eq!(pipeline.stage(), &Stage::Augment);
    let write = pipeline.step(Event::Proceed);
    assert_eq!(pipeline.stage(), &Stage::Build);
    assert_eq!(pipeline.step(Event::Proceed), write);
    assert_eq!(pipeline.step(exited(true, b"1\n", b"")), write);
    assert_eq!(pipeline.stage(), &Stage::Build);
    let launch = pipeline.step(Event::ArtifactWritten);
    assert_eq!(pipeline.stage(), &Stage::Run);
    assert_eq!(pipeline.step(Event::WorkspaceReady), launch);
    assert_eq!(pipeline.step(Event::ArtifactWriteFailed(String::from("late"))), launch);
    assert_eq!(pipeline.stage(), &Stage::Run);
}

#[test]
fn a_finished_run_stays_finished() {
    let data = request("/c", "console.log(1)", "");
    let mut pipeline = Pipeline::new(JS_TS_deno::new(data));
    let mut deno = host(exited(true, b"1\n", b""));
    let outcome = run(&mut deno, &mut pipeline);
    assert_eq!(outcome, Outcome::Success(String::from("1\n")));
    assert_eq!(pipeline.pending(), Action::Finish(Outcome::Success(String::from("1\n"))));
    assert_eq!(
        pipeline.step(Event::LaunchFailed(String::from("late"))),
        Action::Finish(Outcome::Success(String::from("1\n")))
    );
    assert_eq!(
        pipeline.step(exited(false, b"", b"boom")),
        Action::Finish(Outcome::Success(String::from("1\n")))
    );
    assert_eq!(pipeline.stage(), &Stage::Done(String::from("1\n")));
}
