use flow_core::summarizer::{
    default_model, written_message, Args, Commands, RunAction, RunEvent, SummarizeError,
    SummarizerRun,
};

fn args(stream: bool) -> Args {
    Args {
        debug: false,
        stream,
        command: Commands::Ollama {
            model: "qwen3:1.7b".to_string(),
            input: "tests/i_sky_input.md".to_string(),
            output: "tests/o_sky_output.md".to_string(),
        },
    }
}

fn failure(a: RunAction) -> SummarizeError {
    match a {
        RunAction::Finish(Err(e)) => e,
        other => panic!("not a failure: {:?}", other),
    }
}

#[test]
fn existfail() {
    let a = Args {
        debug: false,
        stream: false,
        command: Commands::Ollama {
            model: "qwen3:1.7b".to_string(),
            input: "tests/s_sky_src.rs".to_string(),
            output: "tests/o_sky_output.md".to_string(),
        },
    };
    let (run, act) = SummarizerRun::start(a);
    assert!(matches!(act, RunAction::CheckOutputExists(ref p) if p == "tests/o_sky_output.md"));
    let (_, act) = run.step(RunEvent::OutputExists(true));
    let result: Result<(), SummarizeError> = match act {
        RunAction::Finish(r) => r,
        other => panic!("expected the run to finish, got {:?}", other),
    };
    assert!(result.is_err(), "Expected error when output file exists");
    let e = result.unwrap_err();
    assert_eq!(e.message(), "Output file already exists: tests/o_sky_output.md");
}

#[test]
fn existing_output_is_never_written() {
    let (run, _) = SummarizerRun::start(args(true));
    let (run, _) = run.step(RunEvent::OutputExists(true));
    let (run, a) = run.step(RunEvent::Done);
    assert!(matches!(failure(a), SummarizeError::UnexpectedEvent));
    let (_, a) = run.step(RunEvent::Reply("x".to_string()));
    assert!(matches!(a, RunAction::Finish(Err(_))));
}

#[test]
fn single_reply_is_written_once() {
    let (run, _) = SummarizerRun::start(args(false));
    let (run, a) = run.step(RunEvent::OutputExists(false));
    assert!(matches!(a, RunAction::ReadInput(ref p) if p == "tests/i_sky_input.md"));
    let (run, a) = run.step(RunEvent::InputRead("Why is the sky blue?".to_string()));
    assert!(matches!(a, RunAction::PrepareOutputDir(ref p) if p == "tests/o_sky_output.md"));
    let (run, a) = run.step(RunEvent::Done);
    assert!(matches!(a, RunAction::OpenOutput(ref p) if p == "tests/o_sky_output.md"));
    let (run, a) = run.step(RunEvent::Done);
    match &a {
        RunAction::SendChat { model, content, stream } => {
            assert_eq!(model, "qwen3:1.7b");
            assert_eq!(content, "Why is the sky blue?");
            assert!(!stream);
        }
        other => panic!("expected a chat, got {:?}", other),
    }
    let (run, a) = run.step(RunEvent::Reply("Rayleigh scattering.".to_string()));
    assert!(matches!(a, RunAction::Write(ref t) if t == "Rayleigh scattering."));
    let (_, a) = run.step(RunEvent::Done);
    assert!(matches!(a, RunAction::Finish(Ok(()))));
}

#[test]
fn streamed_reply_is_written_piece_by_piece() {
    let (run, _) = SummarizerRun::start(args(true));
    let (run, _) = run.step(RunEvent::CheckFailed);
    let (run, _) = run.step(RunEvent::InputRead("q".to_string()));
    let (run, _) = run.step(RunEvent::Done);
    let (run, a) = run.step(RunEvent::Done);
    assert!(matches!(a, RunAction::SendChat { stream: true, .. }));
    let (run, a) = run.step(RunEvent::Reply("Ray".to_string()));
    assert!(matches!(a, RunAction::Write(ref t) if t == "Ray"));
    let (run, a) = run.step(RunEvent::Done);
    assert!(matches!(a, RunAction::NextPiece));
    let (run, a) = run.step(RunEvent::Reply("leigh".to_string()));
    assert!(matches!(a, RunAction::Write(ref t) if t == "leigh"));
    let (run, _) = run.step(RunEvent::Done);
    let (_, a) = run.step(RunEvent::StreamEnded);
    assert!(matches!(a, RunAction::Finish(Ok(()))));
}

#[test]
fn unreadable_input_is_reported_with_its_path() {
    let (run, _) = SummarizerRun::start(args(false));
    let (run, _) = run.step(RunEvent::OutputExists(false));
    let (_, a) = run.step(RunEvent::CallFailed("No such file".to_string()));
    let e = failure(a);
    assert_eq!(e.message(), "Failed to read input file from \"tests/i_sky_input.md\"");
}

#[test]
fn failed_write_fails_the_run() {
    let (run, _) = SummarizerRun::start(args(false));
    let (run, _) = run.step(RunEvent::OutputExists(false));
    let (run, _) = run.step(RunEvent::InputRead("q".to_string()));
    let (run, _) = run.step(RunEvent::Done);
    let (run, _) = run.step(RunEvent::Done);
    let (run, _) = run.step(RunEvent::Reply("a".to_string()));
    let (_, a) = run.step(RunEvent::CallFailed("disk full".to_string()));
    assert_eq!(failure(a).message(), "disk full");
}

#[test]
fn messages_and_defaults() {
    assert_eq!(default_model(), "llama2");
    assert_eq!(written_message(&"out.md".to_string()), "Response written to out.md");
}

fn existing_output_args() -> Args {
    Args {
        debug: false,
        stream: false,
        command: Commands::Ollama {
            model: "qwen3:1.7b".to_string(),
            input: "tests/why_is_the_sky_blue_input.md".to_string(),
            output: "tests/test_existing_output.md".to_string(),
        },
    }
}

fn refuse_existing_output() {
    let (run, _) = SummarizerRun::start(existing_output_args());
    let (_, a) = run.step(RunEvent::OutputExists(true));
    let result: Result<(), SummarizeError> = match a {
        RunAction::Finish(r) => r,
        other => panic!("expected the run to finish, got {:?}", other),
    };
    assert!(result.is_err(), "Expected error when output file exists");
    let error = result.unwrap_err();
    assert!(
        error.message().contains("Output file already exists"),
        "Expected error message about existing file"
    );
}

#[test]
fn test_existing_output_test_existing_output_file() {
    refuse_existing_output();
}

#[test]
fn why_is_the_sky_blue_test_existing_output_file() {
    refuse_existing_output();
}

fn unreadable_message(input: &str) -> String {
    let a = Args {
        debug: false,
        stream: false,
        command: Commands::Ollama {
            model: "m".to_string(),
            input: input.to_string(),
            output: "out.md".to_string(),
        },
    };
    let (run, _) = SummarizerRun::start(a);
    let (run, _) = run.step(RunEvent::OutputExists(false));
    let (_, a) = run.step(RunEvent::CallFailed("denied".to_string()));
    failure(a).message()
}

#[test]
fn unreadable_input_path_is_escaped_like_debug() {
    assert_eq!(unreadable_message("a\\b"), "Failed to read input file from \"a\\\\b\"");
    assert_eq!(unreadable_message("it's.md"), "Failed to read input file from \"it's.md\"");
    for p in [
        "a\\b",
        "C:\\Users\\me\\in.md",
        "say \"hi\".md",
        "tab\there\nnext\r\0",
        "caf\u{e9}.md",
        "it's.md",
        "del\u{7f}bell\u{7}",
        "\u{301}x",
        "",
    ] {
        assert_eq!(
            unreadable_message(p),
            format!("Failed to read input file from {:?}", std::path::Path::new(p).display())
        );
    }
}
