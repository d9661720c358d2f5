use asm2hex::bits::BitsMode;
use asm2hex::log::Severity;
use asm2hex::paths::{jobs_for, ConversionJob};
use asm2hex::pipeline::{Action, Batch, BatchState, Event, Stage, ToolResult};

fn job(stem: &str) -> ConversionJob {
    ConversionJob::from_stem(&format!("/src/{}.asm", stem), "/out", stem)
}

fn lines_of(state: &BatchState, seg: usize) -> Vec<(Severity, String)> {
    state.log[seg].iter().map(|l| (l.severity, l.text.clone())).collect()
}

#[test]
fn empty_batch_does_not_start() {
    let mut state = BatchState::new();
    state.preview = "old".to_string();
    assert!(Batch::start(vec![], BitsMode::BITS64, true, &mut state).is_none());
    assert_eq!(state.preview, "old");
    assert_eq!(state.done, 0);
    assert!(!state.finished);
}

#[test]
fn assembler_error_is_logged_and_job_stops() {
    let mut state = BatchState::new();
    state.latest_output = Some("/out/earlier.hex".to_string());
    let mut b = Batch::start(vec![job("foo")], BitsMode::BITS64, false, &mut state).unwrap();
    match b.next_action(&state) {
        Action::RunAssembler(src, bin) => {
            assert_eq!(src, "/src/foo.asm");
            assert_eq!(bin, "/out/foo.bin");
        }
        _ => panic!("expected the assembler to run"),
    }
    let a = b.step(
        &mut state,
        Event::AssemblerFinished(ToolResult::Failed("undefined symbol".to_string())),
    );
    assert!(matches!(a, Action::Idle));
    let log = lines_of(&state, 0);
    assert!(log
        .iter()
        .any(|(sev, text)| *sev == Severity::Error && text.contains("undefined symbol")));
    assert!(state.log[0].iter().any(|l| l.render().starts_with("[error]")));
    assert_eq!(state.latest_output, Some("/out/earlier.hex".to_string()));
    assert!(state.finished);
    assert_eq!((state.done, state.total), (1, 1));
}

#[test]
fn full_success_sets_latest_and_preview() {
    let mut state = BatchState::new();
    let mut b = Batch::start(vec![job("one")], BitsMode::BITS16, false, &mut state).unwrap();
    let a = b.step(&mut state, Event::AssemblerFinished(ToolResult::Succeeded));
    match a {
        Action::RunConverter(bin, hex) => {
            assert_eq!(bin, "/out/one.bin");
            assert_eq!(hex, "/out/one.hex");
        }
        _ => panic!("expected the converter to run"),
    }
    let a = b.step(&mut state, Event::ConverterFinished(ToolResult::Succeeded));
    match a {
        Action::ReadOutput(hex) => assert_eq!(hex, "/out/one.hex"),
        _ => panic!("expected the output to be read"),
    }
    let hex_lines = vec![":01000000F40B".to_string(), ":00000001FF".to_string()];
    let a = b.step(&mut state, Event::OutputRead(Some(hex_lines)));
    assert!(matches!(a, Action::Idle));
    let log = lines_of(&state, 0);
    assert!(log
        .iter()
        .any(|(sev, text)| *sev == Severity::Success && text.contains("/out/one.hex")));
    assert_eq!(state.latest_output, Some("/out/one.hex".to_string()));
    assert_eq!(state.preview, ":01000000F40B\n:00000001FF");
    assert!(state.finished);
}

#[test]
fn failure_then_success_in_two_jobs() {
    let mut state = BatchState::new();
    let files = vec!["/src/bad.asm".to_string(), "/src/good.asm".to_string()];
    let jobs = jobs_for(&files, "/out");
    let mut b = Batch::start(jobs, BitsMode::BITS64, false, &mut state).unwrap();
    let a = b.step(
        &mut state,
        Event::AssemblerFinished(ToolResult::Failed("bad.asm:1: error".to_string())),
    );
    match a {
        Action::RunAssembler(src, _) => assert_eq!(src, "/src/good.asm"),
        _ => panic!("expected the second job to start"),
    }
    assert_eq!((state.done, state.total, state.finished), (1, 2, false));
    assert_eq!(state.latest_output, None);
    b.step(&mut state, Event::AssemblerFinished(ToolResult::Succeeded));
    b.step(&mut state, Event::ConverterFinished(ToolResult::Succeeded));
    b.step(&mut state, Event::OutputRead(Some(vec![":00000001FF".to_string()])));
    assert!(state.finished);
    assert_eq!((state.done, state.total), (2, 2));
    assert_eq!(state.log.len(), 2);
    assert!(lines_of(&state, 0).iter().any(|(sev, _)| *sev == Severity::Error));
    assert!(lines_of(&state, 1).iter().any(|(sev, _)| *sev == Severity::Success));
    assert_eq!(state.latest_output, Some("/out/good.hex".to_string()));
    assert_eq!(b.stage, Stage::Finished);
}

#[test]
fn every_job_logged_in_order() {
    let mut state = BatchState::new();
    let files = vec!["c.asm".to_string(), "a.asm".to_string(), "b.asm".to_string()];
    let mut b = Batch::start(jobs_for(&files, "."), BitsMode::BITS64, false, &mut state).unwrap();
    b.step(&mut state, Event::AssemblerFinished(ToolResult::LaunchFailed));
    b.step(&mut state, Event::AssemblerFinished(ToolResult::Succeeded));
    b.step(&mut state, Event::ConverterFinished(ToolResult::Failed("x".to_string())));
    b.step(&mut state, Event::AssemblerFinished(ToolResult::Succeeded));
    b.step(&mut state, Event::ConverterFinished(ToolResult::LaunchFailed));
    assert!(state.finished);
    assert_eq!((state.done, state.total), (3, 3));
    assert_eq!(state.log.len(), 3);
    for (i, f) in files.iter().enumerate() {
        assert_eq!(state.log[i][0].text, format!("processing {}", f));
    }
    assert_eq!(state.log[0][1].text, "could not run assembler");
    assert_eq!(state.log[1][1].text, "converter failed: x");
    assert_eq!(state.log[2][1].text, "could not run converter");
}

#[test]
fn auto_insert_writes_directive_then_assembles() {
    let mut state = BatchState::new();
    let mut b = Batch::start(vec![job("p")], BitsMode::BITS32, true, &mut state).unwrap();
    match b.next_action(&state) {
        Action::ReadSource(p) => assert_eq!(p, "/src/p.asm"),
        _ => panic!("expected the source to be read"),
    }
    let a = b.step(&mut state, Event::SourceRead(Ok("nop\n".to_string())));
    match a {
        Action::WriteSource(p, t) => {
            assert_eq!(p, "/src/p.asm");
            assert_eq!(t, "[bits 32]\nnop\n");
        }
        _ => panic!("expected the source to be written"),
    }
    let a = b.step(&mut state, Event::SourceWritten(Ok(())));
    assert!(matches!(a, Action::RunAssembler(_, _)));
    assert_eq!(state.log[0][1].text, "inserted [bits 32] into /src/p.asm");
    assert_eq!(state.log[0][1].severity, Severity::Info);
}

#[test]
fn auto_insert_skips_write_when_directive_present() {
    let mut state = BatchState::new();
    let mut b = Batch::start(vec![job("q")], BitsMode::BITS32, true, &mut state).unwrap();
    let a = b.step(&mut state, Event::SourceRead(Ok("[bits 16]\nnop\n".to_string())));
    assert!(matches!(a, Action::RunAssembler(_, _)));
    assert_eq!(state.log[0].len(), 1);
}

#[test]
fn preprocessing_failures_are_warnings() {
    let mut state = BatchState::new();
    let mut b = Batch::start(vec![job("r"), job("s")], BitsMode::BITS16, true, &mut state).unwrap();
    let a = b.step(&mut state, Event::SourceRead(Err("denied".to_string())));
    assert!(matches!(a, Action::RunAssembler(_, _)));
    assert_eq!(state.log[0][1].severity, Severity::Warning);
    assert_eq!(state.log[0][1].text, "could not read /src/r.asm: denied");
    b.step(&mut state, Event::AssemblerFinished(ToolResult::LaunchFailed));
    b.step(&mut state, Event::SourceRead(Ok("nop".to_string())));
    let a = b.step(&mut state, Event::SourceWritten(Err("read-only".to_string())));
    assert!(matches!(a, Action::RunAssembler(_, _)));
    assert_eq!(state.log[1][1].text, "could not insert [bits 16]: read-only");
    assert_eq!(state.log[1][1].severity, Severity::Warning);
}

#[test]
fn unexpected_event_changes_nothing() {
    let mut state = BatchState::new();
    let mut b = Batch::start(vec![job("u")], BitsMode::BITS64, false, &mut state).unwrap();
    let a = b.step(&mut state, Event::OutputRead(None));
    assert!(matches!(a, Action::RunAssembler(_, _)));
    assert_eq!(b.stage, Stage::Assemble);
    assert_eq!(state.log[0].len(), 1);
    assert_eq!(state.done, 0);
}

#[test]
fn unreadable_output_keeps_preview() {
    let mut state = BatchState::new();
    state.preview = "previous".to_string();
    let mut b = Batch::start(vec![job("v")], BitsMode::BITS64, false, &mut state).unwrap();
    b.step(&mut state, Event::AssemblerFinished(ToolResult::Succeeded));
    b.step(&mut state, Event::ConverterFinished(ToolResult::Succeeded));
    b.step(&mut state, Event::OutputRead(None));
    assert_eq!(state.preview, "previous");
    assert_eq!(state.latest_output, Some("/out/v.hex".to_string()));
    assert!(state.finished);
}

#[test]
fn clearing_the_log_keeps_outputs() {
    let mut state = BatchState::new();
    let _b = Batch::start(vec![job("w")], BitsMode::BITS64, false, &mut state).unwrap();
    state.clear_log();
    assert!(state.log.is_empty());
    assert_eq!(state.total, 1);
}
