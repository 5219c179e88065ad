use encryptor::materialize::PathState;
use encryptor::pipeline::{Action, Event, MaterializeWarning, Phase, Pipeline, PipelineError};
use encryptor::transform::XOR_KEY;

/// An in-memory stand-in for the filesystem the driver would touch: the
/// input file's content (if it exists), the output file's content (if it
/// exists), and whether the output's parent directory exists.
struct FakeFs {
    input: Option<Vec<u8>>,
    output: Option<Vec<u8>>,
    parent_exists: bool,
    dir_create_works: bool,
    placeholder_create_works: bool,
    write_works: bool,
}

impl FakeFs {
    fn with_input(bytes: Vec<u8>) -> FakeFs {
        FakeFs {
            input: Some(bytes),
            output: None,
            parent_exists: false,
            dir_create_works: true,
            placeholder_create_works: true,
            write_works: true,
        }
    }
}

/// Drives one full pipeline run against the fake filesystem, performing each
/// requested action and reporting its outcome, exactly as the driver would.
fn run(
    fs: &mut FakeFs,
    input_path: &str,
    output_path: &str,
    key: u32,
) -> (Result<(), PipelineError>, Vec<MaterializeWarning>, Vec<Action>) {
    let (mut pipeline, first) = Pipeline::start(input_path.to_string(), output_path.to_string(), key);
    let mut action = Some(first);
    let mut warnings = Vec::new();
    let mut performed = Vec::new();
    while let Some(a) = action {
        performed.push(a);
        let event = match a {
            Action::ReadInput => match &fs.input {
                Some(bytes) => Event::ReadOk(bytes.clone()),
                None => Event::ReadErr("No such file or directory".to_string()),
            },
            Action::ProbeOutput => Event::Probed(PathState {
                has_parent: true,
                parent_exists: fs.parent_exists,
                has_file_name: true,
                path_exists: fs.output.is_some(),
            }),
            Action::CreateParentDirs => {
                if fs.dir_create_works {
                    fs.parent_exists = true;
                    Event::DirCreated(true)
                } else {
                    Event::DirCreated(false)
                }
            }
            Action::CreatePlaceholder => {
                if fs.placeholder_create_works {
                    fs.output = Some(Vec::new());
                    Event::PlaceholderCreated(true)
                } else {
                    Event::PlaceholderCreated(false)
                }
            }
            Action::WriteOutput => {
                if fs.write_works {
                    fs.output = Some(pipeline.data.clone());
                    Event::WriteOk
                } else {
                    Event::WriteErr("Permission denied".to_string())
                }
            }
        };
        let outcome = pipeline.step(event);
        pipeline = outcome.pipeline;
        action = outcome.action;
        if let Some(w) = outcome.warning {
            warnings.push(w);
        }
    }
    (pipeline.into_result(), warnings, performed)
}

#[test]
fn pipeline_round_trip_through_fresh_directory() {
    // An existing input of N bytes, an output path whose parent directory
    // does not exist yet: the run creates directory and placeholder, writes
    // exactly N bytes, and a second run with the paths swapped restores the
    // original content byte for byte.
    let original: Vec<u8> = (0u8..=255).cycle().take(100).collect();
    let mut fs = FakeFs::with_input(original.clone());
    let (result, warnings, performed) = run(&mut fs, "data/in.bin", "out/dir/out.bin", XOR_KEY);
    assert!(result.is_ok());
    assert!(warnings.is_empty());
    assert_eq!(
        performed,
        vec![
            Action::ReadInput,
            Action::ProbeOutput,
            Action::CreateParentDirs,
            Action::CreatePlaceholder,
            Action::WriteOutput,
        ]
    );
    let written = fs.output.clone().expect("output file must exist");
    assert_eq!(written.len(), original.len());
    assert_ne!(written, original);

    let mut fs_back = FakeFs::with_input(written);
    fs_back.parent_exists = true;
    let (result_back, _, _) = run(&mut fs_back, "out/dir/out.bin", "data/in.bin", XOR_KEY);
    assert!(result_back.is_ok());
    assert_eq!(fs_back.output, Some(original));
}

#[test]
fn missing_input_fails_without_touching_output() {
    let mut fs = FakeFs::with_input(Vec::new());
    fs.input = None;
    let (result, warnings, performed) = run(&mut fs, "absent.bin", "out.bin", XOR_KEY);
    match result {
        Err(PipelineError::InputReadError { path, cause }) => {
            assert_eq!(path, "absent.bin");
            assert_eq!(cause, "No such file or directory");
        }
        other => panic!("expected InputReadError, got {:?}", other),
    }
    assert!(warnings.is_empty());
    // The pipeline aborted before any write: no output file was created.
    assert_eq!(performed, vec![Action::ReadInput]);
    assert!(fs.output.is_none());
}

#[test]
fn write_failure_reports_output_write_error() {
    let mut fs = FakeFs::with_input(b"payload".to_vec());
    fs.parent_exists = true;
    fs.write_works = false;
    let (result, _, _) = run(&mut fs, "in.bin", "locked/out.bin", XOR_KEY);
    match result {
        Err(PipelineError::OutputWriteError { path, cause }) => {
            assert_eq!(path, "locked/out.bin");
            assert_eq!(cause, "Permission denied");
        }
        other => panic!("expected OutputWriteError, got {:?}", other),
    }
}

#[test]
fn directory_failure_is_a_warning_not_an_error() {
    let mut fs = FakeFs::with_input(b"abc".to_vec());
    fs.dir_create_works = false;
    let (result, warnings, performed) = run(&mut fs, "in.bin", "deep/out.bin", XOR_KEY);
    // The soft failure is recorded, the run carries on, and the write itself
    // decides: here it succeeds, so the run as a whole succeeds.
    assert!(result.is_ok());
    assert_eq!(warnings, vec![MaterializeWarning::DirectoryCreateWarning]);
    assert!(performed.contains(&Action::WriteOutput));
    assert!(fs.output.is_some());
}

#[test]
fn placeholder_failure_is_a_warning_not_an_error() {
    let mut fs = FakeFs::with_input(b"abc".to_vec());
    fs.parent_exists = true;
    fs.placeholder_create_works = false;
    let (result, warnings, _) = run(&mut fs, "in.bin", "out.bin", XOR_KEY);
    assert!(result.is_ok());
    assert_eq!(warnings, vec![MaterializeWarning::PlaceholderCreateWarning]);
    assert!(fs.output.is_some());
}

#[test]
fn materializer_skips_existing_parent_and_file() {
    let mut fs = FakeFs::with_input(b"abc".to_vec());
    fs.parent_exists = true;
    fs.output = Some(b"old content".to_vec());
    let (result, warnings, performed) = run(&mut fs, "in.bin", "out.bin", XOR_KEY);
    assert!(result.is_ok());
    assert!(warnings.is_empty());
    assert_eq!(
        performed,
        vec![Action::ReadInput, Action::ProbeOutput, Action::WriteOutput]
    );
}

/// Drives the materialization phases alone: probes `st`, performs the
/// requested create actions (always successfully) on `st`, and stops as soon
/// as the pipeline asks for the final write. Returns the create actions that
/// were requested, the warnings, and the path facts afterwards.
fn materialize_pass(st: PathState) -> (Vec<Action>, Vec<MaterializeWarning>, PathState) {
    let (pipeline, first) = Pipeline::start("in".to_string(), "out".to_string(), 7);
    assert_eq!(first, Action::ReadInput);
    let outcome = pipeline.step(Event::ReadOk(vec![1, 2, 3]));
    assert_eq!(outcome.action, Some(Action::ProbeOutput));
    let mut st = st;
    let mut actions = Vec::new();
    let mut warnings = Vec::new();
    let mut outcome = outcome.pipeline.step(Event::Probed(st));
    loop {
        let a = outcome.action.expect("materialization must end in a write request");
        match a {
            Action::CreateParentDirs => {
                st.parent_exists = true;
                actions.push(a);
                outcome = outcome.pipeline.step(Event::DirCreated(true));
            }
            Action::CreatePlaceholder => {
                st.path_exists = true;
                actions.push(a);
                outcome = outcome.pipeline.step(Event::PlaceholderCreated(true));
            }
            Action::WriteOutput => break,
            other => panic!("unexpected action during materialization: {:?}", other),
        }
        if let Some(w) = outcome.warning {
            warnings.push(w);
        }
    }
    (actions, warnings, st)
}

#[test]
fn materialization_on_existing_path_is_idempotent() {
    // A path whose parent and file both exist: two materialization passes in
    // a row issue no create action, raise no warning and change nothing.
    let st = PathState {
        has_parent: true,
        parent_exists: true,
        has_file_name: true,
        path_exists: true,
    };
    let (actions1, warnings1, st1) = materialize_pass(st);
    assert!(actions1.is_empty());
    assert!(warnings1.is_empty());
    assert_eq!(st1, st);
    let (actions2, warnings2, st2) = materialize_pass(st1);
    assert!(actions2.is_empty());
    assert!(warnings2.is_empty());
    assert_eq!(st2, st);
}

#[test]
fn materialization_settles_after_one_pass() {
    // Nothing exists at first: one pass creates parent and placeholder; a
    // second pass over the resulting facts has nothing left to do.
    let st = PathState {
        has_parent: true,
        parent_exists: false,
        has_file_name: true,
        path_exists: false,
    };
    let (actions1, _, st1) = materialize_pass(st);
    assert_eq!(
        actions1,
        vec![Action::CreateParentDirs, Action::CreatePlaceholder]
    );
    assert!(st1.parent_exists && st1.path_exists);
    let (actions2, warnings2, st2) = materialize_pass(st1);
    assert!(actions2.is_empty());
    assert!(warnings2.is_empty());
    assert_eq!(st2, st1);
}

#[test]
fn bare_directory_path_gets_no_placeholder() {
    // A path with no file-name component: the materializer never asks for a
    // placeholder file.
    let st = PathState {
        has_parent: true,
        parent_exists: false,
        has_file_name: false,
        path_exists: false,
    };
    let (actions, _, _) = materialize_pass(st);
    assert_eq!(actions, vec![Action::CreateParentDirs]);
}

#[test]
fn pipeline_phases_progress_linearly() {
    let (pipeline, _) = Pipeline::start("a".to_string(), "b".to_string(), XOR_KEY);
    assert_eq!(pipeline.phase, Phase::Reading);
    let o = pipeline.step(Event::ReadOk(b"xyz".to_vec()));
    assert_eq!(o.pipeline.phase, Phase::Probing);
    let o = o.pipeline.step(Event::Probed(PathState {
        has_parent: true,
        parent_exists: true,
        has_file_name: true,
        path_exists: true,
    }));
    assert_eq!(o.pipeline.phase, Phase::Writing);
    let o = o.pipeline.step(Event::WriteOk);
    assert_eq!(o.pipeline.phase, Phase::Done);
    assert_eq!(o.action, None);
    assert!(o.pipeline.into_result().is_ok());
}
