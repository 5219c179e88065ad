use vstd::prelude::*;
use vstd::pervasive::unreached;
use crate::materialize::{needs_dir_creation, needs_placeholder, PathState};
use crate::transform::{transform_spec, xor_encrypt_decrypt};

verus! {

/// A fatal pipeline failure, annotated with the stage that produced it and
/// the path involved, together with the underlying cause as reported by the
/// driver. Either the input could not be read or the final write failed;
/// everything in between is advisory.
#[derive(Debug, Clone, PartialEq, Eq)]
pub enum PipelineError {
    /// The input file was missing, unreadable, or failed mid-read.
    InputReadError { path: String, cause: String },
    /// The final content write failed.
    OutputWriteError { path: String, cause: String },
}

/// A non-fatal diagnostic raised during materialization. The pipeline
/// records it and carries on; the subsequent write surfaces the real
/// failure if the problem was genuine.
#[derive(Debug, Clone, Copy, PartialEq, Eq, Structural)]
pub enum MaterializeWarning {
    /// Creating the output's parent directory failed.
    DirectoryCreateWarning,
    /// Creating the empty placeholder file failed.
    PlaceholderCreateWarning,
}

/// The filesystem work the driver must perform next on the pipeline's
/// behalf. The paths concerned are the pipeline's own `input_path` and
/// `output_path`; for `WriteOutput` the bytes are the pipeline's `data`.
#[derive(Debug, Clone, Copy, PartialEq, Eq, Structural)]
pub enum Action {
    /// Read the whole input file.
    ReadInput,
    /// Probe the output path and report a `PathState`.
    ProbeOutput,
    /// Create the output's parent directory and all missing ancestors.
    CreateParentDirs,
    /// Create an empty placeholder file at the output path.
    CreatePlaceholder,
    /// Overwrite the output path's full content with the pipeline's `data`.
    WriteOutput,
}

/// The driver's report of what an action produced.
pub enum Event {
    /// The input file was read in full.
    ReadOk(Vec<u8>),
    /// The read failed; the payload is the underlying cause.
    ReadErr(String),
    /// The output path was probed.
    Probed(PathState),
    /// Directory creation succeeded or failed.
    DirCreated(bool),
    /// Placeholder creation succeeded or failed.
    PlaceholderCreated(bool),
    /// The final write succeeded.
    WriteOk,
    /// The final write failed; the payload is the underlying cause.
    WriteErr(String),
}

/// Where the pipeline stands. The run is strictly linear: each phase waits
/// for exactly one kind of event and the two terminal phases accept none.
#[derive(Debug, Clone, Copy, PartialEq, Eq, Structural)]
pub enum Phase {
    /// Waiting for the input file's bytes.
    Reading,
    /// Waiting for the output path's probed facts.
    Probing,
    /// Waiting for the outcome of directory creation.
    EnsuringDir,
    /// Waiting for the outcome of placeholder creation.
    EnsuringPlaceholder,
    /// Waiting for the outcome of the final write.
    Writing,
    /// The run fully succeeded.
    Done,
    /// The run failed; `failure` holds the error.
    Failed,
}

/// One run of ingest, transform, materialize and commit, with the filesystem
/// work delegated to the driver: the pipeline hands out an `Action`, the
/// driver performs it and reports an `Event`, and `step` decides what
/// follows. All decisions, and the transform itself, happen here.
pub struct Pipeline {
    /// The path the input bytes are read from.
    pub input_path: String,
    /// The path the transformed bytes are committed to.
    pub output_path: String,
    /// The key of the XOR mask.
    pub key: u32,
    /// Where the run stands.
    pub phase: Phase,
    /// The transformed bytes, valid from `Probing` on.
    pub data: Vec<u8>,
    /// In `EnsuringDir`: whether a placeholder file is still owed once the
    /// directory step has been reported.
    pub pending_placeholder: bool,
    /// The error, exactly when the phase is `Failed`.
    pub failure: Option<PipelineError>,
    /// Ghost record of the bytes the driver read, so the contracts can tie
    /// `data` to the original input.
    pub input_bytes: Ghost<Seq<u8>>,
}

/// What one `step` hands back: the advanced pipeline, the next action if any
/// work is left, and at most one non-fatal warning.
pub struct StepOutcome {
    pub pipeline: Pipeline,
    pub action: Option<Action>,
    pub warning: Option<MaterializeWarning>,
}

impl Pipeline {
    /// Well-formedness: once the input has been read, `data` is exactly the
    /// transform of the input bytes, and an error is recorded exactly in the
    /// `Failed` phase.
    pub open spec fn wf(self) -> bool {
        &&& (self.phase is Probing || self.phase is EnsuringDir
            || self.phase is EnsuringPlaceholder || self.phase is Writing
            || self.phase is Done) ==> self.data@ == transform_spec(
            self.input_bytes@,
            self.key,
        )
        &&& (self.phase is Failed) <==> (self.failure is Some)
    }

    /// Which events the current phase is waiting for. The run is strictly
    /// sequential, so each phase accepts only the report of the action it
    /// handed out; the terminal phases accept nothing.
    pub open spec fn expects(self, event: Event) -> bool {
        match (self.phase, event) {
            (Phase::Reading, Event::ReadOk(_)) => true,
            (Phase::Reading, Event::ReadErr(_)) => true,
            (Phase::Probing, Event::Probed(_)) => true,
            (Phase::EnsuringDir, Event::DirCreated(_)) => true,
            (Phase::EnsuringPlaceholder, Event::PlaceholderCreated(_)) => true,
            (Phase::Writing, Event::WriteOk) => true,
            (Phase::Writing, Event::WriteErr(_)) => true,
            _ => false,
        }
    }

    /// Begins a run. The first action is always to read the input file;
    /// nothing is written or created before that read has succeeded.
    pub fn start(input_path: String, output_path: String, key: u32) -> (r: (Pipeline, Action))
        ensures
            r.0.wf(),
            r.0.phase is Reading,
            r.0.input_path@ == input_path@,
            r.0.output_path@ == output_path@,
            r.0.key == key,
            r.0.failure is None,
            r.1 == Action::ReadInput,
    {
        let pipeline = Pipeline {
            input_path,
            output_path,
            key,
            phase: Phase::Reading,
            data: Vec::new(),
            pending_placeholder: false,
            failure: None,
            input_bytes: Ghost(Seq::empty()),
        };
        (pipeline, Action::ReadInput)
    }

    /// Advances the run by one event. `step_spec` pins the transition,
    /// action and warning for every phase/event pair the protocol allows.
    pub fn step(self, event: Event) -> (r: StepOutcome)
        requires
            self.wf(),
            self.expects(event),
        ensures
            r.pipeline.wf(),
            step_spec(self, event, r),
    {
        let Pipeline {
            input_path,
            output_path,
            key,
            phase,
            data,
            pending_placeholder,
            failure: _,
            input_bytes,
        } = self;
        match (phase, event) {
            (Phase::Reading, Event::ReadOk(bytes)) => {
                let transformed = xor_encrypt_decrypt(bytes.as_slice(), key);
                StepOutcome {
                    pipeline: Pipeline {
                        input_path,
                        output_path,
                        key,
                        phase: Phase::Probing,
                        data: transformed,
                        pending_placeholder: false,
                        failure: None,
                        input_bytes: Ghost(bytes@),
                    },
                    action: Some(Action::ProbeOutput),
                    warning: None,
                }
            },
            (Phase::Reading, Event::ReadErr(cause)) => {
                let error = PipelineError::InputReadError { path: input_path.clone(), cause };
                StepOutcome {
                    pipeline: Pipeline {
                        input_path,
                        output_path,
                        key,
                        phase: Phase::Failed,
                        data,
                        pending_placeholder,
                        failure: Some(error),
                        input_bytes,
                    },
                    action: None,
                    warning: None,
                }
            },
            (Phase::Probing, Event::Probed(st)) => {
                if st.has_parent && !st.parent_exists {
                    StepOutcome {
                        pipeline: Pipeline {
                            input_path,
                            output_path,
                            key,
                            phase: Phase::EnsuringDir,
                            data,
                            pending_placeholder: st.has_file_name && !st.path_exists,
                            failure: None,
                            input_bytes,
                        },
                        action: Some(Action::CreateParentDirs),
                        warning: None,
                    }
                } else if st.has_file_name && !st.path_exists {
                    StepOutcome {
                        pipeline: Pipeline {
                            input_path,
                            output_path,
                            key,
                            phase: Phase::EnsuringPlaceholder,
                            data,
                            pending_placeholder: false,
                            failure: None,
                            input_bytes,
                        },
                        action: Some(Action::CreatePlaceholder),
                        warning: None,
                    }
                } else {
                    StepOutcome {
                        pipeline: Pipeline {
                            input_path,
                            output_path,
                            key,
                            phase: Phase::Writing,
                            data,
                            pending_placeholder: false,
                            failure: None,
                            input_bytes,
                        },
                        action: Some(Action::WriteOutput),
                        warning: None,
                    }
                }
            },
            (Phase::EnsuringDir, Event::DirCreated(ok)) => {
                let warning: Option<MaterializeWarning> = if ok {
                    None
                } else {
                    Some(MaterializeWarning::DirectoryCreateWarning)
                };
                if pending_placeholder {
                    StepOutcome {
                        pipeline: Pipeline {
                            input_path,
                            output_path,
                            key,
                            phase: Phase::EnsuringPlaceholder,
                            data,
                            pending_placeholder: false,
                            failure: None,
                            input_bytes,
                        },
                        action: Some(Action::CreatePlaceholder),
                        warning,
                    }
                } else {
                    StepOutcome {
                        pipeline: Pipeline {
                            input_path,
                            output_path,
                            key,
                            phase: Phase::Writing,
                            data,
                            pending_placeholder: false,
                            failure: None,
                            input_bytes,
                        },
                        action: Some(Action::WriteOutput),
                        warning,
                    }
                }
            },
            (Phase::EnsuringPlaceholder, Event::PlaceholderCreated(ok)) => {
                let warning: Option<MaterializeWarning> = if ok {
                    None
                } else {
                    Some(MaterializeWarning::PlaceholderCreateWarning)
                };
                StepOutcome {
                    pipeline: Pipeline {
                        input_path,
                        output_path,
                        key,
                        phase: Phase::Writing,
                        data,
                        pending_placeholder: false,
                        failure: None,
                        input_bytes,
                    },
                    action: Some(Action::WriteOutput),
                    warning,
                }
            },
            (Phase::Writing, Event::WriteOk) => {
                StepOutcome {
                    pipeline: Pipeline {
                        input_path,
                        output_path,
                        key,
                        phase: Phase::Done,
                        data,
                        pending_placeholder: false,
                        failure: None,
                        input_bytes,
                    },
                    action: None,
                    warning: None,
                }
            },
            (Phase::Writing, Event::WriteErr(cause)) => {
                let error = PipelineError::OutputWriteError { path: output_path.clone(), cause };
                StepOutcome {
                    pipeline: Pipeline {
                        input_path,
                        output_path,
                        key,
                        phase: Phase::Failed,
                        data,
                        pending_placeholder,
                        failure: Some(error),
                        input_bytes,
                    },
                    action: None,
                    warning: None,
                }
            },
            _ => unreached(),
        }
    }

    /// Hands the finished run to the caller: `Ok` after a full success,
    /// the recorded error after a failure.
    pub fn into_result(self) -> (r: Result<(), PipelineError>)
        requires
            self.wf(),
            self.phase is Done || self.phase is Failed,
        ensures
            (self.phase is Done) ==> (r is Ok),
            (self.phase is Failed) ==> (r matches Err(e) && Some(e) == self.failure),
    {
        match self.failure {
            Some(error) => Err(error),
            None => Ok(()),
        }
    }
}

/// The full transition relation of one `step`, phase/event pair by pair:
/// which phase follows, what the new `data` and recorded error are, which
/// action is handed out, and which warning, if any, is raised. The paths and
/// the key never change.
pub open spec fn step_spec(pre: Pipeline, event: Event, r: StepOutcome) -> bool {
    &&& r.pipeline.input_path@ == pre.input_path@
    &&& r.pipeline.output_path@ == pre.output_path@
    &&& r.pipeline.key == pre.key
    &&& match (pre.phase, event) {
        (Phase::Reading, Event::ReadOk(bytes)) => {
            &&& r.pipeline.phase is Probing
            &&& r.pipeline.input_bytes@ == bytes@
            &&& r.pipeline.data@ == transform_spec(bytes@, pre.key)
            &&& r.pipeline.failure is None
            &&& r.action == Some(Action::ProbeOutput)
            &&& r.warning is None
        },
        (Phase::Reading, Event::ReadErr(cause)) => {
            &&& r.pipeline.phase is Failed
            &&& r.pipeline.failure matches Some(PipelineError::InputReadError { path, cause: c })
                && path@ == pre.input_path@ && c@ == cause@
            &&& r.action is None
            &&& r.warning is None
        },
        (Phase::Probing, Event::Probed(st)) => {
            &&& r.pipeline.data@ == pre.data@
            &&& r.pipeline.input_bytes@ == pre.input_bytes@
            &&& r.pipeline.failure is None
            &&& r.warning is None
            &&& if needs_dir_creation(st) {
                &&& r.pipeline.phase is EnsuringDir
                &&& r.pipeline.pending_placeholder == needs_placeholder(st)
                &&& r.action == Some(Action::CreateParentDirs)
            } else if needs_placeholder(st) {
                &&& r.pipeline.phase is EnsuringPlaceholder
                &&& r.action == Some(Action::CreatePlaceholder)
            } else {
                &&& r.pipeline.phase is Writing
                &&& r.action == Some(Action::WriteOutput)
            }
        },
        (Phase::EnsuringDir, Event::DirCreated(ok)) => {
            &&& r.pipeline.data@ == pre.data@
            &&& r.pipeline.input_bytes@ == pre.input_bytes@
            &&& r.pipeline.failure is None
            &&& r.warning == (if ok {
                None
            } else {
                Some(MaterializeWarning::DirectoryCreateWarning)
            })
            &&& if pre.pending_placeholder {
                &&& r.pipeline.phase is EnsuringPlaceholder
                &&& r.action == Some(Action::CreatePlaceholder)
            } else {
                &&& r.pipeline.phase is Writing
                &&& r.action == Some(Action::WriteOutput)
            }
        },
        (Phase::EnsuringPlaceholder, Event::PlaceholderCreated(ok)) => {
            &&& r.pipeline.data@ == pre.data@
            &&& r.pipeline.input_bytes@ == pre.input_bytes@
            &&& r.pipeline.failure is None
            &&& r.pipeline.phase is Writing
            &&& r.action == Some(Action::WriteOutput)
            &&& r.warning == (if ok {
                None
            } else {
                Some(MaterializeWarning::PlaceholderCreateWarning)
            })
        },
        (Phase::Writing, Event::WriteOk) => {
            &&& r.pipeline.phase is Done
            &&& r.pipeline.data@ == pre.data@
            &&& r.pipeline.input_bytes@ == pre.input_bytes@
            &&& r.pipeline.failure is None
            &&& r.action is None
            &&& r.warning is None
        },
        (Phase::Writing, Event::WriteErr(cause)) => {
            &&& r.pipeline.phase is Failed
            &&& r.pipeline.data@ == pre.data@
            &&& r.pipeline.input_bytes@ == pre.input_bytes@
            &&& r.pipeline.failure matches Some(PipelineError::OutputWriteError { path, cause: c })
                && path@ == pre.output_path@ && c@ == cause@
            &&& r.action is None
            &&& r.warning is None
        },
        _ => false,
    }
}

/// Round trip: what a well-formed pipeline is about to write has exactly the
/// input's length, and transforming it again with the same key gives back
/// the input bytes — so a second run with input and output swapped restores
/// the original file.
pub proof fn lemma_writing_round_trip(p: Pipeline)
    requires
        p.wf(),
        p.phase is Writing,
    ensures
        p.data@.len() == p.input_bytes@.len(),
        transform_spec(p.data@, p.key) == p.input_bytes@,
{
    crate::transform::lemma_transform_involutive(p.input_bytes@, p.key);
}

} // verus!
