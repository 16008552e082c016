use vstd::prelude::*;

use crate::error::JobError;
use crate::job::TaskPlan;

verus! {

#[derive(Clone, Copy, Debug, PartialEq, Eq, Structural)]
pub enum MediaKind {
    Video,
    Audio,
}

/// The per-frame conversion between decoder and encoder.
#[derive(Clone, Copy, Debug, PartialEq, Eq, Structural)]
pub enum Transform {
    /// Frames pass through unchanged.
    Identity,
    /// A stateless scaler: one frame in, one frame out.
    Scale,
    /// A resampler that carries a remainder and must be flushed.
    Resample,
}

/// What a task's run consists of.
#[derive(Clone, Copy, Debug, PartialEq, Eq, Structural)]
pub struct PipelineShape {
    /// How many input containers are read, one after the other.
    pub sources: usize,
    /// The kind of stream selected in each source, if any.
    pub media: Option<MediaKind>,
    /// Whether packets are read and decoded.
    pub reads: bool,
    pub transform: Transform,
    /// Whether frames are encoded and multiplexed into an output container.
    pub encodes: bool,
    /// Whether a report is written once the input is consumed.
    pub report: bool,
}

impl PipelineShape {
    pub open spec fn wf(&self) -> bool {
        &&& self.sources >= 1
        &&& (self.reads ==> self.media is Some)
        &&& (self.encodes ==> self.reads)
    }
}

#[derive(Clone, Copy, Debug, PartialEq, Eq, Structural)]
pub enum Phase {
    Opening,
    Configuring,
    Draining,
    Flushing,
    Finalizing,
    Done,
    Failed,
}

/// The next piece of outside work the pipeline asks for.
#[derive(Clone, Copy, Debug, PartialEq, Eq, Structural)]
pub enum Action {
    /// Open input container `source` and probe its streams.
    OpenInput { source: usize },
    /// Pick the best stream of the shape's kind in `source`.
    SelectStream { source: usize },
    /// Construct the decoder for the stream selected in `source`.
    OpenDecoder { source: usize },
    /// Construct the scaler or resampler.
    SetUpTransform,
    /// Find and configure the encoder.
    OpenEncoder,
    /// Create the output container and declare its streams.
    CreateOutput,
    /// Write the output container's header.
    WriteHeader,
    /// Read the next packet of `source`.
    ReadPacket { source: usize },
    /// Feed the packet just read to the decoder of `source`, and take every
    /// frame it yields through transform, encoder and muxer.
    Decode { source: usize },
    /// Signal end of stream to the decoder of `source` and drain it.
    FlushDecoder { source: usize },
    /// Drain the resampler's carried remainder.
    FlushTransform,
    /// Signal end of stream to the encoder and drain its packets.
    FlushEncoder,
    /// Write the output container's trailer.
    WriteTrailer,
    /// Write the task's report to the output path.
    WriteReport,
    /// Close output and inputs; the job has succeeded.
    Close,
    /// Close what is open, best effort, and remove the output where one was
    /// created; the job has failed.
    Abort { remove_output: bool },
    /// Nothing is left to do.
    Finished,
}

/// The outcome of the pending action.
#[derive(Clone, Copy, Debug, PartialEq, Eq, Structural)]
pub enum Event {
    /// The action succeeded.
    Completed,
    /// Stream selection found this stream index.
    Selected { stream: usize },
    /// A packet of this stream index was read.
    Packet { stream: usize },
    /// The input has no more packets.
    EndOfInput,
    /// The action failed.
    Error(JobError),
}

/// The state of one job's run, as a value.
pub struct PipelineView {
    pub shape: PipelineShape,
    pub phase: Phase,
    pub pending: Action,
    pub selected: Seq<usize>,
    pub output_created: bool,
    pub header_written: bool,
    pub encoder_flushed: bool,
    pub error: Option<JobError>,
}

pub open spec fn with_step(m: PipelineView, phase: Phase, pending: Action) -> PipelineView {
    PipelineView { phase, pending, ..m }
}

/// The final phase's first step.
pub open spec fn finalize(m: PipelineView) -> PipelineView {
    if m.shape.encodes {
        with_step(m, Phase::Finalizing, Action::WriteTrailer)
    } else if m.shape.report {
        with_step(m, Phase::Finalizing, Action::WriteReport)
    } else {
        with_step(m, Phase::Finalizing, Action::Close)
    }
}

pub open spec fn begin_draining(m: PipelineView) -> PipelineView {
    if m.shape.reads {
        with_step(m, Phase::Draining, Action::ReadPacket { source: 0 })
    } else {
        finalize(m)
    }
}

pub open spec fn after_transform(m: PipelineView) -> PipelineView {
    if m.shape.encodes {
        with_step(m, Phase::Configuring, Action::OpenEncoder)
    } else {
        begin_draining(m)
    }
}

pub open spec fn after_decoders(m: PipelineView) -> PipelineView {
    if m.shape.transform != Transform::Identity {
        with_step(m, Phase::Configuring, Action::SetUpTransform)
    } else {
        after_transform(m)
    }
}

pub open spec fn after_opening(m: PipelineView) -> PipelineView {
    if m.shape.media is Some {
        with_step(m, Phase::Configuring, Action::SelectStream { source: 0 })
    } else {
        after_decoders(m)
    }
}

pub open spec fn after_transform_flush(m: PipelineView) -> PipelineView {
    if m.shape.encodes {
        with_step(m, Phase::Flushing, Action::FlushEncoder)
    } else {
        finalize(m)
    }
}

pub open spec fn after_source(m: PipelineView, i: usize) -> PipelineView {
    if i + 1 < m.shape.sources {
        with_step(m, Phase::Draining, Action::ReadPacket { source: (i + 1) as usize })
    } else if m.shape.transform == Transform::Resample {
        with_step(m, Phase::Flushing, Action::FlushTransform)
    } else {
        after_transform_flush(m)
    }
}

/// Whether an output file may exist: it was created, or the action that
/// creates or writes it was under way.
pub open spec fn may_have_output(m: PipelineView) -> bool {
    m.output_created || m.pending == Action::CreateOutput || m.pending == Action::WriteReport
}

/// The pipeline fails: whatever output may exist is to be removed.
pub open spec fn fail(m: PipelineView, e: JobError) -> PipelineView {
    PipelineView {
        phase: Phase::Failed,
        pending: Action::Abort { remove_output: may_have_output(m) },
        output_created: false,
        error: Some(e),
        ..m
    }
}

/// One step of the pipeline: the state after `e` answers the pending action.
pub open spec fn next(m: PipelineView, e: Event) -> PipelineView {
    if m.phase == Phase::Done || m.phase == Phase::Failed {
        with_step(m, m.phase, Action::Finished)
    } else {
        match e {
            Event::Error(err) => fail(m, err),
            Event::Completed => match m.pending {
                Action::OpenInput { source } => if source + 1 < m.shape.sources {
                    with_step(m, Phase::Opening, Action::OpenInput { source: (source + 1) as usize })
                } else {
                    after_opening(m)
                },
                Action::OpenDecoder { source } => if source + 1 < m.shape.sources {
                    with_step(m, Phase::Configuring, Action::SelectStream { source: (source + 1) as usize })
                } else {
                    after_decoders(m)
                },
                Action::SetUpTransform => after_transform(m),
                Action::OpenEncoder => with_step(m, Phase::Configuring, Action::CreateOutput),
                Action::CreateOutput => PipelineView {
                    output_created: true,
                    ..with_step(m, Phase::Configuring, Action::WriteHeader)
                },
                Action::WriteHeader => PipelineView { header_written: true, ..begin_draining(m) },
                Action::Decode { source } => with_step(m, Phase::Draining, Action::ReadPacket { source }),
                Action::FlushDecoder { source } => after_source(m, source),
                Action::FlushTransform => after_transform_flush(m),
                Action::FlushEncoder => PipelineView { encoder_flushed: true, ..finalize(m) },
                Action::WriteTrailer => with_step(m, Phase::Finalizing, Action::Close),
                Action::WriteReport => PipelineView {
                    output_created: true,
                    ..with_step(m, Phase::Finalizing, Action::Close)
                },
                Action::Close => with_step(m, Phase::Done, Action::Finished),
                _ => fail(m, JobError::UnexpectedEvent),
            },
            Event::Selected { stream } => match m.pending {
                Action::SelectStream { source } => PipelineView {
                    selected: m.selected.push(stream),
                    ..with_step(m, Phase::Configuring, Action::OpenDecoder { source })
                },
                _ => fail(m, JobError::UnexpectedEvent),
            },
            Event::Packet { stream } => match m.pending {
                Action::ReadPacket { source } => if source < m.selected.len() && m.selected[source as int]
                    == stream {
                    with_step(m, Phase::Draining, Action::Decode { source })
                } else {
                    with_step(m, Phase::Draining, Action::ReadPacket { source })
                },
                _ => fail(m, JobError::UnexpectedEvent),
            },
            Event::EndOfInput => match m.pending {
                Action::ReadPacket { source } => with_step(
                    m,
                    if source + 1 < m.shape.sources {
                        Phase::Draining
                    } else {
                        Phase::Flushing
                    },
                    Action::FlushDecoder { source },
                ),
                _ => fail(m, JobError::UnexpectedEvent),
            },
        }
    }
}

/// The actions that set a job up, before any output exists.
pub open spec fn setup_action(a: Action) -> bool {
    a is OpenInput || a is SelectStream || a is OpenDecoder || a == Action::SetUpTransform || a
        == Action::OpenEncoder || a == Action::CreateOutput
}

/// The phase that each pending action belongs to.
pub open spec fn phase_fits(phase: Phase, pending: Action, sources: usize) -> bool {
    match pending {
        Action::OpenInput { .. } => phase == Phase::Opening,
        Action::SelectStream { .. } | Action::OpenDecoder { .. } | Action::SetUpTransform | Action::OpenEncoder
        | Action::CreateOutput | Action::WriteHeader => phase == Phase::Configuring,
        Action::ReadPacket { .. } | Action::Decode { .. } => phase == Phase::Draining,
        Action::FlushDecoder { source } => phase == if source + 1 < sources {
            Phase::Draining
        } else {
            Phase::Flushing
        },
        Action::FlushTransform | Action::FlushEncoder => phase == Phase::Flushing,
        Action::WriteTrailer | Action::WriteReport | Action::Close => phase == Phase::Finalizing,
        Action::Abort { .. } => phase == Phase::Failed,
        Action::Finished => phase == Phase::Done || phase == Phase::Failed,
    }
}

/// The states that a run can reach.
pub open spec fn view_wf(m: PipelineView) -> bool {
    &&& m.shape.wf()
    &&& m.selected.len() <= m.shape.sources
    &&& (m.pending matches Action::OpenInput { source } ==> source < m.shape.sources)
    &&& (m.pending matches Action::SelectStream { source } ==> source == m.selected.len() && source
        < m.shape.sources)
    &&& (m.pending matches Action::OpenDecoder { source } ==> source + 1 == m.selected.len())
    &&& (m.pending matches Action::ReadPacket { source } ==> source < m.shape.sources && m.selected.len()
        == m.shape.sources)
    &&& (m.pending matches Action::Decode { source } ==> source < m.shape.sources && m.selected.len()
        == m.shape.sources)
    &&& (m.pending matches Action::FlushDecoder { source } ==> source < m.shape.sources && m.selected.len()
        == m.shape.sources)
    &&& (m.shape.reads && (m.pending == Action::SetUpTransform || m.pending == Action::OpenEncoder
        || m.pending == Action::CreateOutput || m.pending == Action::WriteHeader) ==> m.selected.len()
        == m.shape.sources)
    &&& (m.shape.encodes && (m.pending is ReadPacket || m.pending is Decode || m.pending is FlushDecoder
        || m.pending == Action::FlushTransform || m.pending == Action::FlushEncoder) ==> m.header_written)
    &&& phase_fits(m.phase, m.pending, m.shape.sources)
    &&& (m.pending is OpenInput ==> m.selected.len() == 0)
    &&& (m.output_created ==> !setup_action(m.pending))
    &&& (m.pending == Action::WriteHeader ==> m.output_created)
    &&& (m.phase == Phase::Opening || (m.phase == Phase::Configuring && m.pending != Action::WriteHeader)
        ==> !m.output_created)
    &&& (m.phase == Phase::Failed ==> !m.output_created)
    &&& (m.pending == Action::WriteTrailer ==> m.encoder_flushed)
}

/// The state before anything is done.
pub open spec fn initial(shape: PipelineShape) -> PipelineView {
    PipelineView {
        shape,
        phase: Phase::Opening,
        pending: Action::OpenInput { source: 0 },
        selected: Seq::empty(),
        output_created: false,
        header_written: false,
        encoder_flushed: false,
        error: None,
    }
}

/// The state after answering each pending action with `events` in turn.
pub open spec fn run(m: PipelineView, events: Seq<Event>) -> PipelineView
    decreases events.len(),
{
    if events.len() == 0 {
        m
    } else {
        run(next(m, events[0]), events.drop_first())
    }
}

/// The driver of one job: given the outcome of each action, it says what to
/// do next.
pub struct Pipeline {
    pub shape: PipelineShape,
    pub phase: Phase,
    pub pending: Action,
    pub selected: Vec<usize>,
    pub output_created: bool,
    pub header_written: bool,
    pub encoder_flushed: bool,
    pub error: Option<JobError>,
}

impl View for Pipeline {
    type V = PipelineView;

    open spec fn view(&self) -> PipelineView {
        PipelineView {
            shape: self.shape,
            phase: self.phase,
            pending: self.pending,
            selected: self.selected@,
            output_created: self.output_created,
            header_written: self.header_written,
            encoder_flushed: self.encoder_flushed,
            error: self.error,
        }
    }
}

impl Pipeline {
    /// A pipeline about to open its first input.
    pub fn new(shape: PipelineShape) -> (r: Pipeline)
        requires
            shape.wf(),
        ensures
            r@ == initial(shape),
            view_wf(r@),
    {
        Pipeline {
            shape,
            phase: Phase::Opening,
            pending: Action::OpenInput { source: 0 },
            selected: Vec::new(),
            output_created: false,
            header_written: false,
            encoder_flushed: false,
            error: None,
        }
    }

    fn set_step(&mut self, phase: Phase, pending: Action)
        ensures
            final(self)@ == with_step(old(self)@, phase, pending),
    {
        self.phase = phase;
        self.pending = pending;
    }

    fn go_finalize(&mut self)
        ensures
            final(self)@ == finalize(old(self)@),
    {
        if self.shape.encodes {
            self.set_step(Phase::Finalizing, Action::WriteTrailer);
        } else if self.shape.report {
            self.set_step(Phase::Finalizing, Action::WriteReport);
        } else {
            self.set_step(Phase::Finalizing, Action::Close);
        }
    }

    fn go_draining(&mut self)
        ensures
            final(self)@ == begin_draining(old(self)@),
    {
        if self.shape.reads {
            self.set_step(Phase::Draining, Action::ReadPacket { source: 0 });
        } else {
            self.go_finalize();
        }
    }

    fn go_after_transform(&mut self)
        ensures
            final(self)@ == after_transform(old(self)@),
    {
        if self.shape.encodes {
            self.set_step(Phase::Configuring, Action::OpenEncoder);
        } else {
            self.go_draining();
        }
    }

    fn go_after_decoders(&mut self)
        ensures
            final(self)@ == after_decoders(old(self)@),
    {
        if self.shape.transform != Transform::Identity {
            self.set_step(Phase::Configuring, Action::SetUpTransform);
        } else {
            self.go_after_transform();
        }
    }

    fn go_after_transform_flush(&mut self)
        ensures
            final(self)@ == after_transform_flush(old(self)@),
    {
        if self.shape.encodes {
            self.set_step(Phase::Flushing, Action::FlushEncoder);
        } else {
            self.go_finalize();
        }
    }

    fn go_fail(&mut self, e: JobError)
        ensures
            final(self)@ == fail(old(self)@, e),
    {
        self.phase = Phase::Failed;
        let remove_output = self.output_created || self.pending == Action::CreateOutput || self.pending
            == Action::WriteReport;
        self.pending = Action::Abort { remove_output };
        self.output_created = false;
        self.error = Some(e);
    }

    /// Answers the pending action with `e` and returns the next action.
    pub fn step(&mut self, e: Event) -> (r: Action)
        requires
            view_wf(old(self)@),
        ensures
            final(self)@ == next(old(self)@, e),
            view_wf(final(self)@),
            r == final(self).pending,
    {
        if self.phase == Phase::Done || self.phase == Phase::Failed {
            self.pending = Action::Finished;
            return Action::Finished;
        }
        match e {
            Event::Error(err) => self.go_fail(err),
            Event::Completed => match self.pending {
                Action::OpenInput { source } => {
                    if source + 1 < self.shape.sources {
                        self.set_step(Phase::Opening, Action::OpenInput { source: source + 1 });
                    } else if self.shape.media.is_some() {
                        self.set_step(Phase::Configuring, Action::SelectStream { source: 0 });
                    } else {
                        self.go_after_decoders();
                    }
                },
                Action::OpenDecoder { source } => {
                    if source + 1 < self.shape.sources {
                        self.set_step(Phase::Configuring, Action::SelectStream { source: source + 1 });
                    } else {
                        self.go_after_decoders();
                    }
                },
                Action::SetUpTransform => self.go_after_transform(),
                Action::OpenEncoder => self.set_step(Phase::Configuring, Action::CreateOutput),
                Action::CreateOutput => {
                    self.output_created = true;
                    self.set_step(Phase::Configuring, Action::WriteHeader);
                },
                Action::WriteHeader => {
                    self.go_draining();
                    self.header_written = true;
                },
                Action::Decode { source } => self.set_step(Phase::Draining, Action::ReadPacket { source }),
                Action::FlushDecoder { source } => {
                    if source + 1 < self.shape.sources {
                        self.set_step(Phase::Draining, Action::ReadPacket { source: source + 1 });
                    } else if self.shape.transform == Transform::Resample {
                        self.set_step(Phase::Flushing, Action::FlushTransform);
                    } else {
                        self.go_after_transform_flush();
                    }
                },
                Action::FlushTransform => self.go_after_transform_flush(),
                Action::FlushEncoder => {
                    self.go_finalize();
                    self.encoder_flushed = true;
                },
                Action::WriteTrailer => self.set_step(Phase::Finalizing, Action::Close),
                Action::WriteReport => {
                    self.output_created = true;
                    self.set_step(Phase::Finalizing, Action::Close);
                },
                Action::Close => self.set_step(Phase::Done, Action::Finished),
                _ => self.go_fail(JobError::UnexpectedEvent),
            },
            Event::Selected { stream } => match self.pending {
                Action::SelectStream { source } => {
                    self.selected.push(stream);
                    self.set_step(Phase::Configuring, Action::OpenDecoder { source });
                },
                _ => self.go_fail(JobError::UnexpectedEvent),
            },
            Event::Packet { stream } => match self.pending {
                Action::ReadPacket { source } => {
                    if source < self.selected.len() && self.selected[source] == stream {
                        self.set_step(Phase::Draining, Action::Decode { source });
                    } else {
                        self.set_step(Phase::Draining, Action::ReadPacket { source });
                    }
                },
                _ => self.go_fail(JobError::UnexpectedEvent),
            },
            Event::EndOfInput => match self.pending {
                Action::ReadPacket { source } => {
                    let phase = if source + 1 < self.shape.sources {
                        Phase::Draining
                    } else {
                        Phase::Flushing
                    };
                    self.set_step(phase, Action::FlushDecoder { source });
                },
                _ => self.go_fail(JobError::UnexpectedEvent),
            },
        }
        proof {
            lemma_next_wf(old(self)@, e);
        }
        self.pending
    }
}

/// Every step keeps a reachable state reachable.
pub proof fn lemma_next_wf(m: PipelineView, e: Event)
    requires
        view_wf(m),
    ensures
        view_wf(next(m, e)),
{
}

/// Every state that a run from the start reaches is well formed.
pub proof fn lemma_run_wf(m: PipelineView, events: Seq<Event>)
    requires
        view_wf(m),
    ensures
        view_wf(run(m, events)),
    decreases events.len(),
{
    if events.len() > 0 {
        lemma_next_wf(m, events[0]);
        lemma_run_wf(next(m, events[0]), events.drop_first());
    }
}

/// A job that fails leaves no output behind: whatever the outcomes of its
/// actions, a failed run has no output file, and a failure while setting up
/// finds none to remove, unless it was creating the output or writing its
/// header.
pub proof fn lemma_failed_job_leaves_no_output(shape: PipelineShape, events: Seq<Event>)
    requires
        shape.wf(),
    ensures
        run(initial(shape), events).phase == Phase::Failed ==> !run(initial(shape), events).output_created,
        ({
            let m = run(initial(shape), events);
            forall|e: Event|
                m.phase == Phase::Configuring && (#[trigger] next(m, e)).phase == Phase::Failed ==> next(
                    m,
                    e,
                ).pending == Action::Abort {
                    remove_output: m.pending == Action::CreateOutput || m.pending == Action::WriteHeader,
                }
                    && !next(m, e).output_created
        }),
{
    lemma_run_wf(initial(shape), events);
}

/// The run that a task needs, or `None` for a file utility task, which
/// processes no frames.
pub open spec fn shape_of(plan: TaskPlan) -> Option<PipelineShape> {
    let video = Some(MediaKind::Video);
    let audio = Some(MediaKind::Audio);
    match plan {
        TaskPlan::Transcode { .. } | TaskPlan::Watermark { .. } => Some(
            PipelineShape { sources: 1, media: video, reads: true, transform: Transform::Identity, encodes: true, report: false },
        ),
        TaskPlan::Resize { .. } | TaskPlan::AnimatedPreview { .. } => Some(
            PipelineShape { sources: 1, media: video, reads: true, transform: Transform::Scale, encodes: true, report: false },
        ),
        TaskPlan::VideoInfo => Some(
            PipelineShape { sources: 1, media: None, reads: false, transform: Transform::Identity, encodes: false, report: true },
        ),
        TaskPlan::ExtractFrames { .. } | TaskPlan::KeyFrame { .. } => Some(
            PipelineShape { sources: 1, media: video, reads: true, transform: Transform::Scale, encodes: false, report: false },
        ),
        TaskPlan::SceneCuts { .. } => Some(
            PipelineShape { sources: 1, media: video, reads: true, transform: Transform::Identity, encodes: false, report: true },
        ),
        TaskPlan::Resample { .. } => Some(
            PipelineShape { sources: 1, media: audio, reads: true, transform: Transform::Resample, encodes: true, report: false },
        ),
        TaskPlan::ExtractAudio { .. } => Some(
            PipelineShape { sources: 1, media: audio, reads: true, transform: Transform::Identity, encodes: true, report: false },
        ),
        TaskPlan::AudioInfo => Some(
            PipelineShape { sources: 1, media: audio, reads: false, transform: Transform::Identity, encodes: false, report: true },
        ),
        TaskPlan::Waveform { .. } => Some(
            PipelineShape { sources: 1, media: audio, reads: true, transform: Transform::Identity, encodes: false, report: true },
        ),
        TaskPlan::Mix { inputs } => if inputs@.len() >= 1 {
            Some(
                PipelineShape {
                    sources: inputs@.len() as usize,
                    media: audio,
                    reads: true,
                    transform: Transform::Identity,
                    encodes: true,
                    report: false,
                },
            )
        } else {
            None
        },
        TaskPlan::Utility(_) => None,
    }
}

/// The run that `plan` needs (see `shape_of`).
pub fn pipeline_shape(plan: &TaskPlan) -> (r: Option<PipelineShape>)
    ensures
        r == shape_of(*plan),
        r matches Some(s) ==> s.wf(),
{
    let video = Some(MediaKind::Video);
    let audio = Some(MediaKind::Audio);
    match plan {
        TaskPlan::Transcode { .. } | TaskPlan::Watermark { .. } => Some(
            PipelineShape { sources: 1, media: video, reads: true, transform: Transform::Identity, encodes: true, report: false },
        ),
        TaskPlan::Resize { .. } | TaskPlan::AnimatedPreview { .. } => Some(
            PipelineShape { sources: 1, media: video, reads: true, transform: Transform::Scale, encodes: true, report: false },
        ),
        TaskPlan::VideoInfo => Some(
            PipelineShape { sources: 1, media: None, reads: false, transform: Transform::Identity, encodes: false, report: true },
        ),
        TaskPlan::ExtractFrames { .. } | TaskPlan::KeyFrame { .. } => Some(
            PipelineShape { sources: 1, media: video, reads: true, transform: Transform::Scale, encodes: false, report: false },
        ),
        TaskPlan::SceneCuts { .. } => Some(
            PipelineShape { sources: 1, media: video, reads: true, transform: Transform::Identity, encodes: false, report: true },
        ),
        TaskPlan::Resample { .. } => Some(
            PipelineShape { sources: 1, media: audio, reads: true, transform: Transform::Resample, encodes: true, report: false },
        ),
        TaskPlan::ExtractAudio { .. } => Some(
            PipelineShape { sources: 1, media: audio, reads: true, transform: Transform::Identity, encodes: true, report: false },
        ),
        TaskPlan::AudioInfo => Some(
            PipelineShape { sources: 1, media: audio, reads: false, transform: Transform::Identity, encodes: false, report: true },
        ),
        TaskPlan::Waveform { .. } => Some(
            PipelineShape { sources: 1, media: audio, reads: true, transform: Transform::Identity, encodes: false, report: true },
        ),
        TaskPlan::Mix { inputs } => if inputs.len() >= 1 {
            Some(
                PipelineShape {
                    sources: inputs.len(),
                    media: audio,
                    reads: true,
                    transform: Transform::Identity,
                    encodes: true,
                    report: false,
                },
            )
        } else {
            None
        },
        TaskPlan::Utility(_) => None,
    }
}

/// The error that a failed action stands for.
pub open spec fn failure_spec(a: Action) -> JobError {
    match a {
        Action::OpenInput { .. } | Action::CreateOutput => JobError::OpenFailed,
        Action::SelectStream { .. } => JobError::StreamNotFound,
        Action::OpenDecoder { .. } | Action::SetUpTransform | Action::OpenEncoder => JobError::UnsupportedCodec,
        Action::ReadPacket { .. } | Action::Decode { .. } | Action::FlushDecoder { .. } => JobError::DecodeFailed,
        Action::FlushTransform | Action::FlushEncoder => JobError::EncodeFailed,
        Action::WriteHeader | Action::WriteTrailer => JobError::MuxSequence,
        _ => JobError::OpenFailed,
    }
}

/// The error to report when the outside work of `a` fails: opening or
/// creating a container is an I/O failure, selecting a stream or building a
/// codec a configuration failure, reading and decoding a decode failure,
/// draining the encoder an encode failure, and the header or trailer a mux
/// failure.
pub fn failure_of(a: Action) -> (r: JobError)
    ensures
        r == failure_spec(a),
{
    match a {
        Action::OpenInput { .. } | Action::CreateOutput => JobError::OpenFailed,
        Action::SelectStream { .. } => JobError::StreamNotFound,
        Action::OpenDecoder { .. } | Action::SetUpTransform | Action::OpenEncoder => JobError::UnsupportedCodec,
        Action::ReadPacket { .. } | Action::Decode { .. } | Action::FlushDecoder { .. } => JobError::DecodeFailed,
        Action::FlushTransform | Action::FlushEncoder => JobError::EncodeFailed,
        Action::WriteHeader | Action::WriteTrailer => JobError::MuxSequence,
        _ => JobError::OpenFailed,
    }
}

} // verus!
