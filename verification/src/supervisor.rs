//! The connection supervisor: the session worker's state machine.
//!
//! A session begins connecting.  Each connection attempt ends in one setup
//! outcome: success arms the streams and the watchdog and reports `Started`;
//! a recoverable failure reports a disconnect and leaves the session
//! connecting, to retry after a fixed backoff unless a stop arrives first; a
//! fatal failure reports a single error and ends the session permanently.
//! While running, the watchdog tick drains at most one pending stop command
//! and reports one levels snapshot; when the event loop exits, the session
//! either concludes cleanly (the stop was requested) or reports a disconnect
//! and reconnects.

use vstd::prelude::*;
use vstd::string::StringExecFns;
use crate::config::{ConfigView, RecordingConfig};
use crate::events::{events_view, EventView, InternalAudioEvent};
use crate::pipeline::{
    on_buffer_spec, on_format_spec, set_encoder_spec, EncoderRequest, EncoderState, StreamContext,
    StreamRole, StreamView,
};

verus! {

/// Where a session stands.
#[derive(Clone, Copy, Debug, PartialEq, Eq, Structural)]
pub enum SessionPhase {
    Connecting,
    Running,
    Stopped,
    Failed,
}

/// Mathematical image of a [`SetupOutcome`].
pub enum SetupOutcomeView {
    Success,
    Recoverable(Seq<char>),
    Fatal(Seq<char>),
}

/// How one connection attempt ended.  Failures to reach the audio server or
/// to create and connect streams are recoverable — the daemon may be
/// mid-restart; failures to set the process up at all, the output directory
/// included, are fatal.
pub enum SetupOutcome {
    Success,
    Recoverable(String),
    Fatal(String),
}

impl View for SetupOutcome {
    type V = SetupOutcomeView;

    open spec fn view(&self) -> SetupOutcomeView {
        match self {
            SetupOutcome::Success => SetupOutcomeView::Success,
            SetupOutcome::Recoverable(m) => SetupOutcomeView::Recoverable(m@),
            SetupOutcome::Fatal(m) => SetupOutcomeView::Fatal(m@),
        }
    }
}

/// Where in the session's setup a failure happened.
#[derive(Clone, Copy, Debug, PartialEq, Eq, Structural)]
pub enum SetupStage {
    MainLoopCreate,
    ContextCreate,
    CoreConnect,
    OutputDirCreate,
    StreamCreate,
    StreamConnect,
}

/// Which setup stages end the session for good.  Failing to build the
/// process's own machinery or to create the output directory is fatal;
/// failing to reach the server or to create and connect a stream is
/// recoverable — the daemon may be mid-restart.
pub open spec fn stage_is_fatal(stage: SetupStage) -> bool {
    match stage {
        SetupStage::MainLoopCreate => true,
        SetupStage::ContextCreate => true,
        SetupStage::OutputDirCreate => true,
        SetupStage::CoreConnect => false,
        SetupStage::StreamCreate => false,
        SetupStage::StreamConnect => false,
    }
}

/// Classify a setup failure into the outcome the supervisor acts on.
pub fn classify_setup_failure(stage: SetupStage, message: String) -> (r: SetupOutcome)
    ensures
        r@ == (if stage_is_fatal(stage) {
            SetupOutcomeView::Fatal(message@)
        } else {
            SetupOutcomeView::Recoverable(message@)
        }),
{
    match stage {
        SetupStage::MainLoopCreate | SetupStage::ContextCreate | SetupStage::OutputDirCreate => {
            SetupOutcome::Fatal(message)
        },
        SetupStage::CoreConnect | SetupStage::StreamCreate | SetupStage::StreamConnect => {
            SetupOutcome::Recoverable(message)
        },
    }
}

/// The file name a role's capture is written to.
pub open spec fn stream_file_name(role: StreamRole) -> Seq<char> {
    match role {
        StreamRole::Microphone => "microphone.wav"@,
        StreamRole::System => "system.wav"@,
    }
}

/// The output path of a role's capture inside the output directory.
pub open spec fn stream_path(dir: Seq<char>, role: StreamRole) -> Seq<char> {
    dir + "/"@ + stream_file_name(role)
}

/// Build the output path of a role's capture.
pub fn stream_output_path(dir: &String, role: StreamRole) -> (r: String)
    ensures
        r@ == stream_path(dir@, role),
{
    let mut s = dir.clone();
    s.append("/");
    match role {
        StreamRole::Microphone => s.append("microphone.wav"),
        StreamRole::System => s.append("system.wav"),
    }
    s
}

/// A stream as setup arms it: format unset, no encoder, peak zero.
pub open spec fn fresh_stream(dir: Seq<char>, role: StreamRole) -> StreamView {
    StreamView {
        role,
        format: None,
        encoder: EncoderState::NotRequested,
        output_path: stream_path(dir, role),
        peak: 0,
    }
}

/// Mathematical image of a [`SessionWorker`].
pub struct WorkerView {
    pub config: ConfigView,
    pub phase: SessionPhase,
    pub mic: Option<StreamView>,
    pub system: Option<StreamView>,
    pub stop_requested: bool,
}

/// One input to the worker's state machine: the outcome of a connection
/// attempt, a watchdog tick (with whether a stop command was drained), the
/// event loop's exit, or the pre-retry wait (with whether a stop command was
/// drained there).
pub enum StepView {
    Setup(SetupOutcomeView),
    Tick { stop_pending: bool },
    LoopExit,
    RetryWait { stop_pending: bool },
}

/// What one step of the worker yields: the next state, the events reported
/// to the controller, in order, and whether the step asked the event loop to
/// quit.
pub struct StepResult {
    pub worker: WorkerView,
    pub events: Seq<EventView>,
    pub quit: bool,
}

/// A step that changes nothing and reports nothing.
pub open spec fn no_step(w: WorkerView) -> StepResult {
    StepResult { worker: w, events: Seq::empty(), quit: false }
}

/// The worker's transition function.
///
/// From `Connecting`, a setup outcome either arms the requested streams and
/// reports `Started`, or reports one `PipeWireDisconnected` and stays
/// connecting, or moves to `Failed` reporting one `Error`.  From `Running`,
/// a tick remembers a drained stop, asks the loop to quit exactly when one
/// was drained, and reports one `Levels` snapshot carrying each role's
/// pre-reset rolling peak, zero for a role with no stream; the loop's exit
/// concludes with `Stopped` if the stop was requested, else reports one
/// `PipeWireDisconnected` and reconnects.  From `Connecting`, a stop drained
/// during the pre-retry wait concludes the session silently.  `Stopped` and
/// `Failed` are terminal: every further input changes nothing and reports
/// nothing.
pub open spec fn worker_step(w: WorkerView, s: StepView) -> StepResult {
    match s {
        StepView::Setup(o) => if w.phase is Connecting {
            match o {
                SetupOutcomeView::Success => StepResult {
                    worker: WorkerView {
                        phase: SessionPhase::Running,
                        mic: if w.config.mic_device_id is Some {
                            Some(fresh_stream(w.config.output_dir, StreamRole::Microphone))
                        } else {
                            None
                        },
                        system: if w.config.system_audio {
                            Some(fresh_stream(w.config.output_dir, StreamRole::System))
                        } else {
                            None
                        },
                        stop_requested: false,
                        ..w
                    },
                    events: seq![EventView::Started],
                    quit: false,
                },
                SetupOutcomeView::Recoverable(_) => StepResult {
                    worker: w,
                    events: seq![EventView::PipeWireDisconnected],
                    quit: false,
                },
                SetupOutcomeView::Fatal(m) => StepResult {
                    worker: WorkerView { phase: SessionPhase::Failed, ..w },
                    events: seq![EventView::Error(m)],
                    quit: false,
                },
            }
        } else {
            no_step(w)
        },
        StepView::Tick { stop_pending } => if w.phase is Running {
            StepResult {
                worker: WorkerView {
                    mic: match w.mic {
                        Some(c) => Some(StreamView { peak: 0, ..c }),
                        None => None,
                    },
                    system: match w.system {
                        Some(c) => Some(StreamView { peak: 0, ..c }),
                        None => None,
                    },
                    stop_requested: w.stop_requested || stop_pending,
                    ..w
                },
                events: seq![
                    EventView::Levels {
                        mic: match w.mic {
                            Some(c) => c.peak,
                            None => 0,
                        },
                        system: match w.system {
                            Some(c) => c.peak,
                            None => 0,
                        },
                    },
                ],
                quit: stop_pending,
            }
        } else {
            no_step(w)
        },
        StepView::LoopExit => if w.phase is Running {
            if w.stop_requested {
                StepResult {
                    worker: WorkerView {
                        phase: SessionPhase::Stopped,
                        mic: None,
                        system: None,
                        ..w
                    },
                    events: seq![EventView::Stopped],
                    quit: false,
                }
            } else {
                StepResult {
                    worker: WorkerView {
                        phase: SessionPhase::Connecting,
                        mic: None,
                        system: None,
                        ..w
                    },
                    events: seq![EventView::PipeWireDisconnected],
                    quit: false,
                }
            }
        } else {
            no_step(w)
        },
        StepView::RetryWait { stop_pending } => if w.phase is Connecting && stop_pending {
            StepResult {
                worker: WorkerView { phase: SessionPhase::Stopped, ..w },
                events: Seq::empty(),
                quit: false,
            }
        } else {
            no_step(w)
        },
    }
}

/// A worker folded over a sequence of inputs, with every reported event, in
/// order.
pub open spec fn worker_fold(w: WorkerView, ss: Seq<StepView>) -> (WorkerView, Seq<EventView>)
    decreases ss.len(),
{
    if ss.len() == 0 {
        (w, Seq::empty())
    } else {
        let r = worker_step(w, ss[0]);
        let rest = worker_fold(r.worker, ss.drop_first());
        (rest.0, r.events + rest.1)
    }
}

/// A well-formed worker: streams exist exactly for the configured sources
/// and exactly while running, and each carries its own role.
pub open spec fn wf(w: WorkerView) -> bool {
    &&& (w.phase is Running ==> ((w.mic is Some) <==> (w.config.mic_device_id is Some)) && (
    (w.system is Some) <==> w.config.system_audio))
    &&& (!(w.phase is Running) ==> w.mic is None && w.system is None)
    &&& (match w.mic {
        Some(c) => c.role is Microphone,
        None => true,
    })
    &&& (match w.system {
        Some(c) => c.role is System,
        None => true,
    })
}

/// Law: every step preserves well-formedness and the configuration.
pub proof fn lemma_step_preserves_wf(w: WorkerView, s: StepView)
    requires
        wf(w),
    ensures
        wf(worker_step(w, s).worker),
        worker_step(w, s).worker.config == w.config,
{
}

/// Law: a concluded or failed session is silent.  From `Stopped` or
/// `Failed`, any sequence of further inputs changes nothing and reports no
/// event.
pub proof fn lemma_terminal_silent(w: WorkerView, ss: Seq<StepView>)
    requires
        w.phase is Stopped || w.phase is Failed,
    ensures
        worker_fold(w, ss) == (w, Seq::<EventView>::empty()),
    decreases ss.len(),
{
    if ss.len() > 0 {
        assert(worker_step(w, ss[0]) == no_step(w));
        lemma_terminal_silent(w, ss.drop_first());
        assert(Seq::<EventView>::empty() + Seq::<EventView>::empty()
            =~= Seq::<EventView>::empty());
    }
}

/// Law: a session with no enabled source reports only silence.  For a
/// well-formed worker configured with no microphone and no system loopback,
/// every `Levels` event that any sequence of inputs produces carries zero
/// for both peaks.
pub proof fn lemma_idle_session_levels(w: WorkerView, ss: Seq<StepView>)
    requires
        wf(w),
        w.config.mic_device_id is None,
        !w.config.system_audio,
    ensures
        forall|i: int|
            0 <= i < worker_fold(w, ss).1.len() ==> (#[trigger] worker_fold(w, ss).1[i] matches
                EventView::Levels { mic, system } ==> mic == 0 && system == 0),
    decreases ss.len(),
{
    if ss.len() > 0 {
        let r = worker_step(w, ss[0]);
        lemma_step_preserves_wf(w, ss[0]);
        lemma_idle_session_levels(r.worker, ss.drop_first());
        let rest = worker_fold(r.worker, ss.drop_first());
        assert forall|i: int|
            0 <= i < worker_fold(w, ss).1.len() implies (#[trigger] worker_fold(w, ss).1[i] matches
            EventView::Levels { mic, system } ==> mic == 0 && system == 0) by {
            if i < r.events.len() {
                assert(worker_fold(w, ss).1[i] == r.events[i]);
            } else {
                assert(worker_fold(w, ss).1[i] == rest.1[i - r.events.len()]);
            }
        }
    }
}

/// Law: a stop is noticed within one tick.  From `Running`, the tick that
/// drains the stop command asks the event loop to quit at once, and the
/// loop's exit then concludes the session cleanly with a single `Stopped`
/// event, after which it is silent forever.  Observed shutdown latency is
/// thereby bounded by the tick interval.
pub proof fn lemma_stop_responsive(w: WorkerView, after: Seq<StepView>)
    requires
        w.phase is Running,
    ensures
        ({
            let t = worker_step(w, StepView::Tick { stop_pending: true });
            let e = worker_step(t.worker, StepView::LoopExit);
            &&& t.quit
            &&& t.worker.stop_requested
            &&& e.worker.phase is Stopped
            &&& e.events =~= seq![EventView::Stopped]
            &&& worker_fold(e.worker, after) == (e.worker, Seq::<EventView>::empty())
        }),
{
    let t = worker_step(w, StepView::Tick { stop_pending: true });
    let e = worker_step(t.worker, StepView::LoopExit);
    lemma_terminal_silent(e.worker, after);
}

/// Law: a fatal setup failure yields exactly one `Error` event, no
/// disconnect, no retry.  The session moves to `Failed` and any further
/// input changes nothing and reports nothing.
pub proof fn lemma_fatal_single_error(w: WorkerView, m: Seq<char>, after: Seq<StepView>)
    requires
        w.phase is Connecting,
    ensures
        ({
            let r = worker_step(w, StepView::Setup(SetupOutcomeView::Fatal(m)));
            &&& r.events =~= seq![EventView::Error(m)]
            &&& r.worker.phase is Failed
            &&& worker_fold(r.worker, after) == (r.worker, Seq::<EventView>::empty())
        }),
{
    let r = worker_step(w, StepView::Setup(SetupOutcomeView::Fatal(m)));
    lemma_terminal_silent(r.worker, after);
}

/// Law: connection failures during setup report exactly one
/// `PipeWireDisconnected` each, and retry until a stop arrives; once the
/// stop is drained during the pre-retry wait, the session concludes and no
/// further event is ever reported.
pub proof fn lemma_retry_until_stop(w: WorkerView, msgs: Seq<Seq<char>>, after: Seq<StepView>)
    requires
        w.phase is Connecting,
    ensures
        ({
            let attempts = msgs.map_values(
                |m: Seq<char>| StepView::Setup(SetupOutcomeView::Recoverable(m)),
            );
            let script = attempts + seq![StepView::RetryWait { stop_pending: true }] + after;
            let r = worker_fold(w, script);
            &&& r.1 =~= Seq::new(msgs.len(), |i: int| EventView::PipeWireDisconnected)
            &&& r.0.phase is Stopped
        }),
    decreases msgs.len(),
{
    let attempts = msgs.map_values(
        |m: Seq<char>| StepView::Setup(SetupOutcomeView::Recoverable(m)),
    );
    let script = attempts + seq![StepView::RetryWait { stop_pending: true }] + after;
    if msgs.len() == 0 {
        assert(script[0] == StepView::RetryWait { stop_pending: true });
        let r0 = worker_step(w, script[0]);
        assert(r0.worker.phase is Stopped);
        lemma_terminal_silent(r0.worker, script.drop_first());
    } else {
        assert(script[0] == StepView::Setup(SetupOutcomeView::Recoverable(msgs[0])));
        let r0 = worker_step(w, script[0]);
        assert(r0.worker == w);
        assert(r0.events =~= seq![EventView::PipeWireDisconnected]);
        lemma_retry_until_stop(w, msgs.drop_first(), after);
        assert(script.drop_first() =~= msgs.drop_first().map_values(
            |m: Seq<char>| StepView::Setup(SetupOutcomeView::Recoverable(m)),
        ) + seq![StepView::RetryWait { stop_pending: true }] + after);
        assert(worker_fold(w, script).1 =~= Seq::new(
            msgs.len(),
            |i: int| EventView::PipeWireDisconnected,
        ));
    }
}

/// The stream a role names, if the worker carries one.
pub open spec fn stream_of(w: WorkerView, role: StreamRole) -> Option<StreamView> {
    match role {
        StreamRole::Microphone => w.mic,
        StreamRole::System => w.system,
    }
}

/// The worker with a role's stream replaced.
pub open spec fn with_stream(w: WorkerView, role: StreamRole, c: StreamView) -> WorkerView {
    match role {
        StreamRole::Microphone => WorkerView { mic: Some(c), ..w },
        StreamRole::System => WorkerView { system: Some(c), ..w },
    }
}

/// The session worker: the configuration it was started with, the phase it
/// is in, one stream per enabled source while running, and whether the quit
/// it asked for was a requested stop.
pub struct SessionWorker {
    pub config: RecordingConfig,
    pub phase: SessionPhase,
    pub mic: Option<StreamContext>,
    pub system: Option<StreamContext>,
    pub stop_requested: bool,
}

impl View for SessionWorker {
    type V = WorkerView;

    open spec fn view(&self) -> WorkerView {
        WorkerView {
            config: self.config@,
            phase: self.phase,
            mic: match self.mic {
                Some(c) => Some(c@),
                None => None,
            },
            system: match self.system {
                Some(c) => Some(c@),
                None => None,
            },
            stop_requested: self.stop_requested,
        }
    }
}

impl SessionWorker {
    /// A worker about to make its first connection attempt.
    pub fn new(config: RecordingConfig) -> (r: SessionWorker)
        ensures
            r@ == (WorkerView {
                config: config@,
                phase: SessionPhase::Connecting,
                mic: None,
                system: None,
                stop_requested: false,
            }),
            wf(r@),
    {
        SessionWorker { config, phase: SessionPhase::Connecting, mic: None, system: None, stop_requested: false }
    }

    /// Record the outcome of one connection attempt.
    pub fn on_setup(&mut self, outcome: SetupOutcome) -> (ev: Vec<InternalAudioEvent>)
        ensures
            final(self)@ == worker_step(old(self)@, StepView::Setup(outcome@)).worker,
            events_view(ev@) == worker_step(old(self)@, StepView::Setup(outcome@)).events,
    {
        let mut ev: Vec<InternalAudioEvent> = Vec::new();
        if !matches!(self.phase, SessionPhase::Connecting) {
            proof {
                assert(events_view(ev@) =~= Seq::<EventView>::empty());
            }
            return ev;
        }
        match outcome {
            SetupOutcome::Success => {
                self.phase = SessionPhase::Running;
                self.mic = if self.config.mic_device_id.is_some() {
                    Some(StreamContext::new(
                        StreamRole::Microphone,
                        stream_output_path(&self.config.output_dir, StreamRole::Microphone),
                    ))
                } else {
                    None
                };
                self.system = if self.config.system_audio {
                    Some(StreamContext::new(
                        StreamRole::System,
                        stream_output_path(&self.config.output_dir, StreamRole::System),
                    ))
                } else {
                    None
                };
                self.stop_requested = false;
                ev.push(InternalAudioEvent::Started);
                proof {
                    assert(events_view(ev@) =~= seq![EventView::Started]);
                }
            },
            SetupOutcome::Recoverable(_) => {
                ev.push(InternalAudioEvent::PipeWireDisconnected);
                proof {
                    assert(events_view(ev@) =~= seq![EventView::PipeWireDisconnected]);
                }
            },
            SetupOutcome::Fatal(m) => {
                self.phase = SessionPhase::Failed;
                let ghost mv = m@;
                ev.push(InternalAudioEvent::Error(m));
                proof {
                    assert(events_view(ev@) =~= seq![EventView::Error(mv)]);
                }
            },
        }
        ev
    }

    /// One watchdog tick: drain at most one pending stop command and report
    /// one levels snapshot.  Returns whether the event loop must quit, and
    /// the events to report.
    pub fn on_tick(&mut self, stop_pending: bool) -> (r: (bool, Vec<InternalAudioEvent>))
        ensures
            final(self)@ == worker_step(old(self)@, StepView::Tick { stop_pending }).worker,
            events_view(r.1@) == worker_step(old(self)@, StepView::Tick { stop_pending }).events,
            r.0 == worker_step(old(self)@, StepView::Tick { stop_pending }).quit,
    {
        let mut ev: Vec<InternalAudioEvent> = Vec::new();
        if !matches!(self.phase, SessionPhase::Running) {
            proof {
                assert(events_view(ev@) =~= Seq::<EventView>::empty());
            }
            return (false, ev);
        }
        if stop_pending {
            self.stop_requested = true;
        }
        let mic_peak = match &mut self.mic {
            Some(c) => c.take_peak(),
            None => 0,
        };
        let system_peak = match &mut self.system {
            Some(c) => c.take_peak(),
            None => 0,
        };
        ev.push(InternalAudioEvent::Levels { mic: mic_peak, system: system_peak });
        proof {
            assert(events_view(ev@) =~= seq![
                EventView::Levels { mic: mic_peak, system: system_peak },
            ]);
        }
        (stop_pending, ev)
    }

    /// Record that the event loop exited, concluding cleanly after a
    /// requested stop and reconnecting otherwise.
    pub fn on_loop_exit(&mut self) -> (ev: Vec<InternalAudioEvent>)
        ensures
            final(self)@ == worker_step(old(self)@, StepView::LoopExit).worker,
            events_view(ev@) == worker_step(old(self)@, StepView::LoopExit).events,
    {
        let mut ev: Vec<InternalAudioEvent> = Vec::new();
        if !matches!(self.phase, SessionPhase::Running) {
            proof {
                assert(events_view(ev@) =~= Seq::<EventView>::empty());
            }
            return ev;
        }
        self.mic = None;
        self.system = None;
        if self.stop_requested {
            self.phase = SessionPhase::Stopped;
            ev.push(InternalAudioEvent::Stopped);
            proof {
                assert(events_view(ev@) =~= seq![EventView::Stopped]);
            }
        } else {
            self.phase = SessionPhase::Connecting;
            ev.push(InternalAudioEvent::PipeWireDisconnected);
            proof {
                assert(events_view(ev@) =~= seq![EventView::PipeWireDisconnected]);
            }
        }
        ev
    }

    /// Drain at most one pending stop command during the pre-retry wait; a
    /// drained stop concludes the session silently instead of retrying.
    pub fn on_retry_wait(&mut self, stop_pending: bool)
        ensures
            final(self)@ == worker_step(old(self)@, StepView::RetryWait { stop_pending }).worker,
            worker_step(old(self)@, StepView::RetryWait { stop_pending }).events
                == Seq::<EventView>::empty(),
    {
        if matches!(self.phase, SessionPhase::Connecting) && stop_pending {
            self.phase = SessionPhase::Stopped;
        }
    }

    /// Relay a format negotiation notification to a role's stream.
    pub fn on_stream_format(
        &mut self,
        role: StreamRole,
        is_raw_audio: bool,
        rate: u32,
        channels: u32,
    ) -> (r: Option<EncoderRequest>)
        ensures
            match stream_of(old(self)@, role) {
                None => final(self)@ == old(self)@ && r is None,
                Some(c) => {
                    &&& final(self)@ == with_stream(
                        old(self)@,
                        role,
                        on_format_spec(c, is_raw_audio, rate, channels).0,
                    )
                    &&& (r is Some) == on_format_spec(c, is_raw_audio, rate, channels).1
                    &&& (match r {
                        Some(req) => req.path@ == c.output_path && req.rate == rate
                            && req.channels == channels,
                        None => true,
                    })
                },
            },
    {
        match role {
            StreamRole::Microphone => match &mut self.mic {
                Some(c) => c.on_format(is_raw_audio, rate, channels),
                None => None,
            },
            StreamRole::System => match &mut self.system {
                Some(c) => c.on_format(is_raw_audio, rate, channels),
                None => None,
            },
        }
    }

    /// Record whether a role's requested encoder could be opened.
    pub fn set_stream_encoder(&mut self, role: StreamRole, created: bool)
        ensures
            match stream_of(old(self)@, role) {
                None => final(self)@ == old(self)@,
                Some(c) => final(self)@ == with_stream(
                    old(self)@,
                    role,
                    set_encoder_spec(c, created),
                ),
            },
    {
        match role {
            StreamRole::Microphone => match &mut self.mic {
                Some(c) => c.set_encoder(created),
                None => {},
            },
            StreamRole::System => match &mut self.system {
                Some(c) => c.set_encoder(created),
                None => {},
            },
        }
    }

    /// Relay a buffer delivery to a role's stream.  The returned batch, if
    /// any, is what goes to that stream's encoder.
    pub fn on_stream_buffer(&mut self, role: StreamRole, data: Option<&Vec<u8>>) -> (r: Option<
        Vec<u32>,
    >)
        ensures
            match stream_of(old(self)@, role) {
                None => final(self)@ == old(self)@ && r is None,
                Some(c) => {
                    &&& final(self)@ == with_stream(old(self)@, role, on_buffer_spec(c, match data {
                        Some(d) => Some(d@),
                        None => None,
                    }).0)
                    &&& (match r {
                        Some(samples) => Some(samples@),
                        None => None,
                    }) == on_buffer_spec(c, match data {
                        Some(d) => Some(d@),
                        None => None,
                    }).1
                },
            },
    {
        match role {
            StreamRole::Microphone => match &mut self.mic {
                Some(c) => c.on_buffer(data),
                None => None,
            },
            StreamRole::System => match &mut self.system {
                Some(c) => c.on_buffer(data),
                None => None,
            },
        }
    }
}

} // verus!
