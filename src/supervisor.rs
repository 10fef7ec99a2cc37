use vstd::prelude::*;
use tokio_util::sync::CancellationToken;
use crate::channel::{Cursor, LineChannel, Received, texts};
use crate::config::{build_command, launch_args, LaunchCommand, ServerConfig};
use crate::error::{HandleError, KillError, SpawnError, StopError, SubscribeError};
use crate::signal::{cancel_token, fresh_token, share_token};
use crate::status::{
    is_legal_transition, is_live, is_resting, resting, InstanceStatus, StatusRegister,
};
use crate::stream::{StreamLine, StreamSource};
use crate::version::{MinecraftType, MinecraftVersion};

verus! {

/// How many lines each output stream retains for subscribers that lag.
pub const STREAM_CAPACITY: usize = 1024;

/// What came of launching the server process.
#[derive(Debug, Clone, Copy, PartialEq, Eq, Structural)]
pub enum SpawnOutcome {
    /// The process runs; the flags tell whether its output streams could be
    /// taken for reading.
    Spawned { stdout: bool, stderr: bool },
    Failed(SpawnError),
}

/// What the caller does after a graceful stop attempt was reported.
#[derive(Debug, Clone, Copy, PartialEq, Eq, Structural)]
pub enum StopNext {
    /// The process exited; nothing is left to do.
    Stopped,
    /// The grace period ran out: the process is to be killed.
    Kill,
}

/// The result `start` gives for a spawn outcome, once the status allowed it.
pub open spec fn start_result(o: SpawnOutcome) -> Result<(), HandleError> {
    match o {
        SpawnOutcome::Failed(e) => Err(HandleError::SpawnFailed(e)),
        SpawnOutcome::Spawned { stdout, stderr } => if !stdout {
            Err(HandleError::PumpsFailedNoStdout)
        } else if !stderr {
            Err(HandleError::PumpsFailedNoStderr)
        } else {
            Ok(())
        },
    }
}

/// The status after a stream of the process ended in status `s`.
pub open spec fn status_after_stream_end(s: InstanceStatus) -> InstanceStatus {
    if s == InstanceStatus::Running {
        InstanceStatus::Crashed
    } else {
        s
    }
}

/// Whether `start` accepts to begin a run from status `s`.
pub open spec fn start_admitted(s: InstanceStatus) -> bool {
    is_resting(s)
}

/// The supervisor of one server instance. It holds the lifecycle status, owns
/// the record of whether a server process is alive, keeps the per-run stop
/// signal, and multicasts both output streams.
///
/// The process itself is launched, signalled and awaited by the caller; each
/// method here takes the outcome of that work and decides the next state.
pub struct InstanceHandle {
    config: ServerConfig,
    status: StatusRegister,
    child: bool,
    shutdown: CancellationToken,
    stop_requested: bool,
    stdout_tx: LineChannel,
    stderr_tx: LineChannel,
}

impl InstanceHandle {
    pub closed spec fn status_view(&self) -> InstanceStatus {
        self.status.status()
    }

    /// Every status change made so far, oldest first.
    pub closed spec fn transitions(&self) -> Seq<(InstanceStatus, InstanceStatus)> {
        self.status.history()
    }

    /// Whether a process handle is owned.
    /// Whether a stop was requested in the current run: the run's stop
    /// signal has been raised. A new run starts with a fresh signal.
    pub closed spec fn stop_requested(&self) -> bool {
        self.stop_requested
    }

    pub closed spec fn has_process(&self) -> bool {
        self.child
    }

    pub closed spec fn config_view(&self) -> &ServerConfig {
        &self.config
    }

    pub closed spec fn channel(&self, s: StreamSource) -> LineChannel {
        match s {
            StreamSource::Stdout => self.stdout_tx,
            StreamSource::Stderr => self.stderr_tx,
        }
    }

    pub closed spec fn wf(&self) -> bool {
        &&& self.child == is_live(self.status.status())
        &&& self.stdout_tx.wf()
        &&& self.stderr_tx.wf()
        &&& self.stdout_tx.stream() == StreamSource::Stdout
        &&& self.stderr_tx.stream() == StreamSource::Stderr
        &&& self.stdout_tx.bound() == STREAM_CAPACITY
        &&& self.stderr_tx.bound() == STREAM_CAPACITY
        &&& forall|i: int|
            0 <= i < self.status.history().len() ==> is_legal_transition(
                #[trigger] self.status.history()[i].0,
                self.status.history()[i].1,
            )
    }

    /// A handle with a blank configuration.
    pub fn new() -> (r: Self)
        ensures
            r.wf(),
            r.status_view() == InstanceStatus::Stopped,
            r.transitions() == Seq::<(InstanceStatus, InstanceStatus)>::empty(),
            r.config_view().jar_path@ == Seq::<char>::empty(),
            r.config_view().core_path@ == Seq::<char>::empty(),
            r.config_view().mc_version == MinecraftVersion::Unknown,
            r.config_view().mc_type == MinecraftType::Unknown,
            !r.stop_requested(),
            !r.has_process(),
            r.channel(StreamSource::Stdout).published() == Seq::<Seq<char>>::empty(),
            r.channel(StreamSource::Stderr).published() == Seq::<Seq<char>>::empty(),
            r.channel(StreamSource::Stdout).oldest() == 0,
            r.channel(StreamSource::Stderr).oldest() == 0,
    {
        InstanceHandle::with_config(ServerConfig::new())
    }

    fn with_config(config: ServerConfig) -> (r: Self)
        ensures
            r.wf(),
            r.status_view() == InstanceStatus::Stopped,
            r.transitions() == Seq::<(InstanceStatus, InstanceStatus)>::empty(),
            r.config_view() == config,
            !r.stop_requested(),
            r.channel(StreamSource::Stdout).published() == Seq::<Seq<char>>::empty(),
            r.channel(StreamSource::Stderr).published() == Seq::<Seq<char>>::empty(),
            r.channel(StreamSource::Stdout).oldest() == 0,
            r.channel(StreamSource::Stderr).oldest() == 0,
    {
        InstanceHandle {
            config,
            status: StatusRegister::new(),
            child: false,
            shutdown: fresh_token(),
            stop_requested: false,
            stdout_tx: LineChannel::new(StreamSource::Stdout, STREAM_CAPACITY),
            stderr_tx: LineChannel::new(StreamSource::Stderr, STREAM_CAPACITY),
        }
    }

    /// A handle for `config`, which it takes over.
    pub fn with_cfg(config: ServerConfig) -> (r: Result<Self, HandleError>)
        ensures
            r matches Ok(h) && h.wf() && h.status_view() == InstanceStatus::Stopped
                && h.transitions() == Seq::<(InstanceStatus, InstanceStatus)>::empty()
                && h.config_view() == config && !h.stop_requested(),
    {
        Ok(InstanceHandle::with_config(config))
    }

    pub fn get_status(&self) -> (r: InstanceStatus)
        ensures
            r == self.status_view(),
    {
        self.status.read()
    }

    pub fn has_child(&self) -> (r: bool)
        ensures
            r == self.has_process(),
    {
        self.child
    }

    pub fn get_config(&self) -> (r: &ServerConfig)
        ensures
            r == self.config_view(),
    {
        &self.config
    }

    /// Whether a new run may begin now.
    pub fn stopped_killed_or_crashed(&self) -> (r: bool)
        ensures
            r == start_admitted(self.status_view()),
    {
        resting(self.status.read())
    }

    /// The invocation to launch for a new run, or `StartFailedNotStopped`
    /// when a run is under way. Changes nothing.
    pub fn launch_command(&self) -> (r: Result<LaunchCommand, HandleError>)
        ensures
            !start_admitted(self.status_view()) ==> r == Err::<LaunchCommand, HandleError>(
                HandleError::StartFailedNotStopped,
            ),
            start_admitted(self.status_view()) ==> (r matches Ok(c) && c.program@ == "java"@
                && c.args@.map_values(|a: String| a@) == launch_args(self.config_view().jar_path@)
                && c.working_dir@ == self.config_view().core_path@),
    {
        if !self.stopped_killed_or_crashed() {
            return Err(HandleError::StartFailedNotStopped);
        }
        Ok(build_command(&self.config))
    }

    /// Begins a run with the outcome of launching the process. From a resting
    /// status it goes to `Starting` with a fresh stop signal, then to
    /// `Running` when the process runs with both output streams readable,
    /// and to `Crashed` otherwise. Any other status is refused unchanged.
    pub fn start(&mut self, outcome: SpawnOutcome) -> (r: Result<(), HandleError>)
        requires
            old(self).wf(),
        ensures
            final(self).wf(),
            final(self).config_view() == old(self).config_view(),
            !start_admitted(old(self).status_view()) ==> {
                &&& r == Err::<(), HandleError>(HandleError::StartFailedNotStopped)
                &&& final(self).status_view() == old(self).status_view()
                &&& final(self).transitions() == old(self).transitions()
                &&& final(self).has_process() == old(self).has_process()
                &&& final(self).stop_requested() == old(self).stop_requested()
            },
            start_admitted(old(self).status_view()) ==> {
                &&& r == start_result(outcome)
                &&& !final(self).stop_requested()
                &&& r is Ok ==> final(self).status_view() == InstanceStatus::Running
                    && final(self).transitions() == old(self).transitions().push(
                    (old(self).status_view(), InstanceStatus::Starting),
                ).push((InstanceStatus::Starting, InstanceStatus::Running))
                    && !final(self).channel(StreamSource::Stdout).is_closed()
                    && !final(self).channel(StreamSource::Stderr).is_closed()
                &&& r is Err ==> final(self).status_view() == InstanceStatus::Crashed
                    && final(self).transitions() == old(self).transitions().push(
                    (old(self).status_view(), InstanceStatus::Starting),
                ).push((InstanceStatus::Starting, InstanceStatus::Crashed))
            },
            forall|s: StreamSource|
                #![auto]
                final(self).channel(s).published() == old(self).channel(s).published()
                    && final(self).channel(s).oldest() == old(self).channel(s).oldest(),
    {
        if !self.stopped_killed_or_crashed() {
            return Err(HandleError::StartFailedNotStopped);
        }
        if self.child {
            return Err(HandleError::StartFailedChildExists);
        }
        let _ = self.status.transition(
            &[InstanceStatus::Stopped, InstanceStatus::Crashed, InstanceStatus::Killed],
            InstanceStatus::Starting,
        );
        self.shutdown = fresh_token();
        self.stop_requested = false;
        let failure = match outcome {
            SpawnOutcome::Failed(e) => Some(HandleError::SpawnFailed(e)),
            SpawnOutcome::Spawned { stdout, stderr } => {
                if !stdout {
                    Some(HandleError::PumpsFailedNoStdout)
                } else if !stderr {
                    Some(HandleError::PumpsFailedNoStderr)
                } else {
                    None
                }
            },
        };
        match failure {
            Some(e) => {
                let _ = self.status.transition(&[InstanceStatus::Starting], InstanceStatus::Crashed);
                Err(e)
            },
            None => {
                self.stdout_tx.reopen();
                self.stderr_tx.reopen();
                self.child = true;
                let _ = self.status.transition(&[InstanceStatus::Starting], InstanceStatus::Running);
                Ok(())
            },
        }
    }

    /// Asks a running instance to stop: `Running` goes to `Stopping` and the
    /// run's stop signal is raised. The caller then requests a graceful exit
    /// and reports its outcome to `stop_finished`. Any other status is
    /// refused with `StopFailedNotRunning`, unchanged.
    pub fn stop(&mut self) -> (r: Result<(), HandleError>)
        requires
            old(self).wf(),
        ensures
            final(self).wf(),
            final(self).config_view() == old(self).config_view(),
            forall|s: StreamSource| #![auto] final(self).channel(s) == old(self).channel(s),
            old(self).status_view() != InstanceStatus::Running ==> {
                &&& r == Err::<(), HandleError>(HandleError::StopFailedNotRunning)
                &&& final(self).status_view() == old(self).status_view()
                &&& final(self).transitions() == old(self).transitions()
                &&& final(self).stop_requested() == old(self).stop_requested()
            },
            old(self).status_view() == InstanceStatus::Running ==> {
                &&& r == Ok::<(), HandleError>(())
                &&& final(self).stop_requested()
                &&& final(self).status_view() == InstanceStatus::Stopping
                &&& final(self).transitions() == old(self).transitions().push(
                    (InstanceStatus::Running, InstanceStatus::Stopping),
                )
            },
    {
        if self.status.read() != InstanceStatus::Running {
            return Err(HandleError::StopFailedNotRunning);
        }
        if !self.child {
            return Err(HandleError::StopFailedChildNotExists);
        }
        let _ = self.status.transition(&[InstanceStatus::Running], InstanceStatus::Stopping);
        cancel_token(&self.shutdown);
        self.stop_requested = true;
        Ok(())
    }

    /// Takes the outcome of a graceful stop. An exit within the grace period,
    /// or a process already gone, ends at `Stopped` with the handle released;
    /// a timeout goes to `Killing` and asks the caller to kill. Outside
    /// `Stopping` nothing changes and `InternalError` is returned.
    pub fn stop_finished(&mut self, outcome: Result<(), StopError>) -> (r: Result<
        StopNext,
        HandleError,
    >)
        requires
            old(self).wf(),
        ensures
            final(self).wf(),
            final(self).config_view() == old(self).config_view(),
            final(self).stop_requested() == old(self).stop_requested(),
            forall|s: StreamSource| #![auto] final(self).channel(s) == old(self).channel(s),
            old(self).status_view() != InstanceStatus::Stopping ==> {
                &&& r == Err::<StopNext, HandleError>(HandleError::InternalError)
                &&& final(self).status_view() == old(self).status_view()
                &&& final(self).transitions() == old(self).transitions()
            },
            old(self).status_view() == InstanceStatus::Stopping && outcome != Err::<(), StopError>(
                StopError::Timeout,
            ) ==> {
                &&& r == Ok::<StopNext, HandleError>(StopNext::Stopped)
                &&& final(self).status_view() == InstanceStatus::Stopped
                &&& final(self).transitions() == old(self).transitions().push(
                    (InstanceStatus::Stopping, InstanceStatus::Stopped),
                )
            },
            old(self).status_view() == InstanceStatus::Stopping && outcome == Err::<(), StopError>(
                StopError::Timeout,
            ) ==> {
                &&& r == Ok::<StopNext, HandleError>(StopNext::Kill)
                &&& final(self).status_view() == InstanceStatus::Killing
                &&& final(self).transitions() == old(self).transitions().push(
                    (InstanceStatus::Stopping, InstanceStatus::Killing),
                )
            },
    {
        if self.status.read() != InstanceStatus::Stopping {
            return Err(HandleError::InternalError);
        }
        match outcome {
            Err(StopError::Timeout) => {
                let _ = self.status.transition(&[InstanceStatus::Stopping], InstanceStatus::Killing);
                Ok(StopNext::Kill)
            },
            _ => {
                self.child = false;
                let _ = self.status.transition(&[InstanceStatus::Stopping], InstanceStatus::Stopped);
                Ok(StopNext::Stopped)
            },
        }
    }

    /// Begins a forced kill: a live status goes to `Killing` (a kill already
    /// under way is left as it is). Without a live process it is refused with
    /// `KillFailedChildNotExists`, unchanged. The caller then kills the
    /// process and reports to `kill_finished`.
    pub fn kill(&mut self) -> (r: Result<(), HandleError>)
        requires
            old(self).wf(),
        ensures
            final(self).wf(),
            final(self).config_view() == old(self).config_view(),
            final(self).stop_requested() == old(self).stop_requested(),
            forall|s: StreamSource| #![auto] final(self).channel(s) == old(self).channel(s),
            !is_live(old(self).status_view()) ==> {
                &&& r == Err::<(), HandleError>(HandleError::KillFailedChildNotExists)
                &&& final(self).status_view() == old(self).status_view()
                &&& final(self).transitions() == old(self).transitions()
            },
            old(self).status_view() == InstanceStatus::Killing ==> {
                &&& r == Ok::<(), HandleError>(())
                &&& final(self).status_view() == InstanceStatus::Killing
                &&& final(self).transitions() == old(self).transitions()
            },
            is_live(old(self).status_view()) && old(self).status_view() != InstanceStatus::Killing
                ==> {
                &&& r == Ok::<(), HandleError>(())
                &&& final(self).status_view() == InstanceStatus::Killing
                &&& final(self).transitions() == old(self).transitions().push(
                    (old(self).status_view(), InstanceStatus::Killing),
                )
            },
    {
        if !self.child {
            return Err(HandleError::KillFailedChildNotExists);
        }
        if self.status.read() == InstanceStatus::Killing {
            return Ok(());
        }
        let _ = self.status.transition(
            &[InstanceStatus::Starting, InstanceStatus::Running, InstanceStatus::Stopping],
            InstanceStatus::Killing,
        );
        Ok(())
    }

    /// Takes the outcome of a forced kill. A confirmed death, or a process
    /// that had already exited, ends at `Killed`; a refusal by the operating
    /// system ends the run at `Crashed` with `KillFailledInternal`. The handle
    /// is released either way. Outside `Killing` nothing changes and
    /// `InternalError` is returned.
    pub fn kill_finished(&mut self, outcome: Result<(), KillError>) -> (r: Result<(), HandleError>)
        requires
            old(self).wf(),
        ensures
            final(self).wf(),
            final(self).config_view() == old(self).config_view(),
            final(self).stop_requested() == old(self).stop_requested(),
            forall|s: StreamSource| #![auto] final(self).channel(s) == old(self).channel(s),
            old(self).status_view() != InstanceStatus::Killing ==> {
                &&& r == Err::<(), HandleError>(HandleError::InternalError)
                &&& final(self).status_view() == old(self).status_view()
                &&& final(self).transitions() == old(self).transitions()
            },
            old(self).status_view() == InstanceStatus::Killing && outcome != Err::<(), KillError>(
                KillError::OsRefused,
            ) ==> {
                &&& r == Ok::<(), HandleError>(())
                &&& final(self).status_view() == InstanceStatus::Killed
                &&& final(self).transitions() == old(self).transitions().push(
                    (InstanceStatus::Killing, InstanceStatus::Killed),
                )
            },
            old(self).status_view() == InstanceStatus::Killing && outcome == Err::<(), KillError>(
                KillError::OsRefused,
            ) ==> {
                &&& r == Err::<(), HandleError>(HandleError::KillFailledInternal)
                &&& final(self).status_view() == InstanceStatus::Crashed
                &&& final(self).transitions() == old(self).transitions().push(
                    (InstanceStatus::Killing, InstanceStatus::Crashed),
                )
            },
    {
        if self.status.read() != InstanceStatus::Killing {
            return Err(HandleError::InternalError);
        }
        self.child = false;
        match outcome {
            Err(KillError::OsRefused) => {
                let _ = self.status.transition(&[InstanceStatus::Killing], InstanceStatus::Crashed);
                Err(HandleError::KillFailledInternal)
            },
            _ => {
                let _ = self.status.transition(&[InstanceStatus::Killing], InstanceStatus::Killed);
                Ok(())
            },
        }
    }

    /// Records that the pump of `source` stopped reading: that stream ends
    /// for its subscribers. While `Running` this means the process died on
    /// its own, and the run ends at `Crashed` with the handle released; in
    /// any other status the end was expected and the status is kept.
    pub fn stream_ended(&mut self, source: StreamSource)
        requires
            old(self).wf(),
        ensures
            final(self).wf(),
            final(self).config_view() == old(self).config_view(),
            final(self).stop_requested() == old(self).stop_requested(),
            final(self).channel(source).is_closed(),
            final(self).channel(source).published() == old(self).channel(source).published(),
            forall|s: StreamSource|
                #![auto]
                s != source ==> final(self).channel(s) == old(self).channel(s),
            final(self).status_view() == status_after_stream_end(old(self).status_view()),
            old(self).status_view() == InstanceStatus::Running ==> final(self).transitions()
                == old(self).transitions().push((InstanceStatus::Running, InstanceStatus::Crashed)),
            old(self).status_view() != InstanceStatus::Running ==> final(self).transitions()
                == old(self).transitions(),
    {
        match source {
            StreamSource::Stdout => self.stdout_tx.close(),
            StreamSource::Stderr => self.stderr_tx.close(),
        }
        if self.status.read() == InstanceStatus::Running {
            self.child = false;
            let _ = self.status.transition(&[InstanceStatus::Running], InstanceStatus::Crashed);
        }
    }

    /// The number of lines published so far on `source`.
    pub fn published_count(&self, source: StreamSource) -> (r: u64)
        requires
            self.wf(),
        ensures
            r as nat == self.channel(source).published().len(),
    {
        match source {
            StreamSource::Stdout => self.stdout_tx.published_count(),
            StreamSource::Stderr => self.stderr_tx.published_count(),
        }
    }

    /// Publishes a line that the process wrote to `source`.
    pub fn publish(&mut self, source: StreamSource, line: String)
        requires
            old(self).wf(),
            old(self).channel(source).published().len() < u64::MAX,
        ensures
            final(self).wf(),
            final(self).config_view() == old(self).config_view(),
            final(self).stop_requested() == old(self).stop_requested(),
            final(self).status_view() == old(self).status_view(),
            final(self).transitions() == old(self).transitions(),
            final(self).channel(source).published() == old(self).channel(source).published().push(
                line@,
            ),
            final(self).channel(source).is_closed() == old(self).channel(source).is_closed(),
            old(self).channel(source).published().len() < old(self).channel(source).oldest()
                + STREAM_CAPACITY ==> final(self).channel(source).oldest() == old(self).channel(
                source,
            ).oldest(),
            old(self).channel(source).published().len() == old(self).channel(source).oldest()
                + STREAM_CAPACITY ==> final(self).channel(source).oldest() == old(self).channel(
                source,
            ).oldest() + 1,
            forall|s: StreamSource|
                #![auto]
                s != source ==> final(self).channel(s) == old(self).channel(s),
    {
        match source {
            StreamSource::Stdout => self.stdout_tx.publish(line),
            StreamSource::Stderr => self.stderr_tx.publish(line),
        }
    }

    /// A new subscriber to `stream`; it sees the lines published from now on.
    /// Subscribing never depends on whether a process runs.
    pub fn subscribe(&self, stream: StreamSource) -> (r: Result<Cursor, SubscribeError>)
        requires
            self.wf(),
        ensures
            r matches Ok(c) && c.position() == self.channel(stream).published().len(),
    {
        match stream {
            StreamSource::Stdout => Ok(self.stdout_tx.subscribe()),
            StreamSource::Stderr => Ok(self.stderr_tx.subscribe()),
        }
    }

    /// The next item of `stream` for the subscriber at `c`; see
    /// `LineChannel::recv`.
    pub fn recv(&self, stream: StreamSource, c: &mut Cursor) -> (r: Received)
        requires
            self.wf(),
        ensures
            old(c).position() < self.channel(stream).oldest() ==> {
                &&& r matches Received::Lagged(n)
                    && n == self.channel(stream).oldest() - old(c).position()
                &&& final(c).position() == self.channel(stream).oldest()
            },
            self.channel(stream).oldest() <= old(c).position()
                < self.channel(stream).published().len() ==> {
                &&& r matches Received::Line(l)
                    && l.text_view() == self.channel(stream).published()[old(c).position() as int]
                    && l.source_view() == stream
                &&& final(c).position() == old(c).position() + 1
            },
            self.channel(stream).published().len() <= old(c).position() ==> {
                &&& (r matches Received::Closed) == self.channel(stream).is_closed()
                &&& (r matches Received::Empty) == !self.channel(stream).is_closed()
                &&& *final(c) == *old(c)
            },
    {
        match stream {
            StreamSource::Stdout => self.stdout_tx.recv(c),
            StreamSource::Stderr => self.stderr_tx.recv(c),
        }
    }

    /// Every line of `stream` available to the subscriber at `c`; see
    /// `LineChannel::drain`.
    pub fn drain(&self, stream: StreamSource, c: &mut Cursor) -> (r: Vec<StreamLine>)
        requires
            self.wf(),
        ensures
            texts(r@) == self.channel(stream).delivered_from(old(c).position()),
            forall|i: int| 0 <= i < r@.len() ==> (#[trigger] r@[i]).source_view() == stream,
    {
        match stream {
            StreamSource::Stdout => self.stdout_tx.drain(c),
            StreamSource::Stderr => self.stderr_tx.drain(c),
        }
    }

    /// Whether a stop was requested in the current run.
    pub fn is_stop_requested(&self) -> (r: bool)
        ensures
            r == self.stop_requested(),
    {
        self.stop_requested
    }

    /// The stop signal of the current run, for the tasks that read the
    /// process's output; it is raised exactly when `stop_requested` holds.
    pub fn shutdown_signal(&self) -> (r: CancellationToken) {
        share_token(&self.shutdown)
    }
}

/// A process handle is owned exactly when the status is one of `Starting`,
/// `Running`, `Stopping` or `Killing`; every operation of the handle keeps
/// this so.
pub proof fn lemma_process_iff_live(h: InstanceHandle)
    requires
        h.wf(),
    ensures
        h.has_process() <==> is_live(h.status_view()),
{
}

/// Once a run has begun, every status it passes through before a resting one
/// refuses a second start; `start` then leaves the status as it was.
pub proof fn lemma_second_start_refused(h: InstanceHandle)
    requires
        h.wf(),
        is_live(h.status_view()),
    ensures
        !start_admitted(h.status_view()),
        h.has_process(),
{
}

/// When the process exits on its own while running, its two streams end in
/// either order: the run ends at `Crashed` whichever ends first, and stays
/// there when the other ends.
pub proof fn lemma_exit_while_running_crashes()
    ensures
        status_after_stream_end(InstanceStatus::Running) == InstanceStatus::Crashed,
        status_after_stream_end(status_after_stream_end(InstanceStatus::Running))
            == InstanceStatus::Crashed,
        !is_live(status_after_stream_end(InstanceStatus::Running)),
{
}

/// A status change that the handle records is always one of the state
/// machine's transitions.
pub proof fn lemma_recorded_transitions_legal(h: InstanceHandle, i: int)
    requires
        h.wf(),
        0 <= i < h.transitions().len(),
    ensures
        is_legal_transition(h.transitions()[i].0, h.transitions()[i].1),
{
}

/// What a well-formed handle guarantees of its two streams: each is a
/// well-formed channel for its own stream, retaining at most
/// `STREAM_CAPACITY` of the latest lines.
pub proof fn lemma_channels_wf(h: InstanceHandle, s: StreamSource)
    requires
        h.wf(),
    ensures
        h.channel(s).wf(),
        h.channel(s).stream() == s,
        h.channel(s).bound() == STREAM_CAPACITY,
        h.channel(s).oldest() <= h.channel(s).published().len(),
        h.channel(s).published().len() <= h.channel(s).oldest() + STREAM_CAPACITY,
{
    h.channel(s).lemma_window();
}

/// A subscriber of a handle's stream reads exactly the lines published on it
/// after it subscribed, each once and in order, none from before, provided it
/// did not fall behind the retained lines.
pub proof fn lemma_subscriber_reads_later_lines(
    before: InstanceHandle,
    after: InstanceHandle,
    s: StreamSource,
    c: Cursor,
    later: Seq<Seq<char>>,
)
    requires
        before.wf(),
        after.wf(),
        c.position() == before.channel(s).published().len(),
        after.channel(s).published() == before.channel(s).published() + later,
        after.channel(s).oldest() <= c.position(),
    ensures
        after.channel(s).delivered_from(c.position()) == later,
{
    lemma_channels_wf(before, s);
    lemma_channels_wf(after, s);
    crate::channel::lemma_late_subscriber_sees_only_later(
        before.channel(s),
        after.channel(s),
        c,
        later,
    );
}

} // verus!
