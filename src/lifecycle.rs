//! Downloader process lifecycle and the shutdown sequence.
//!
//! The decisions are made here; the caller performs each step (pausing the
//! audio stream, signalling and waiting for the process, awaiting the chat
//! task) and reports back what happened.
use vstd::prelude::*;

verus! {

/// Where the downloader process stands.
#[derive(Debug, Clone, Copy, PartialEq, Eq, Structural)]
pub enum ProcessState {
    NotStarted,
    Running,
    /// The process closed its output: the normal end of the media.
    Eof,
    /// A termination signal was sent.
    Killed,
    /// The process has fully exited.
    Terminated,
}

/// What happened to the downloader process.
#[derive(Debug, Clone, Copy, PartialEq, Eq, Structural)]
pub enum ProcessEvent {
    Spawned,
    OutputClosed,
    KillSent,
    Exited,
}

/// The lifecycle transitions; any other event leaves the state as it is.
pub open spec fn process_after(s: ProcessState, e: ProcessEvent) -> ProcessState {
    match (s, e) {
        (ProcessState::NotStarted, ProcessEvent::Spawned) => ProcessState::Running,
        (ProcessState::Running, ProcessEvent::OutputClosed) => ProcessState::Eof,
        (ProcessState::Running, ProcessEvent::KillSent) => ProcessState::Killed,
        (ProcessState::Eof, ProcessEvent::KillSent) => ProcessState::Killed,
        (ProcessState::Eof, ProcessEvent::Exited) => ProcessState::Terminated,
        (ProcessState::Killed, ProcessEvent::Exited) => ProcessState::Terminated,
        _ => s,
    }
}

/// Applies one lifecycle event.
pub fn process_next(s: ProcessState, e: ProcessEvent) -> (r: ProcessState)
    ensures
        r == process_after(s, e),
{
    match (s, e) {
        (ProcessState::NotStarted, ProcessEvent::Spawned) => ProcessState::Running,
        (ProcessState::Running, ProcessEvent::OutputClosed) => ProcessState::Eof,
        (ProcessState::Running, ProcessEvent::KillSent) => ProcessState::Killed,
        (ProcessState::Eof, ProcessEvent::KillSent) => ProcessState::Killed,
        (ProcessState::Eof, ProcessEvent::Exited) => ProcessState::Terminated,
        (ProcessState::Killed, ProcessEvent::Exited) => ProcessState::Terminated,
        _ => s,
    }
}

/// The next thing the shutdown sequence asks for.
#[derive(Debug, Clone, Copy, PartialEq, Eq, Structural)]
pub enum ShutdownStep {
    /// Pause the audio stream so that the real-time read no longer runs.
    PauseStream,
    /// Send the downloader its termination signal.
    SignalProcess,
    /// Wait, within a bound, for the downloader to exit.
    WaitForExit,
    /// Await the chat task's completion or cancellation.
    AwaitChat,
    /// Shutdown is complete.
    Finished,
    /// The downloader did not exit in time: a fatal shutdown error.
    Failed,
}

/// What the caller reports after performing a step.
#[derive(Debug, Clone, Copy, PartialEq, Eq, Structural)]
pub enum ShutdownEvent {
    StreamPaused,
    SignalSent,
    ProcessExited,
    ExitTimedOut,
    ChatDone,
}

/// The shutdown sequence's state.
#[derive(Debug, Clone, Copy, PartialEq, Eq, Structural)]
pub struct Shutdown {
    pub step: ShutdownStep,
    pub process: ProcessState,
    pub chat_running: bool,
    pub stream_paused: bool,
}

/// The state in which shutdown begins.
pub open spec fn shutdown_start(process: ProcessState, chat_running: bool) -> Shutdown {
    Shutdown { step: ShutdownStep::PauseStream, process, chat_running, stream_paused: false }
}

/// One reported event; an event that does not answer the current step
/// changes nothing.
pub open spec fn shutdown_after(s: Shutdown, e: ShutdownEvent) -> Shutdown {
    match (s.step, e) {
        (ShutdownStep::PauseStream, ShutdownEvent::StreamPaused) => Shutdown {
            step: ShutdownStep::SignalProcess,
            stream_paused: true,
            ..s
        },
        (ShutdownStep::SignalProcess, ShutdownEvent::SignalSent) => Shutdown {
            step: ShutdownStep::WaitForExit,
            process: process_after(s.process, ProcessEvent::KillSent),
            ..s
        },
        (ShutdownStep::WaitForExit, ShutdownEvent::ProcessExited) => Shutdown {
            step: if s.chat_running {
                ShutdownStep::AwaitChat
            } else {
                ShutdownStep::Finished
            },
            process: ProcessState::Terminated,
            ..s
        },
        (ShutdownStep::WaitForExit, ShutdownEvent::ExitTimedOut) => Shutdown {
            step: ShutdownStep::Failed,
            ..s
        },
        (ShutdownStep::AwaitChat, ShutdownEvent::ChatDone) => Shutdown {
            step: ShutdownStep::Finished,
            chat_running: false,
            ..s
        },
        _ => s,
    }
}

/// Runs a sequence of reported events from the start of shutdown.
pub open spec fn shutdown_run(process: ProcessState, chat_running: bool, events: Seq<ShutdownEvent>) -> Shutdown
    decreases events.len(),
{
    if events.len() == 0 {
        shutdown_start(process, chat_running)
    } else {
        shutdown_after(shutdown_run(process, chat_running, events.drop_last()), events.last())
    }
}

impl Shutdown {
    /// Begins shutdown of a session whose downloader is in `process` and
    /// whose chat task is running or not.
    pub fn new(process: ProcessState, chat_running: bool) -> (r: Self)
        ensures
            r == shutdown_start(process, chat_running),
    {
        Shutdown { step: ShutdownStep::PauseStream, process, chat_running, stream_paused: false }
    }

    /// The step the caller must perform next.
    pub fn next_step(&self) -> (r: ShutdownStep)
        ensures
            r == self.step,
    {
        self.step
    }

    /// Records what happened after the caller performed a step.
    pub fn report(&mut self, e: ShutdownEvent)
        ensures
            *final(self) == shutdown_after(*old(self), e),
    {
        match (self.step, e) {
            (ShutdownStep::PauseStream, ShutdownEvent::StreamPaused) => {
                self.step = ShutdownStep::SignalProcess;
                self.stream_paused = true;
            },
            (ShutdownStep::SignalProcess, ShutdownEvent::SignalSent) => {
                self.step = ShutdownStep::WaitForExit;
                self.process = process_next(self.process, ProcessEvent::KillSent);
            },
            (ShutdownStep::WaitForExit, ShutdownEvent::ProcessExited) => {
                self.step = if self.chat_running {
                    ShutdownStep::AwaitChat
                } else {
                    ShutdownStep::Finished
                };
                self.process = ProcessState::Terminated;
            },
            (ShutdownStep::WaitForExit, ShutdownEvent::ExitTimedOut) => {
                self.step = ShutdownStep::Failed;
            },
            (ShutdownStep::AwaitChat, ShutdownEvent::ChatDone) => {
                self.step = ShutdownStep::Finished;
                self.chat_running = false;
            },
            _ => {},
        }
    }
}

/// Shutdown ordering: whatever events are reported, the termination signal is
/// asked for, and is sent, only once the audio stream has been paused; and
/// shutdown finishes only once the downloader has reached `Terminated` and no
/// chat task is left running.
pub proof fn lemma_shutdown_order(process: ProcessState, chat_running: bool, events: Seq<ShutdownEvent>)
    ensures
        ({
            let s = shutdown_run(process, chat_running, events);
            &&& s.step != ShutdownStep::PauseStream ==> s.stream_paused
            &&& (s.step == ShutdownStep::SignalProcess || s.step == ShutdownStep::WaitForExit) ==> s.stream_paused
            &&& s.step == ShutdownStep::AwaitChat ==> s.process == ProcessState::Terminated
            &&& s.step == ShutdownStep::Finished ==> s.stream_paused && s.process
                == ProcessState::Terminated && !s.chat_running
        }),
    decreases events.len(),
{
    if events.len() > 0 {
        lemma_shutdown_order(process, chat_running, events.drop_last());
    }
}

} // verus!
