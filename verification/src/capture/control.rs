//! Terminal events of a capture worker and how the adapter reports them.

use std::cell::Cell;
use std::sync::mpsc::{Receiver, RecvTimeoutError, SyncSender, TryRecvError};
use std::time::Duration;
use vstd::prelude::*;

use crate::audio::{AudioCaptureError, AudioChunk, AudioInputEvent};
use crate::capture::error::{pipewire_error_message, PipeWireError};
use crate::duration::{debug_text, duration_debug_text};
use crate::text::push_text;

verus! {

#[verifier::external_type_specification]
#[verifier::external_body]
#[verifier::reject_recursive_types(T)]
pub struct ExCell<T: ?Sized>(Cell<T>);

#[verifier::external_type_specification]
#[verifier::external_body]
#[verifier::reject_recursive_types(T)]
pub struct ExSyncSender<T>(SyncSender<T>);

#[verifier::external_type_specification]
#[verifier::external_body]
#[verifier::reject_recursive_types(T)]
pub struct ExReceiver<T>(Receiver<T>);

/// PCM captured by the worker, queued behind a bounded channel.
#[derive(Debug)]
pub enum AudioEvent {
    Audio(AudioChunk),
}

/// A terminal event of the capture worker, sent on its own one-slot channel
/// so that queued PCM can never displace it.
#[derive(Debug)]
pub enum ControlEvent {
    /// Capture failed with this message.
    Failure(String),
    /// Capture ended although nobody asked it to.
    Stopped,
}

/// One non-blocking look at the control channel.
#[derive(Debug)]
pub enum ControlPoll {
    /// A terminal event was waiting.
    Event(ControlEvent),
    /// Nothing was waiting.
    Empty,
    /// The worker dropped its end.
    Disconnected,
}

/// Message reported when capture ended on its own.
pub open spec fn unrequested_stop_message() -> Seq<char> {
    "PipeWire capture stopped before the application requested shutdown"@
}

/// Message reported when audio ended without a terminal event.
pub open spec fn audio_disconnect_message() -> Seq<char> {
    "PipeWire capture audio channel disconnected unexpectedly"@
}

/// The error a terminal event is reported as.
pub open spec fn control_error_message(event: ControlEvent) -> Seq<char> {
    match event {
        ControlEvent::Failure(m) => m@,
        ControlEvent::Stopped => unrequested_stop_message(),
    }
}

/// Reports a terminal event as an error and marks the capture terminal.
pub fn consume_control(event: ControlEvent, terminal: &mut bool) -> (r: Result<
    AudioInputEvent,
    AudioCaptureError,
>)
    ensures
        *final(terminal),
        r matches Err(e) && e.message_view() == control_error_message(event),
{
    *terminal = true;
    match event {
        ControlEvent::Failure(message) => Err(AudioCaptureError::new(message.as_str())),
        ControlEvent::Stopped => Err(
            AudioCaptureError::new(
                "PipeWire capture stopped before the application requested shutdown",
            ),
        ),
    }
}

/// After the audio channel disconnected and the control channel was polled
/// once: a queued terminal failure wins; otherwise the disconnect itself is
/// the error.
pub fn disconnect_outcome(poll: ControlPoll, terminal: &mut bool) -> (r: Result<
    AudioInputEvent,
    AudioCaptureError,
>)
    ensures
        match poll {
            ControlPoll::Event(event) => *final(terminal) && (r matches Err(e)
                && e.message_view() == control_error_message(event)),
            _ => *final(terminal) == *old(terminal) && (r matches Err(e) && e.message_view()
                == audio_disconnect_message()),
        },
{
    match poll {
        ControlPoll::Event(event) => consume_control(event, terminal),
        ControlPoll::Empty | ControlPoll::Disconnected => Err(
            AudioCaptureError::new("PipeWire capture audio channel disconnected unexpectedly"),
        ),
    }
}

/// `Receiver::try_recv` on the control channel, told apart by outcome.
/// Whether an event is waiting depends on the worker thread.
#[verifier::external_body]
fn poll_control(control_events: &Receiver<ControlEvent>) -> ControlPoll {
    match control_events.try_recv() {
        Ok(event) => ControlPoll::Event(event),
        Err(TryRecvError::Empty) => ControlPoll::Empty,
        Err(TryRecvError::Disconnected) => ControlPoll::Disconnected,
    }
}

/// After the audio channel disconnected: a terminal failure queued on the
/// control channel is reported, and marks the capture terminal; otherwise
/// the disconnect itself is the error.
pub fn result_after_audio_disconnect(control_events: &Receiver<ControlEvent>, terminal: &mut bool) -> (r: Result<
    AudioInputEvent,
    AudioCaptureError,
>)
    ensures
        r matches Err(e) && (*final(terminal) || e.message_view() == audio_disconnect_message()),
        *old(terminal) ==> *final(terminal),
{
    let poll = poll_control(control_events);
    disconnect_outcome(poll, terminal)
}

/// One bounded wait on the audio channel.
#[derive(Debug)]
pub enum AudioWait {
    /// PCM arrived.
    Event(AudioEvent),
    /// Nothing arrived in time.
    Timeout,
    /// The worker dropped its end.
    Disconnected,
}

/// `Receiver::recv_timeout` on the audio channel, told apart by outcome.
/// What arrives, and when, depends on the worker thread.
#[verifier::external_body]
fn receive_audio(audio_events: &Receiver<AudioEvent>, timeout: Duration) -> AudioWait {
    match audio_events.recv_timeout(timeout) {
        Ok(event) => AudioWait::Event(event),
        Err(RecvTimeoutError::Timeout) => AudioWait::Timeout,
        Err(RecvTimeoutError::Disconnected) => AudioWait::Disconnected,
    }
}

/// What one wait on the audio channel gives the session: a chunk that
/// arrived, or `Idle` when nothing arrived in time; `None` when the worker
/// dropped its end, which the control channel then explains.
pub fn audio_wait_result(wait: AudioWait) -> (r: Option<Result<AudioInputEvent, AudioCaptureError>>)
    ensures
        wait matches AudioWait::Event(AudioEvent::Audio(c)) ==> r == Some(
            Ok::<AudioInputEvent, AudioCaptureError>(AudioInputEvent::Chunk(c)),
        ),
        wait is Timeout ==> r == Some(Ok::<AudioInputEvent, AudioCaptureError>(AudioInputEvent::Idle)),
        wait is Disconnected ==> r is None,
{
    match wait {
        AudioWait::Event(AudioEvent::Audio(chunk)) => Some(Ok(AudioInputEvent::Chunk(chunk))),
        AudioWait::Timeout => Some(Ok(AudioInputEvent::Idle)),
        AudioWait::Disconnected => None,
    }
}

/// Message reported when the control channel closed without an event.
pub open spec fn control_disconnect_message() -> Seq<char> {
    "PipeWire capture control channel disconnected unexpectedly"@
}

/// The receiving side of a capture worker, and how far the session has
/// ended. Once stopping was requested, capture stopped, or a terminal event
/// was reported, the session only reports the end of the stream.
pub struct CaptureEvents {
    audio_events: Receiver<AudioEvent>,
    control_events: Receiver<ControlEvent>,
    worker_done: Receiver<()>,
    stop_requested: bool,
    stopped: bool,
    terminal: bool,
    /// The timeout and outcome of the latest call's wait on the audio
    /// channel; `None` when that call did not wait for audio.
    audio_wait: Ghost<Option<(Duration, AudioWait)>>,
    /// The timeout and outcome of the latest wait for the worker's
    /// completion signal; `None` when the latest shutdown had no worker to
    /// wait for.
    worker_signal: Ghost<Option<(Duration, WorkerSignal)>>,
}

impl CaptureEvents {
    pub closed spec fn stop_requested_view(&self) -> bool {
        self.stop_requested
    }

    pub closed spec fn stopped_view(&self) -> bool {
        self.stopped
    }

    pub closed spec fn terminal_view(&self) -> bool {
        self.terminal
    }

    /// The channels the session reads: audio, control events, and the
    /// worker's completion signal.
    pub closed spec fn channels_view(&self) -> (Receiver<AudioEvent>, Receiver<ControlEvent>, Receiver<()>) {
        (self.audio_events, self.control_events, self.worker_done)
    }

    /// The timeout and outcome of the latest `next_event`'s wait on the
    /// audio channel; `None` when it did not wait for audio.
    pub closed spec fn audio_wait_view(&self) -> Option<(Duration, AudioWait)> {
        self.audio_wait@
    }

    /// The timeout and outcome of the latest wait for the worker.
    pub closed spec fn worker_signal_view(&self) -> Option<(Duration, WorkerSignal)> {
        self.worker_signal@
    }

    /// Whether the session reports nothing but the end of the stream.
    pub open spec fn ended(&self) -> bool {
        self.stop_requested_view() || self.stopped_view() || self.terminal_view()
    }

    /// A session that has not ended yet.
    pub fn new(
        audio_events: Receiver<AudioEvent>,
        control_events: Receiver<ControlEvent>,
        worker_done: Receiver<()>,
    ) -> (s: Self)
        ensures
            s.channels_view() == (audio_events, control_events, worker_done),
            !s.stop_requested_view(),
            !s.stopped_view(),
            !s.terminal_view(),
            s.audio_wait_view() is None,
    {
        CaptureEvents {
            audio_events,
            control_events,
            worker_done,
            stop_requested: false,
            stopped: false,
            terminal: false,
            audio_wait: Ghost(None),
            worker_signal: Ghost(None),
        }
    }

    /// Whether stopping was requested.
    pub fn stop_requested(&self) -> (b: bool)
        ensures
            b == self.stop_requested_view(),
    {
        self.stop_requested
    }

    /// Whether capture stopped.
    pub fn stopped(&self) -> (b: bool)
        ensures
            b == self.stopped_view(),
    {
        self.stopped
    }

    /// Whether a terminal event was reported.
    pub fn terminal(&self) -> (b: bool)
        ensures
            b == self.terminal_view(),
    {
        self.terminal
    }

    /// First step of a shutdown: records that stopping was requested, and
    /// says whether the stop request is still to be sent.
    pub fn begin_shutdown(&mut self) -> (r: ShutdownStart)
        ensures
            final(self).channels_view() == old(self).channels_view(),
            r == shutdown_start(old(self).stop_requested_view(), old(self).stopped_view()),
            final(self).stop_requested_view() == (old(self).stop_requested_view() || !old(
                self,
            ).stopped_view()),
            final(self).stopped_view() == old(self).stopped_view(),
            final(self).terminal_view() == old(self).terminal_view(),
    {
        if self.stopped {
            return ShutdownStart::AlreadyStopped;
        }
        if !self.stop_requested {
            self.stop_requested = true;
            return ShutdownStart::SendStop;
        }
        ShutdownStart::AwaitWorker
    }

    /// Second step of a shutdown, once the stop request is out: without a
    /// worker to wait for, capture has stopped; otherwise the worker gets
    /// `timeout` to report completion. If it does not, the shutdown stays
    /// pending and may be retried; if it does (or went away), capture has
    /// stopped and the worker is to be joined.
    pub fn await_worker(&mut self, worker_present: bool, timeout: Duration) -> (r: WorkerAwait)
        ensures
            final(self).channels_view() == old(self).channels_view(),
            !worker_present ==> r is Stopped && final(self).stopped_view(),
            worker_present ==> (r is Join || r is Pending),
            r is Join ==> final(self).stopped_view(),
            r is Pending ==> final(self).stopped_view() == old(self).stopped_view(),
            r matches WorkerAwait::Pending(e) ==> e.message_view() == pending_shutdown_message(
                timeout,
            ),
            !worker_present ==> final(self).worker_signal_view() is None,
            worker_present ==> (final(self).worker_signal_view() matches Some((waited, signal))
                && waited == timeout && final(self).stopped_view() == stopped_after_wait(
                old(self).stopped_view(),
                signal,
            ) && (r is Pending <==> signal is Timeout)),
            final(self).stop_requested_view() == old(self).stop_requested_view(),
            final(self).terminal_view() == old(self).terminal_view(),
    {
        if !worker_present {
            self.worker_signal = Ghost(None);
            self.stopped = true;
            return WorkerAwait::Stopped;
        }
        let signal = wait_worker_done(&self.worker_done, timeout);
        self.worker_signal = Ghost(Some((timeout, signal)));
        match signal {
            WorkerSignal::Timeout => {
                let mut m = String::new();
                push_text(&mut m, "PipeWire capture worker did not stop within ");
                let shown = debug_text(timeout);
                push_text(&mut m, shown.as_str());
                push_text(&mut m, "; shutdown remains pending and may be retried");
                WorkerAwait::Pending(AudioCaptureError::new(m.as_str()))
            },
            WorkerSignal::Done | WorkerSignal::Disconnected => {
                self.stopped = true;
                WorkerAwait::Join
            },
        }
    }

    /// Waits at most `timeout` for the next audio event.
    ///
    /// A terminal event already queued on the control channel wins over
    /// queued PCM; an audio channel that closes reports a queued terminal
    /// failure before its own disconnect.
    pub fn next_event(&mut self, timeout: Duration) -> (r: Result<AudioInputEvent, AudioCaptureError>)
        ensures
            final(self).channels_view() == old(self).channels_view(),
            final(self).stop_requested_view() == old(self).stop_requested_view(),
            final(self).stopped_view() == old(self).stopped_view(),
            old(self).ended() ==> (r matches Ok(AudioInputEvent::EndOfStream)
                && final(self).terminal_view() == old(self).terminal_view()
                && final(self).audio_wait_view() is None),
            !old(self).ended() ==> !(r matches Ok(AudioInputEvent::EndOfStream)),
            !old(self).terminal_view() && final(self).terminal_view() ==> r is Err,
            old(self).terminal_view() ==> final(self).terminal_view(),
            r matches Err(e) ==> (final(self).terminal_view() || e.message_view()
                == control_disconnect_message() || e.message_view() == audio_disconnect_message()),
            final(self).audio_wait_view() matches Some((waited, wait)) ==> waited == timeout
                && !old(self).ended() && (wait matches AudioWait::Event(AudioEvent::Audio(c)) ==> r
                == Ok::<AudioInputEvent, AudioCaptureError>(AudioInputEvent::Chunk(c))) && (
            wait is Timeout ==> r == Ok::<AudioInputEvent, AudioCaptureError>(
                AudioInputEvent::Idle,
            )) && (wait is Disconnected ==> r is Err),
            final(self).audio_wait_view() is None ==> !(r matches Ok(AudioInputEvent::Chunk(_)))
                && !(r matches Ok(AudioInputEvent::Idle)),
    {
        self.audio_wait = Ghost(None);
        if self.stop_requested || self.stopped || self.terminal {
            return Ok(AudioInputEvent::EndOfStream);
        }
        match poll_control(&self.control_events) {
            ControlPoll::Event(event) => {
                return consume_control(event, &mut self.terminal);
            },
            ControlPoll::Disconnected => {
                return Err(
                    AudioCaptureError::new("PipeWire capture control channel disconnected unexpectedly"),
                );
            },
            ControlPoll::Empty => {},
        }
        let wait = receive_audio(&self.audio_events, timeout);
        self.audio_wait = Ghost(Some((timeout, wait)));
        match audio_wait_result(wait) {
            Some(result) => result,
            None => result_after_audio_disconnect(&self.control_events, &mut self.terminal),
        }
    }
}

/// What the first step of a shutdown asks of the program.
#[derive(Clone, Copy, Debug, PartialEq, Eq, Structural)]
pub enum ShutdownStart {
    /// Capture already stopped; the shutdown succeeds at once.
    AlreadyStopped,
    /// Send the stop request to the worker, then wait for it.
    SendStop,
    /// The stop request went out before; wait for the worker again.
    AwaitWorker,
}

/// The first step of a shutdown from the session's flags.
pub open spec fn shutdown_start(stop_requested: bool, stopped: bool) -> ShutdownStart {
    if stopped {
        ShutdownStart::AlreadyStopped
    } else if !stop_requested {
        ShutdownStart::SendStop
    } else {
        ShutdownStart::AwaitWorker
    }
}

/// How waiting for the worker ended.
#[derive(Debug)]
pub enum WorkerAwait {
    /// There was no worker left; capture has stopped.
    Stopped,
    /// The worker did not report in time; the shutdown remains pending.
    Pending(AudioCaptureError),
    /// The worker finished or went away; join it.
    Join,
}

/// The error of a shutdown whose worker did not stop within `timeout`.
pub open spec fn pending_shutdown_message(timeout: Duration) -> Seq<char> {
    "PipeWire capture worker did not stop within "@ + duration_debug_text(timeout)
        + "; shutdown remains pending and may be retried"@
}

/// Whether capture has stopped after a wait for the worker that ended with
/// `signal`: a report or a vanished worker stops it; a timeout leaves it as
/// it was.
pub open spec fn stopped_after_wait(stopped: bool, signal: WorkerSignal) -> bool {
    stopped || !(signal is Timeout)
}

/// A timed-out shutdown is retried rather than taken as done, and stops
/// waiting only once the worker has reported: the first shutdown sends the
/// stop request, and a wait that times out leaves capture not stopped; the
/// next shutdown waits for the worker again without a second stop request;
/// a wait that ends in the worker's report (or its disappearance) stops
/// capture, and every later shutdown succeeds at once.
pub proof fn law_timed_out_shutdown_is_retryable(stop_requested: bool, signal: WorkerSignal)
    ensures
        shutdown_start(false, false) == ShutdownStart::SendStop,
        !stopped_after_wait(false, WorkerSignal::Timeout),
        shutdown_start(true, false) == ShutdownStart::AwaitWorker,
        !(signal is Timeout) ==> stopped_after_wait(false, signal),
        shutdown_start(stop_requested, true) == ShutdownStart::AlreadyStopped,
{
}

/// One bounded wait for the worker's completion signal.
#[derive(Debug)]
pub enum WorkerSignal {
    /// The worker reported that it finished.
    Done,
    /// No report came in time.
    Timeout,
    /// The worker went away without a report.
    Disconnected,
}

/// `Receiver::recv_timeout` on the worker's completion channel, told apart
/// by outcome. When the signal comes depends on the worker thread.
#[verifier::external_body]
fn wait_worker_done(worker_done: &Receiver<()>, timeout: Duration) -> WorkerSignal {
    match worker_done.recv_timeout(timeout) {
        Ok(()) => WorkerSignal::Done,
        Err(RecvTimeoutError::Timeout) => WorkerSignal::Timeout,
        Err(RecvTimeoutError::Disconnected) => WorkerSignal::Disconnected,
    }
}

/// How joining the capture worker went.
#[derive(Debug)]
pub enum WorkerJoin {
    /// The worker returned this result.
    Returned(Result<(), PipeWireError>),
    /// The worker panicked.
    Panicked,
}

pub open spec fn worker_panicked_message() -> Seq<char> {
    "PipeWire capture worker panicked during shutdown"@
}

/// The result of a shutdown once its worker was joined: the worker's own
/// failure is reported with its message.
pub fn joined_worker_result(joined: WorkerJoin) -> (r: Result<(), AudioCaptureError>)
    ensures
        match joined {
            WorkerJoin::Returned(Ok(())) => r is Ok,
            WorkerJoin::Returned(Err(e)) => r matches Err(x) && x.message_view()
                == pipewire_error_message(e),
            WorkerJoin::Panicked => r matches Err(x) && x.message_view() == worker_panicked_message(),
        },
{
    match joined {
        WorkerJoin::Returned(Ok(())) => Ok(()),
        WorkerJoin::Returned(Err(e)) => {
            let m = e.message();
            Err(AudioCaptureError::new(m.as_str()))
        },
        WorkerJoin::Panicked => Err(
            AudioCaptureError::new("PipeWire capture worker panicked during shutdown"),
        ),
    }
}

/// `Cell::replace`: stores `value` and returns the flag it held before.
#[verifier::external_body]
fn replace_flag(cell: &Cell<bool>, value: bool) -> bool {
    cell.replace(value)
}

/// `SyncSender::try_send`; a full or closed channel drops the event.
#[verifier::external_body]
fn offer_control_event(sender: &SyncSender<ControlEvent>, event: ControlEvent) {
    let _ = sender.try_send(event);
}

/// Whether a failure is sent when `already_sent` says if a terminal event
/// went out before.
pub open spec fn failure_event_sent(already_sent: bool) -> bool {
    !already_sent
}

/// Whether `Stopped` is sent when the stream ends.
pub open spec fn stopped_event_sent(terminal_sent: bool, stop_requested: bool) -> bool {
    !terminal_sent && !stop_requested
}

/// How many failures a worker sends when it reports `failures` of them in
/// turn, each one marking the terminal event as sent; `sent` says whether
/// one was sent before.
pub open spec fn failure_events(failures: nat, sent: bool) -> nat
    decreases failures,
{
    if failures == 0 {
        0
    } else {
        (if failure_event_sent(sent) {
            1nat
        } else {
            0nat
        }) + failure_events((failures - 1) as nat, true)
    }
}

/// The control events of one worker run that reports `failures` failures
/// and then ends, with `stop_requested` saying whether its stop was asked
/// for.
pub open spec fn run_control_events(failures: nat, stop_requested: bool) -> nat {
    failure_events(failures, false) + if stopped_event_sent(failures > 0, stop_requested) {
        1nat
    } else {
        0nat
    }
}

proof fn lemma_no_failure_after_sent(failures: nat)
    ensures
        failure_events(failures, true) == 0,
    decreases failures,
{
    if failures > 0 {
        lemma_no_failure_after_sent((failures - 1) as nat);
    }
}

/// A capture worker sends at most one control event over its whole run: the
/// first failure it reports, or else `Stopped` when its stream ends without
/// a requested stop, or nothing when a stop was requested and nothing
/// failed.
pub proof fn law_at_most_one_control_event(failures: nat, stop_requested: bool)
    ensures
        run_control_events(failures, stop_requested) <= 1,
        failures > 0 ==> failure_events(failures, false) == 1 && !stopped_event_sent(
            failures > 0,
            stop_requested,
        ),
        run_control_events(failures, stop_requested) == 0 <==> (failures == 0 && stop_requested),
{
    if failures > 0 {
        lemma_no_failure_after_sent((failures - 1) as nat);
    }
}

/// The terminal event a failure calls for: the failure itself, unless a
/// terminal event was already sent, in which case nothing more is.
pub fn terminal_failure_event(already_sent: bool, message: String) -> (r: Option<ControlEvent>)
    ensures
        r is Some <==> failure_event_sent(already_sent),
        !already_sent ==> (r matches Some(ControlEvent::Failure(m)) && m@ == message@),
{
    if already_sent {
        None
    } else {
        Some(ControlEvent::Failure(message))
    }
}

/// The terminal event owed when the worker's stream ends: `Stopped`, unless
/// a terminal failure was already sent or the stop was asked for.
pub fn end_of_run_event(terminal_sent: bool, stop_requested: bool) -> (r: Option<ControlEvent>)
    ensures
        r is Some <==> stopped_event_sent(terminal_sent, stop_requested),
        r is Some ==> r matches Some(ControlEvent::Stopped),
{
    if !terminal_sent && !stop_requested {
        Some(ControlEvent::Stopped)
    } else {
        None
    }
}

/// Sends a terminal failure unless one was already sent. A single worker
/// emits at most one terminal event, so the one-slot control channel never
/// blocks a PipeWire callback.
pub fn try_send_terminal_failure(
    control_events: &SyncSender<ControlEvent>,
    terminal_sent: &Cell<bool>,
    message: String,
) {
    let already_sent = replace_flag(terminal_sent, true);
    if let Some(event) = terminal_failure_event(already_sent, message) {
        offer_control_event(control_events, event);
    }
}

} // verus!
