//! The transcriber's side of its link to the Whisper worker thread: the
//! bounded command queue, the event queue, and what each answer from the
//! worker means. Joining the worker and pacing retries stay with the
//! program, which is told when to do either.

use std::sync::mpsc::{Receiver, RecvTimeoutError, SyncSender, TryRecvError, TrySendError};
use std::time::Duration;
use vstd::prelude::*;

use crate::audio::AudioChunk;
use crate::stt::error::{backend_error_message, WhisperBackendError};
use crate::transcription::{TranscriptUpdate, TranscriptionError};

verus! {

broadcast use vstd::string::group_string_axioms;

/// `SyncSender`'s `Clone`: another sending end of the same channel.
/// Nothing is claimed of it.
pub assume_specification<T>[ <SyncSender<T> as Clone>::clone ](s: &SyncSender<T>) -> SyncSender<T>;

/// A command for the transcription worker.
#[derive(Debug)]
pub enum WorkerCommand {
    /// Transcribe this chunk.
    Audio(AudioChunk),
    /// Flush the utterance under way and stop.
    Finish,
}

/// What the transcription worker reports.
#[derive(Debug)]
pub enum WorkerEvent {
    /// A caption update.
    Update(TranscriptUpdate),
    /// The worker failed with this message.
    Failure(String),
    /// The worker finished.
    Done,
}

/// One non-blocking look at the worker's events.
#[derive(Debug)]
pub enum EventPoll {
    Event(WorkerEvent),
    Empty,
    Disconnected,
}

/// `Receiver::try_recv` on the worker's events, told apart by outcome.
/// What is waiting depends on the worker thread.
#[verifier::external_body]
fn poll_event(events: &Receiver<WorkerEvent>) -> EventPoll {
    match events.try_recv() {
        Ok(event) => EventPoll::Event(event),
        Err(TryRecvError::Empty) => EventPoll::Empty,
        Err(TryRecvError::Disconnected) => EventPoll::Disconnected,
    }
}

/// One bounded wait for the worker's next event.
#[derive(Debug)]
pub enum EventWait {
    Event(WorkerEvent),
    Timeout,
    Disconnected,
}

/// `Receiver::recv_timeout` on the worker's events, told apart by outcome.
/// What arrives, and when, depends on the worker thread.
#[verifier::external_body]
fn wait_event(events: &Receiver<WorkerEvent>, timeout: Duration) -> EventWait {
    match events.recv_timeout(timeout) {
        Ok(event) => EventWait::Event(event),
        Err(RecvTimeoutError::Timeout) => EventWait::Timeout,
        Err(RecvTimeoutError::Disconnected) => EventWait::Disconnected,
    }
}

/// One attempt to queue a command without waiting.
#[derive(Debug)]
pub enum CommandOffer {
    /// The command is queued.
    Sent,
    /// The queue is full; the command comes back.
    Full(WorkerCommand),
    /// The worker is gone.
    Disconnected,
}

/// `SyncSender::try_send` on the command queue, told apart by outcome. A
/// full queue hands the command back. Whether there is room depends on the
/// worker thread.
#[verifier::external_body]
fn offer_command(commands: &SyncSender<WorkerCommand>, command: WorkerCommand) -> (r: CommandOffer)
    ensures
        r matches CommandOffer::Full(c) ==> c == command,
{
    match commands.try_send(command) {
        Ok(()) => CommandOffer::Sent,
        Err(TrySendError::Full(returned)) => CommandOffer::Full(returned),
        Err(TrySendError::Disconnected(_)) => CommandOffer::Disconnected,
    }
}

/// What taking the worker's waiting events came to.
#[derive(Debug)]
pub enum Drained {
    /// Everything waiting was taken; the worker runs on.
    Pending(Vec<TranscriptUpdate>),
    /// The worker finished: join it, then hand these updates on.
    Done(Vec<TranscriptUpdate>),
    /// The worker failed: join it, then report this failure.
    Failed(WhisperBackendError),
    /// The event channel broke while the worker should still run.
    Broken(WhisperBackendError),
}

pub open spec fn disconnected_message() -> Seq<char> {
    "result channel disconnected unexpectedly"@
}

pub open spec fn finished_audio_message() -> Seq<char> {
    "Whisper transcriber received audio after it was finished"@
}

pub open spec fn no_command_channel_message() -> Seq<char> {
    "Whisper worker command channel is unavailable"@
}

pub open spec fn command_disconnected_message() -> Seq<char> {
    "Whisper worker command channel disconnected unexpectedly"@
}

/// What offering a chunk once came to.
#[derive(Debug)]
pub enum AudioOffer {
    /// The chunk is queued.
    Sent,
    /// The queue is full; the chunk comes back.
    Full(AudioChunk),
    /// The chunk was refused.
    Refused(TranscriptionError),
}

/// What handing a chunk to the worker came to.
#[derive(Debug)]
pub enum Pushed {
    /// The chunk was refused.
    Refused(TranscriptionError),
    /// The chunk is queued; the events that were waiting were taken.
    Queued(Drained),
}

/// What one event means while waiting for the worker to flush.
#[derive(Debug)]
pub enum FlushStep {
    /// A caption update of the flush; keep waiting.
    Update(TranscriptUpdate),
    /// The worker finished: join it and hand the updates on.
    Done,
    /// The worker failed: join it, then report this failure.
    Failed(WhisperBackendError),
    /// Waiting ends with this error.
    Broken(WhisperBackendError),
}

/// What offering the finish command came to.
#[derive(Debug)]
pub enum FinishOffer {
    /// The finish command is queued, or there is no command queue left.
    Sent,
    /// The queue is full: wait briefly and offer again, unless the flush
    /// deadline has passed.
    Full,
    /// Offering failed with this error.
    Failed(WhisperBackendError),
}

pub open spec fn finish_disconnected_message() -> Seq<char> {
    "command channel disconnected before flush"@
}

/// What an attempt to queue the finish command came to: queued is sent; a
/// full queue may be retried until the flush deadline has passed, and is a
/// flush timeout after it; a closed queue is an error.
pub fn finish_offer_outcome(offer: CommandOffer, deadline_passed: bool, finish_timeout: Duration) -> (r:
    FinishOffer)
    ensures
        offer is Sent ==> r is Sent,
        offer is Full && !deadline_passed ==> r is Full,
        offer is Full && deadline_passed ==> r == FinishOffer::Failed(
            WhisperBackendError::FinishTimeout(finish_timeout),
        ),
        offer is Disconnected ==> (r matches FinishOffer::Failed(e) && (e matches WhisperBackendError::Worker(m)
            && m@ == finish_disconnected_message())),
{
    match offer {
        CommandOffer::Sent => FinishOffer::Sent,
        CommandOffer::Full(_) => {
            if deadline_passed {
                FinishOffer::Failed(WhisperBackendError::FinishTimeout(finish_timeout))
            } else {
                FinishOffer::Full
            }
        },
        CommandOffer::Disconnected => FinishOffer::Failed(
            WhisperBackendError::Worker("command channel disconnected before flush".to_owned()),
        ),
    }
}

/// The transcriber's side of its link to the worker.
pub struct WorkerLink {
    commands: Option<SyncSender<WorkerCommand>>,
    events: Receiver<WorkerEvent>,
    input_queue_capacity: usize,
    finish_timeout: Duration,
    finished: bool,
}

impl WorkerLink {
    /// Whether the worker reported that it finished or failed.
    pub closed spec fn finished_view(&self) -> bool {
        self.finished
    }

    /// Whether commands can still be sent.
    pub closed spec fn commands_open(&self) -> bool {
        self.commands is Some
    }

    pub closed spec fn capacity_view(&self) -> usize {
        self.input_queue_capacity
    }

    pub closed spec fn finish_timeout_view(&self) -> Duration {
        self.finish_timeout
    }

    /// A link to a worker that is running.
    pub fn new(
        commands: SyncSender<WorkerCommand>,
        events: Receiver<WorkerEvent>,
        input_queue_capacity: usize,
        finish_timeout: Duration,
    ) -> (l: Self)
        ensures
            !l.finished_view(),
            l.commands_open(),
            l.capacity_view() == input_queue_capacity,
            l.finish_timeout_view() == finish_timeout,
    {
        WorkerLink {
            commands: Some(commands),
            events,
            input_queue_capacity,
            finish_timeout,
            finished: false,
        }
    }

    /// Whether the worker reported that it finished or failed.
    pub fn finished(&self) -> (b: bool)
        ensures
            b == self.finished_view(),
    {
        self.finished
    }

    /// The capacity of the command queue.
    pub fn input_queue_capacity(&self) -> (c: usize)
        ensures
            c == self.capacity_view(),
    {
        self.input_queue_capacity
    }

    /// How long a flush may take.
    pub fn finish_timeout(&self) -> (t: Duration)
        ensures
            t == self.finish_timeout_view(),
    {
        self.finish_timeout
    }

    /// A copy of the command queue's sending end, if it is still open.
    pub fn command_sender(&self) -> (s: Option<SyncSender<WorkerCommand>>)
        ensures
            s is Some <==> self.commands_open(),
    {
        match &self.commands {
            Some(sender) => Some(sender.clone()),
            None => None,
        }
    }

    /// Closes the command queue, which tells the worker no more commands
    /// come.
    pub fn close_commands(&mut self)
        ensures
            !final(self).commands_open(),
            final(self).finished_view() == old(self).finished_view(),
            final(self).capacity_view() == old(self).capacity_view(),
            final(self).finish_timeout_view() == old(self).finish_timeout_view(),
    {
        self.commands = None;
    }

    /// What one look at the waiting events means for a collection under way:
    /// an update joins `updates` and the collection goes on (`None`); a
    /// finish or failure report marks the worker finished and ends it;
    /// nothing waiting ends it with the updates; a broken channel ends it
    /// with the updates if the worker already finished, else with an error.
    pub fn absorb_event(&mut self, poll: EventPoll, updates: &mut Vec<TranscriptUpdate>) -> (r:
        Option<Drained>)
        ensures
            final(self).commands_open() == old(self).commands_open(),
            final(self).capacity_view() == old(self).capacity_view(),
            final(self).finish_timeout_view() == old(self).finish_timeout_view(),
            match poll {
                EventPoll::Event(WorkerEvent::Update(u)) => r is None && final(updates)@ == old(
                    updates,
                )@.push(u) && final(self).finished_view() == old(self).finished_view(),
                EventPoll::Event(WorkerEvent::Failure(m)) => r == Some(
                    Drained::Failed(WhisperBackendError::Whisper(m)),
                ) && final(self).finished_view(),
                EventPoll::Event(WorkerEvent::Done) => (r matches Some(Drained::Done(v)) && v@ == old(
                    updates,
                )@) && final(self).finished_view(),
                EventPoll::Empty => (r matches Some(Drained::Pending(v)) && v@ == old(updates)@)
                    && final(self).finished_view() == old(self).finished_view(),
                EventPoll::Disconnected => final(self).finished_view() == old(self).finished_view()
                    && if old(self).finished_view() {
                    r matches Some(Drained::Pending(v)) && v@ == old(updates)@
                } else {
                    r matches Some(Drained::Broken(e)) && (e matches WhisperBackendError::Worker(m)
                        && m@ == disconnected_message())
                },
            },
    {
        match poll {
            EventPoll::Event(WorkerEvent::Update(update)) => {
                updates.push(update);
                None
            },
            EventPoll::Event(WorkerEvent::Failure(message)) => {
                self.finished = true;
                Some(Drained::Failed(WhisperBackendError::Whisper(message)))
            },
            EventPoll::Event(WorkerEvent::Done) => {
                self.finished = true;
                let mut taken = Vec::new();
                std::mem::swap(&mut taken, updates);
                Some(Drained::Done(taken))
            },
            EventPoll::Empty => {
                let mut taken = Vec::new();
                std::mem::swap(&mut taken, updates);
                Some(Drained::Pending(taken))
            },
            EventPoll::Disconnected => {
                if self.finished {
                    let mut taken = Vec::new();
                    std::mem::swap(&mut taken, updates);
                    Some(Drained::Pending(taken))
                } else {
                    Some(
                        Drained::Broken(
                            WhisperBackendError::Worker(
                                "result channel disconnected unexpectedly".to_owned(),
                            ),
                        ),
                    )
                }
            },
        }
    }

    /// Takes every event that is waiting: updates are collected; a report
    /// that the worker finished or failed ends the collection and marks it
    /// finished; a broken channel is an error unless the worker already
    /// finished. After `u64::MAX` events the collection stops as if nothing
    /// more were waiting.
    pub fn collect_available(&mut self) -> (r: Drained)
        ensures
            final(self).commands_open() == old(self).commands_open(),
            final(self).capacity_view() == old(self).capacity_view(),
            final(self).finish_timeout_view() == old(self).finish_timeout_view(),
            (r is Done || r is Failed) <==> (final(self).finished_view() && !(r is Pending)),
            r is Pending || r is Broken ==> final(self).finished_view() == old(self).finished_view(),
            r matches Drained::Failed(e) ==> e is Whisper,
            r matches Drained::Broken(e) ==> !old(self).finished_view() && (e matches WhisperBackendError::Worker(m)
                && m@ == disconnected_message()),
    {
        let mut updates: Vec<TranscriptUpdate> = Vec::new();
        let mut polls: u64 = 0;
        while polls < u64::MAX
            invariant
                self.commands_open() == old(self).commands_open(),
                self.capacity_view() == old(self).capacity_view(),
                self.finish_timeout_view() == old(self).finish_timeout_view(),
                self.finished_view() == old(self).finished_view(),
            decreases u64::MAX - polls,
        {
            polls = polls + 1;
            let poll = poll_event(&self.events);
            if let Some(drained) = self.absorb_event(poll, &mut updates) {
                return drained;
            }
        }
        Drained::Pending(updates)
    }

    /// Why audio cannot be handed to the worker at all, if it cannot: the
    /// worker finished, or there is no command queue.
    pub fn audio_refusal(&self) -> (r: Option<TranscriptionError>)
        ensures
            self.finished_view() ==> (r matches Some(e) && e.message_view()
                == finished_audio_message()),
            !self.finished_view() && !self.commands_open() ==> (r matches Some(e)
                && e.message_view() == no_command_channel_message()),
            !self.finished_view() && self.commands_open() ==> r is None,
    {
        if self.finished {
            return Some(
                TranscriptionError::new("Whisper transcriber received audio after it was finished"),
            );
        }
        match &self.commands {
            Some(_) => None,
            None => Some(TranscriptionError::new("Whisper worker command channel is unavailable")),
        }
    }

    /// Offers a chunk to the worker once, without waiting: refused as
    /// `audio_refusal` says or when the queue is closed; a full queue hands
    /// the chunk back.
    pub fn offer_audio(&mut self, chunk: AudioChunk) -> (r: AudioOffer)
        ensures
            final(self).commands_open() == old(self).commands_open(),
            final(self).finished_view() == old(self).finished_view(),
            final(self).capacity_view() == old(self).capacity_view(),
            final(self).finish_timeout_view() == old(self).finish_timeout_view(),
            old(self).finished_view() ==> (r matches AudioOffer::Refused(e) && e.message_view()
                == finished_audio_message()),
            !old(self).finished_view() && !old(self).commands_open() ==> (r matches AudioOffer::Refused(
                e,
            ) && e.message_view() == no_command_channel_message()),
            !old(self).finished_view() && old(self).commands_open() ==> (r is Sent || r is Full || (
            r matches AudioOffer::Refused(e) && e.message_view() == command_disconnected_message())),
            r matches AudioOffer::Full(c) ==> c == chunk,
    {
        if let Some(refusal) = self.audio_refusal() {
            return AudioOffer::Refused(refusal);
        }
        let offer = match &self.commands {
            Some(commands) => offer_command(commands, WorkerCommand::Audio(chunk)),
            None => {
                return AudioOffer::Refused(
                    TranscriptionError::new("Whisper worker command channel is unavailable"),
                );
            },
        };
        match offer {
            CommandOffer::Sent => AudioOffer::Sent,
            CommandOffer::Full(command) => match command {
                WorkerCommand::Audio(returned) => AudioOffer::Full(returned),
                WorkerCommand::Finish => {
                    // The queue hands back the chunk that was offered.
                    assert(false);
                    AudioOffer::Sent
                },
            },
            CommandOffer::Disconnected => AudioOffer::Refused(
                TranscriptionError::new("Whisper worker command channel disconnected unexpectedly"),
            ),
        }
    }

    /// The refusal of audio that found the queue full until its deadline.
    pub fn input_timed_out(&self, timeout: Duration) -> (e: TranscriptionError)
        ensures
            e.message_view() == backend_error_message(
                WhisperBackendError::InputQueueTimeout { capacity: self.capacity_view(), timeout },
            ),
    {
        let m = WhisperBackendError::InputQueueTimeout {
            capacity: self.input_queue_capacity,
            timeout,
        }.message();
        TranscriptionError::new(m.as_str())
    }

    /// Hands a chunk to the worker without waiting: refused once the worker
    /// finished, without a command queue, or when the queue is full or
    /// closed; otherwise the waiting events are taken.
    pub fn push_audio(&mut self, chunk: AudioChunk) -> (r: Pushed)
        ensures
            final(self).commands_open() == old(self).commands_open(),
            final(self).capacity_view() == old(self).capacity_view(),
            old(self).finished_view() ==> (r matches Pushed::Refused(e) && e.message_view()
                == finished_audio_message()),
            !old(self).finished_view() && !old(self).commands_open() ==> (r matches Pushed::Refused(
                e,
            ) && e.message_view() == no_command_channel_message()),
            r matches Pushed::Refused(e) ==> final(self).finished_view() == old(self).finished_view()
                && (e.message_view() == finished_audio_message() || e.message_view()
                == no_command_channel_message() || e.message_view() == backend_error_message(
                WhisperBackendError::InputQueueFull(old(self).capacity_view()),
            ) || e.message_view() == command_disconnected_message()),
            r is Queued ==> !old(self).finished_view() && old(self).commands_open(),
    {
        match self.offer_audio(chunk) {
            AudioOffer::Sent => Pushed::Queued(self.collect_available()),
            AudioOffer::Full(_) => {
                let m = WhisperBackendError::InputQueueFull(self.input_queue_capacity).message();
                Pushed::Refused(TranscriptionError::new(m.as_str()))
            },
            AudioOffer::Refused(e) => Pushed::Refused(e),
        }
    }

    /// Offers the finish command once: without a command queue there is
    /// nothing to send; a full queue may be retried until
    /// `deadline_passed`, and then the flush has timed out.
    pub fn offer_finish(&mut self, deadline_passed: bool) -> (r: FinishOffer)
        ensures
            final(self).commands_open() == old(self).commands_open(),
            final(self).finished_view() == old(self).finished_view(),
            final(self).finish_timeout_view() == old(self).finish_timeout_view(),
            !old(self).commands_open() ==> r is Sent,
            r is Full ==> !deadline_passed,
            r matches FinishOffer::Failed(e) ==> e == WhisperBackendError::FinishTimeout(
                old(self).finish_timeout_view(),
            ) || (e matches WhisperBackendError::Worker(m) && m@
                == "command channel disconnected before flush"@),
    {
        let offer = match &self.commands {
            Some(commands) => offer_command(commands, WorkerCommand::Finish),
            None => {
                return FinishOffer::Sent;
            },
        };
        finish_offer_outcome(offer, deadline_passed, self.finish_timeout)
    }

    /// Waits at most `remaining` for the next event of a flush: updates are
    /// kept, a finish or failure report ends the flush and marks the worker
    /// finished; no event in time, or a broken channel, ends it with an
    /// error.
    pub fn next_flush_step(&mut self, remaining: Duration) -> (r: FlushStep)
        ensures
            final(self).commands_open() == old(self).commands_open(),
            final(self).finish_timeout_view() == old(self).finish_timeout_view(),
            (r is Done || r is Failed) ==> final(self).finished_view(),
            (r is Update || r is Broken) ==> final(self).finished_view() == old(
                self,
            ).finished_view(),
            r matches FlushStep::Failed(e) ==> e is Whisper,
            r matches FlushStep::Broken(e) ==> e == WhisperBackendError::FinishTimeout(
                old(self).finish_timeout_view(),
            ) || (e matches WhisperBackendError::Worker(m) && m@
                == "result channel disconnected before flush completed"@),
    {
        match wait_event(&self.events, remaining) {
            EventWait::Event(WorkerEvent::Update(update)) => FlushStep::Update(update),
            EventWait::Event(WorkerEvent::Failure(message)) => {
                self.finished = true;
                FlushStep::Failed(WhisperBackendError::Whisper(message))
            },
            EventWait::Event(WorkerEvent::Done) => {
                self.finished = true;
                FlushStep::Done
            },
            EventWait::Timeout => FlushStep::Broken(
                WhisperBackendError::FinishTimeout(self.finish_timeout),
            ),
            EventWait::Disconnected => FlushStep::Broken(
                WhisperBackendError::Worker(
                    "result channel disconnected before flush completed".to_owned(),
                ),
            ),
        }
    }

    /// The flush deadline passed before the worker finished.
    pub fn flush_timed_out(&self) -> (e: WhisperBackendError)
        ensures
            e == WhisperBackendError::FinishTimeout(self.finish_timeout_view()),
    {
        WhisperBackendError::FinishTimeout(self.finish_timeout)
    }
}

} // verus!
