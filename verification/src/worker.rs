//! The decode worker: which command it serves, what it reports, and what it
//! does next. Opening, decoding and sleeping are done by the thread that runs it.
use vstd::prelude::*;
use crate::events::SessionEvent;
use crate::generations::{next_count, OpenGeneration, OperationId, SeekGeneration};
use crate::text::{contains_seq, contains_text, same_text};
use crate::time::Duration;

verus! {

/// A seek that a worker is asked for.
#[derive(Clone, Copy, Debug, PartialEq, Eq, Structural)]
pub struct SeekRequest {
    pub target: Duration,
    pub seek_gen: SeekGeneration,
    pub op_id: OperationId,
}

/// A command to a worker.
#[derive(Clone, Copy, Debug, PartialEq, Eq, Structural)]
pub enum DecodeCommand {
    Shutdown,
    Seek(SeekRequest),
}

/// The mailbox of a worker. Only the latest seek is kept, and a shutdown is
/// never forgotten.
#[derive(Clone, Copy, Debug, PartialEq, Eq, Structural)]
pub struct DecodeControl {
    /// Counts the commands that were sent.
    pub seq: u64,
    pub pending: Option<SeekRequest>,
    pub shutdown: bool,
}

impl DecodeControl {
    pub fn new() -> (r: Self)
        ensures
            r == (DecodeControl { seq: 0, pending: None, shutdown: false }),
    {
        DecodeControl { seq: 0, pending: None, shutdown: false }
    }

    /// The mailbox after a seek was sent.
    pub open spec fn with_seek(self, request: SeekRequest) -> Self {
        DecodeControl { seq: next_count(self.seq), pending: Some(request), ..self }
    }

    /// Asks for a seek; an earlier one that was not taken yet is dropped.
    pub fn send_seek(&mut self, target: Duration, seek_gen: SeekGeneration, op_id: OperationId)
        ensures
            *final(self) == old(self).with_seek(SeekRequest { target, seek_gen, op_id }),
    {
        self.seq = self.seq.wrapping_add(1);
        self.pending = Some(SeekRequest { target, seek_gen, op_id });
    }

    /// Asks the worker to leave.
    pub fn send_shutdown(&mut self)
        ensures
            *final(self) == (DecodeControl {
                seq: next_count(old(self).seq),
                shutdown: true,
                ..*old(self)
            }),
    {
        self.seq = self.seq.wrapping_add(1);
        self.shutdown = true;
    }

    pub fn is_shutdown(&self) -> (r: bool)
        ensures
            r == self.shutdown,
    {
        self.shutdown
    }

    /// What the worker finds in the mailbox.
    pub open spec fn next_command(self) -> Option<DecodeCommand> {
        if self.shutdown {
            Some(DecodeCommand::Shutdown)
        } else {
            match self.pending {
                Some(request) => Some(DecodeCommand::Seek(request)),
                None => None,
            }
        }
    }

    /// Takes the next command with its number, if there is one.
    pub fn take_next(&mut self) -> (r: Option<(DecodeCommand, u64)>)
        ensures
            match old(self).next_command() {
                Some(command) => r == Some((command, old(self).seq)),
                None => r is None,
            },
            *final(self) == (DecodeControl {
                pending: if old(self).shutdown {
                    old(self).pending
                } else {
                    None
                },
                ..*old(self)
            }),
    {
        if self.shutdown {
            return Some((DecodeCommand::Shutdown, self.seq));
        }
        match self.pending {
            Some(request) => {
                self.pending = None;
                Some((DecodeCommand::Seek(request), self.seq))
            },
            None => None,
        }
    }
}

/// How an attempt to open a file ended.
#[derive(Clone, Debug, PartialEq, Eq)]
pub enum OpenOutcome {
    Opened,
    Cancelled,
    Failed(String),
}

/// How decoding up to the end ended.
#[derive(Clone, Debug, PartialEq, Eq)]
pub enum RunOutcome {
    Completed,
    Cancelled,
    Failed(String),
}

/// What the worker does next.
#[derive(Clone, Copy, Debug, PartialEq, Eq, Structural)]
pub enum WorkerStep {
    /// Open the file at this position.
    Open(Option<Duration>),
    /// Decode to the end.
    Run,
    /// Move the open file to this position.
    Seek(Duration),
    /// Wait for a command.
    AwaitCommand,
    /// Leave.
    Exit,
}

/// What a sender does that found the channel full.
#[derive(Clone, Copy, Debug, PartialEq, Eq, Structural)]
pub enum SendStep {
    /// Sleep this many milliseconds and try again.
    Retry(u64),
    /// Drop the report: nobody waits for it any more.
    GiveUp,
}

/// The error text of a report that was given up.
pub open spec fn cancelled_text() -> Seq<char> {
    "fastplay operation cancelled"@
}

/// Whether an error tells of a lost graphics device.
pub open spec fn tells_device_lost(error: Seq<char>, device_removed: bool) -> bool {
    device_removed || contains_seq(error, "device removed"@)
}

/// A decode worker and the command that it serves.
#[derive(Clone, Copy, Debug, PartialEq, Eq, Structural)]
pub struct DecodeWorker {
    pub open_gen: OpenGeneration,
    pub seek_gen: SeekGeneration,
    pub op_id: OperationId,
    /// The number of the command that is being served.
    pub serving: u64,
    pub start_position: Option<Duration>,
    /// Whether the file is open.
    pub opened: bool,
}

impl DecodeWorker {
    pub fn new(
        open_gen: OpenGeneration,
        seek_gen: SeekGeneration,
        op_id: OperationId,
        start_position: Option<Duration>,
    ) -> (r: (Self, WorkerStep))
        ensures
            r.0 == (DecodeWorker {
                open_gen,
                seek_gen,
                op_id,
                serving: 0,
                start_position,
                opened: false,
            }),
            r.1 == WorkerStep::Open(start_position),
    {
        (
            DecodeWorker {
                open_gen,
                seek_gen,
                op_id,
                serving: 0,
                start_position,
                opened: false,
            },
            WorkerStep::Open(start_position),
        )
    }

    /// Whether a newer command is waiting.
    pub open spec fn superseded(self, control: DecodeControl) -> bool {
        control.seq != self.serving || control.shutdown
    }

    /// Whether to stop the work at hand: a newer command is waiting.
    pub fn cancelled(&self, control: &DecodeControl) -> (r: bool)
        ensures
            r == self.superseded(*control),
    {
        control.seq != self.serving || control.shutdown
    }

    /// What to do about a full channel: poll fast at first, slowly once the
    /// receiver has not taken anything for a while, and give up as soon as a
    /// newer command is waiting.
    pub fn on_channel_full(&self, full_retries: &mut u32, control: &DecodeControl) -> (r: SendStep)
        ensures
            r == (if self.superseded(*control) {
                SendStep::GiveUp
            } else if *old(full_retries) < 64 {
                SendStep::Retry(1)
            } else {
                SendStep::Retry(10)
            }),
            *final(full_retries) == (if self.superseded(*control) || *old(full_retries)
                == u32::MAX {
                *old(full_retries)
            } else {
                (*old(full_retries) + 1) as u32
            }),
    {
        if self.cancelled(control) {
            return SendStep::GiveUp;
        }
        let sleep_ms: u64 = if *full_retries < 64 {
            1
        } else {
            10
        };
        *full_retries = full_retries.saturating_add(1);
        SendStep::Retry(sleep_ms)
    }

    /// The report on a failure: a lost device is told apart; while the file is
    /// first opened from its start the open failed, otherwise playback did.
    pub open spec fn failure(self, error: String, device_removed: bool) -> SessionEvent {
        if tells_device_lost(error@, device_removed) {
            SessionEvent::DeviceLost {
                open_gen: self.open_gen,
                seek_gen: self.seek_gen,
                op_id: self.op_id,
            }
        } else if !self.opened && self.start_position is None {
            SessionEvent::OpenFailed { open_gen: self.open_gen, op_id: self.op_id, error }
        } else {
            SessionEvent::PlaybackFailed {
                open_gen: self.open_gen,
                seek_gen: self.seek_gen,
                op_id: self.op_id,
                error,
            }
        }
    }

    /// The report on a failure.
    pub fn failure_event(&self, error: String, device_removed: bool) -> (r: SessionEvent)
        ensures
            r == self.failure(error, device_removed),
    {
        if device_removed || contains_text(error.as_str(), "device removed") {
            SessionEvent::DeviceLost {
                open_gen: self.open_gen,
                seek_gen: self.seek_gen,
                op_id: self.op_id,
            }
        } else if !self.opened && self.start_position.is_none() {
            SessionEvent::OpenFailed { open_gen: self.open_gen, op_id: self.op_id, error }
        } else {
            SessionEvent::PlaybackFailed {
                open_gen: self.open_gen,
                seek_gen: self.seek_gen,
                op_id: self.op_id,
                error,
            }
        }
    }

    /// After an attempt to open the file. A cancelled attempt is made again for
    /// the command that cancelled it; a failed one ends the worker.
    pub fn open_finished(
        &mut self,
        outcome: OpenOutcome,
        device_removed: bool,
        control: &DecodeControl,
    ) -> (r: (Option<SessionEvent>, WorkerStep))
        requires
            !old(self).opened,
        ensures
            *final(self) == (DecodeWorker { opened: outcome is Opened, ..*old(self) }),
            match outcome {
                OpenOutcome::Opened => r == (None::<SessionEvent>, WorkerStep::Run),
                OpenOutcome::Cancelled => r == (
                    None::<SessionEvent>,
                    if control.shutdown {
                        WorkerStep::Exit
                    } else {
                        WorkerStep::AwaitCommand
                    },
                ),
                OpenOutcome::Failed(error) => r == (
                    if control.shutdown {
                        None
                    } else {
                        Some(old(self).failure(error, device_removed))
                    },
                    WorkerStep::Exit,
                ),
            },
    {
        match outcome {
            OpenOutcome::Opened => {
                self.opened = true;
                (None, WorkerStep::Run)
            },
            OpenOutcome::Cancelled => {
                if control.shutdown {
                    (None, WorkerStep::Exit)
                } else {
                    (None, WorkerStep::AwaitCommand)
                }
            },
            OpenOutcome::Failed(error) => {
                if control.shutdown {
                    (None, WorkerStep::Exit)
                } else {
                    (Some(self.failure_event(error, device_removed)), WorkerStep::Exit)
                }
            },
        }
    }

    /// The reports after decoding up to the end.
    pub open spec fn run_reports(
        self,
        outcome: RunOutcome,
        had_audio: bool,
        device_removed: bool,
        control: DecodeControl,
    ) -> Seq<SessionEvent> {
        let video_ended = SessionEvent::VideoStreamEnded {
            open_gen: self.open_gen,
            seek_gen: self.seek_gen,
            op_id: self.op_id,
        };
        let audio_ended = SessionEvent::AudioStreamEnded {
            open_gen: self.open_gen,
            seek_gen: self.seek_gen,
            op_id: self.op_id,
        };
        if control.shutdown {
            Seq::empty()
        } else {
            match outcome {
                RunOutcome::Completed => if control.seq != self.serving {
                    Seq::empty()
                } else if had_audio {
                    seq![video_ended, audio_ended]
                } else {
                    seq![video_ended]
                },
                RunOutcome::Cancelled => Seq::empty(),
                RunOutcome::Failed(error) => if error@ == cancelled_text() {
                    Seq::empty()
                } else {
                    seq![self.failure(error, device_removed)]
                },
            }
        }
    }

    /// After decoding up to the end. The end is reported unless a newer command
    /// has come; a failure is reported unless it is a given up report; then the
    /// worker waits for a command.
    pub fn run_finished(
        &self,
        outcome: RunOutcome,
        had_audio: bool,
        device_removed: bool,
        control: &DecodeControl,
    ) -> (r: (Vec<SessionEvent>, WorkerStep))
        requires
            self.opened,
        ensures
            r.0@ == self.run_reports(outcome, had_audio, device_removed, *control),
            r.1 == (if control.shutdown {
                WorkerStep::Exit
            } else {
                WorkerStep::AwaitCommand
            }),
    {
        let mut events: Vec<SessionEvent> = Vec::new();
        if control.shutdown {
            return (events, WorkerStep::Exit);
        }
        match outcome {
            RunOutcome::Completed => {
                if control.seq == self.serving {
                    events.push(
                        SessionEvent::VideoStreamEnded {
                            open_gen: self.open_gen,
                            seek_gen: self.seek_gen,
                            op_id: self.op_id,
                        },
                    );
                    if had_audio {
                        events.push(
                            SessionEvent::AudioStreamEnded {
                                open_gen: self.open_gen,
                                seek_gen: self.seek_gen,
                                op_id: self.op_id,
                            },
                        );
                    }
                }
            },
            RunOutcome::Cancelled => {},
            RunOutcome::Failed(error) => {
                if !same_text(error.as_str(), "fastplay operation cancelled") {
                    events.push(self.failure_event(error, device_removed));
                }
            },
        }
        proof {
            assert(events@ =~= self.run_reports(outcome, had_audio, device_removed, *control));
        }
        (events, WorkerStep::AwaitCommand)
    }

    /// The worker that serves a seek.
    pub open spec fn for_seek(self, request: SeekRequest, seq: u64) -> Self {
        DecodeWorker {
            seek_gen: request.seek_gen,
            op_id: request.op_id,
            serving: seq,
            start_position: Some(request.target),
            ..self
        }
    }

    /// Takes up a command. A seek moves the open file, or opens the file at the
    /// target if an earlier attempt was cancelled.
    pub fn command_received(&mut self, command: DecodeCommand, seq: u64) -> (r: WorkerStep)
        ensures
            match command {
                DecodeCommand::Shutdown => r == WorkerStep::Exit && *final(self) == *old(self),
                DecodeCommand::Seek(request) => {
                    &&& *final(self) == old(self).for_seek(request, seq)
                    &&& r == (if old(self).opened {
                        WorkerStep::Seek(request.target)
                    } else {
                        WorkerStep::Open(Some(request.target))
                    })
                },
            },
    {
        match command {
            DecodeCommand::Shutdown => WorkerStep::Exit,
            DecodeCommand::Seek(request) => {
                self.serving = seq;
                self.seek_gen = request.seek_gen;
                self.op_id = request.op_id;
                self.start_position = Some(request.target);
                if self.opened {
                    WorkerStep::Seek(request.target)
                } else {
                    WorkerStep::Open(Some(request.target))
                }
            },
        }
    }

    /// After moving the open file: a failure is reported, and decoding goes on
    /// either way.
    pub fn seek_finished(&self, outcome: Result<(), String>, device_removed: bool) -> (r: (
        Option<SessionEvent>,
        WorkerStep,
    ))
        requires
            self.opened,
        ensures
            r == (
                match outcome {
                    Ok(_) => None,
                    Err(error) => Some(self.failure(error, device_removed)),
                },
                WorkerStep::Run,
            ),
    {
        match outcome {
            Ok(_) => (None, WorkerStep::Run),
            Err(error) => (Some(self.failure_event(error, device_removed)), WorkerStep::Run),
        }
    }
}

/// Of two seeks sent in a row the worker finds the later one alone.
pub proof fn latest_seek_wins(c: DecodeControl, first: SeekRequest, second: SeekRequest)
    ensures
        c.with_seek(first).with_seek(second).pending == Some(second),
        !c.shutdown ==> c.with_seek(first).with_seek(second).next_command() == Some(
            DecodeCommand::Seek(second),
        ),
{
}

/// A seek that is sent cancels the work at hand, and once it is taken up the
/// new work is not cancelled by it.
pub proof fn seek_cancels_until_taken(w: DecodeWorker, c: DecodeControl, request: SeekRequest)
    requires
        w.serving == c.seq,
        !c.shutdown,
    ensures
        !w.superseded(c),
        w.superseded(c.with_seek(request)),
        !w.for_seek(request, c.with_seek(request).seq).superseded(c.with_seek(request)),
{
}

/// Whatever a worker reports on a failure or an end carries the stamps of the
/// command that it serves.
pub proof fn reports_carry_the_served_stamps(
    w: DecodeWorker,
    outcome: RunOutcome,
    had_audio: bool,
    device_removed: bool,
    control: DecodeControl,
)
    requires
        w.opened,
    ensures
        forall|k: int|
            0 <= k < w.run_reports(outcome, had_audio, device_removed, control).len() ==> {
                let e = #[trigger] w.run_reports(outcome, had_audio, device_removed, control)[k];
                e.open_stamp() == w.open_gen && e.seek_stamp() == Some(w.seek_gen) && e.operation()
                    == w.op_id
            },
{
}

/// A run that a newer command has overtaken does not report the end.
pub proof fn overtaken_run_reports_no_end(
    w: DecodeWorker,
    had_audio: bool,
    device_removed: bool,
    control: DecodeControl,
)
    requires
        w.superseded(control),
    ensures
        w.run_reports(RunOutcome::Completed, had_audio, device_removed, control).len() == 0,
{
}

/// A worker that is asked to leave finds nothing else in its mailbox; otherwise it
/// finds the seek that waits, if one does. A seek does not undo the request to leave.
pub proof fn shutdown_comes_first(c: DecodeControl, request: SeekRequest)
    ensures
        c.shutdown ==> c.next_command() == Some(DecodeCommand::Shutdown),
        !c.shutdown && c.pending == Some(request) ==> c.next_command() == Some(
            DecodeCommand::Seek(request),
        ),
        !c.shutdown && c.pending is None ==> c.next_command() is None,
        c.with_seek(request).shutdown == c.shutdown,
        c.with_seek(request).seq != c.seq,
{
}

/// Work is given up for whatever was sent after the command that is served, and for a
/// request to leave, and for nothing else.
pub proof fn newer_command_stops_the_work(w: DecodeWorker, c: DecodeControl)
    ensures
        w.superseded(c) <==> c.shutdown || c.seq != w.serving,
{
}

/// A worker that takes up a seek serves it with its stamps and from its target; the
/// file that is open stays open.
pub proof fn seek_is_served_with_its_stamps(w: DecodeWorker, request: SeekRequest, seq: u64)
    ensures
        ({
            let s = w.for_seek(request, seq);
            &&& s.seek_gen == request.seek_gen
            &&& s.op_id == request.op_id
            &&& s.start_position == Some(request.target)
            &&& s.serving == seq
            &&& s.open_gen == w.open_gen
            &&& s.opened == w.opened
        }),
{
}

/// A run that came to the end reports the end of the pictures and, if there was sound,
/// then that of the sound. One that was given up reports nothing.
pub proof fn completed_run_reports_the_ends(
    w: DecodeWorker,
    had_audio: bool,
    device_removed: bool,
    control: DecodeControl,
)
    requires
        !control.shutdown,
        control.seq == w.serving,
    ensures
        ({
            let r = w.run_reports(RunOutcome::Completed, had_audio, device_removed, control);
            &&& r.len() == (if had_audio {
                2int
            } else {
                1int
            })
            &&& r[0] is VideoStreamEnded
            &&& (had_audio ==> r[1] is AudioStreamEnded)
        }),
        w.run_reports(RunOutcome::Cancelled, had_audio, device_removed, control).len() == 0,
{
}

/// A run that failed reports that once: as a lost device where the device was removed,
/// else as failed playback with the reason. A report that was given up is no failure.
pub proof fn failed_run_reports_its_reason(
    w: DecodeWorker,
    error: String,
    had_audio: bool,
    device_removed: bool,
    control: DecodeControl,
)
    requires
        !control.shutdown,
        w.opened,
    ensures
        ({
            let r = w.run_reports(
                RunOutcome::Failed(error),
                had_audio,
                device_removed,
                control,
            );
            let given_up = error@ == "fastplay operation cancelled"@;
            let lost = device_removed || contains_seq(error@, "device removed"@);
            &&& (given_up ==> r.len() == 0)
            &&& (!given_up ==> r.len() == 1)
            &&& (!given_up && lost ==> r[0] is DeviceLost)
            &&& (!given_up && !lost ==> (r[0] matches SessionEvent::PlaybackFailed {
                error: told,
                ..
            } && told == error))
        }),
{
}

/// While a file is first opened from its start, a failure is one to open it; once it is
/// open, or at another position, playback failed.
pub proof fn failure_to_open_is_told_apart(w: DecodeWorker, error: String)
    requires
        !contains_seq(error@, "device removed"@),
    ensures
        !w.opened && w.start_position is None ==> (w.failure(
            error,
            false,
        ) matches SessionEvent::OpenFailed { open_gen, op_id, error: told } && open_gen
            == w.open_gen && op_id == w.op_id && told == error),
        w.opened || w.start_position is Some ==> (w.failure(
            error,
            false,
        ) matches SessionEvent::PlaybackFailed { open_gen, seek_gen, op_id, error: told }
            && open_gen == w.open_gen && seek_gen == w.seek_gen && op_id == w.op_id && told
            == error),
        w.failure(error, true) is DeviceLost,
{
}

} // verus!
