use vstd::prelude::*;
use crate::StreamFormat;
use crate::errors::Error;
use crate::encoder::{EncodedAudio, encode_capture, encoded_audio_spec};
use crate::wav::encodable;

verus! {

// The capture session: the shared state that the controller, the capture
// loop and the watchdog act on, together with the decision each of them
// takes. The surrounding runtime guards a session with a lock, performs the
// platform polls and the sleeps, and feeds every outcome through exactly
// these transitions, so the cancellation hand-off and the buffer lifecycle
// are verified here while the hardware calls stay outside.

/// One capture session's state.
///
/// `cancel_armed` models the single-use cancellation slot: it is set when
/// a capture loop is spawned and cleared by whichever of the stop call and
/// the watchdog takes it first; only the taker delivers the signal.
/// `running` and `stream_halted` track the capture loop's progress from
/// `Running` to its terminal `Stopped` state, in which the hardware stream
/// has been told to halt.
pub struct CaptureSession {
    /// Captured samples as single-precision bit patterns, in arrival order.
    pub samples: Vec<u32>,
    /// The format negotiated with the mixer, recorded before capture starts.
    pub format: StreamFormat,
    /// Whether the cancellation slot still holds its sender.
    pub cancel_armed: bool,
    /// Whether a capture loop is active.
    pub running: bool,
    /// Whether the capture loop has halted the hardware stream.
    pub stream_halted: bool,
}

impl CaptureSession {
    /// The session invariant: an armed cancellation slot always belongs to
    /// an active capture loop.
    pub open spec fn wf(&self) -> bool {
        self.cancel_armed ==> self.running
    }

    /// A fresh idle session: no samples, nothing negotiated, no loop.
    pub fn new() -> (s: Self)
        ensures
            s.wf(),
            s.samples@ =~= Seq::<u32>::empty(),
            s.format.sample_rate == 0,
            s.format.channels == 0,
            !s.cancel_armed,
            !s.running,
            !s.stream_halted,
    {
        CaptureSession {
            samples: Vec::new(),
            format: StreamFormat { sample_rate: 0, channels: 0 },
            cancel_armed: false,
            running: false,
            stream_halted: false,
        }
    }

    /// Discard the previous session's samples. The controller does this
    /// first on every start, before anything can fail.
    pub fn reset(&mut self)
        ensures
            final(self).samples@ =~= Seq::<u32>::empty(),
            final(self).format == old(self).format,
            final(self).cancel_armed == old(self).cancel_armed,
            final(self).running == old(self).running,
            final(self).stream_halted == old(self).stream_halted,
            old(self).wf() ==> final(self).wf(),
    {
        self.samples = Vec::new();
    }

    /// Record the mixer's native format. The controller does this as soon
    /// as negotiation succeeds, before capture starts, because the encoder
    /// must see exactly these values at encode time.
    pub fn record_format(&mut self, sample_rate: u32, channels: u16)
        ensures
            final(self).format == (StreamFormat { sample_rate, channels }),
            final(self).samples@ == old(self).samples@,
            final(self).cancel_armed == old(self).cancel_armed,
            final(self).running == old(self).running,
            final(self).stream_halted == old(self).stream_halted,
            old(self).wf() ==> final(self).wf(),
    {
        self.format = StreamFormat { sample_rate, channels };
    }

    /// Arm the session as the capture loop is spawned: a fresh cancellation
    /// sender occupies the slot and the loop enters its `Running` state.
    /// The controller calls this only after every fallible acquisition step
    /// has succeeded, so a failed start leaves the slot empty. There is
    /// only the one slot: a second start before a stop overwrites it and
    /// orphans the earlier loop, which then runs until its own watchdog
    /// fires — the deliberate single-slot design.
    pub fn begin_capture(&mut self)
        ensures
            *final(self) == (CaptureSession {
                cancel_armed: true,
                running: true,
                stream_halted: false,
                ..*old(self)
            }),
            final(self).wf(),
    {
        self.cancel_armed = true;
        self.running = true;
        self.stream_halted = false;
    }

    /// The capture loop drained one poll's worth of frames. A buffer the
    /// platform flags as silent is released without recording anything —
    /// silence is dropped, not stored as zeros; otherwise the frames are
    /// appended verbatim, in arrival order.
    pub fn on_frames(&mut self, frame: &Vec<u32>, silent: bool)
        requires
            old(self).running,
        ensures
            final(self).samples@ == buffer_after_poll(old(self).samples@, frame@, silent),
            final(self).format == old(self).format,
            final(self).cancel_armed == old(self).cancel_armed,
            final(self).running == old(self).running,
            final(self).stream_halted == old(self).stream_halted,
            old(self).wf() ==> final(self).wf(),
    {
        if !silent {
            let mut i: usize = 0;
            while i < frame.len()
                invariant
                    i <= frame@.len(),
                    self.samples@ == old(self).samples@ + frame@.take(i as int),
                    self.format == old(self).format,
                    self.cancel_armed == old(self).cancel_armed,
                    self.running == old(self).running,
                    self.stream_halted == old(self).stream_halted,
                decreases frame@.len() - i,
            {
                self.samples.push(frame[i]);
                proof {
                    assert(frame@.take(i + 1int) =~= frame@.take(i as int).push(frame@[i as int]));
                    assert(self.samples@ =~= old(self).samples@ + frame@.take(i + 1int));
                }
                i = i + 1;
            }
            proof {
                assert(frame@.take(frame@.len() as int) =~= frame@);
            }
        }
    }

    /// Atomically take the cancellation sender, if it is still there.
    /// Both the stop call and the watchdog go through this; the session
    /// after the take is `cancel_taken_spec`, and the caller won — and
    /// must deliver the one cancellation signal — exactly when
    /// `cancel_take_wins_spec` holds of the session before it.
    pub fn take_cancel(&mut self) -> (won: bool)
        ensures
            won == cancel_take_wins_spec(*old(self)),
            *final(self) == cancel_taken_spec(*old(self)),
            old(self).wf() ==> final(self).wf(),
    {
        let won = self.cancel_armed;
        self.cancel_armed = false;
        won
    }

    /// The capture loop observed the cancellation signal: it leaves
    /// `Running`, halts the hardware stream (best effort) and exits.
    /// The signal only exists once the slot has been taken.
    pub fn on_cancelled(&mut self)
        requires
            old(self).running,
            !old(self).cancel_armed,
        ensures
            *final(self) == cancelled_spec(*old(self)),
            final(self).wf(),
    {
        self.running = false;
        self.stream_halted = true;
    }

    /// Package the captured buffer once the loop has quiesced. Fails with
    /// the `NoData` error exactly when no frames were ever recorded —
    /// a session of nothing but silent buffers ends here; otherwise it
    /// hands the buffer and the recorded format to the encoder, whose
    /// failure is an encode failure, never data loss.
    pub fn finish(&self) -> (r: Result<EncodedAudio, Error>)
        ensures
            self.samples@.len() == 0 <==> r == Result::<EncodedAudio, Error>::Err(Error::NoData),
            r is Ok <==> self.samples@.len() > 0 && encodable(self.format, self.samples@.len()),
            r is Ok ==> r->Ok_0@ == encoded_audio_spec(self.samples@, self.format),
            self.samples@.len() > 0 && !encodable(self.format, self.samples@.len()) ==> r is Err
                && r->Err_0 is EncodeFailure,
    {
        if self.samples.len() == 0 {
            return Err(Error::NoData);
        }
        encode_capture(&self.samples, &self.format)
    }
}

/// The buffer after the capture loop handles one poll: a silent buffer is
/// dropped, a live one is appended whole.
pub open spec fn buffer_after_poll(samples: Seq<u32>, frame: Seq<u32>, silent: bool) -> Seq<u32> {
    if silent {
        samples
    } else {
        samples + frame
    }
}

/// The buffer after the capture loop handles a whole series of polls,
/// oldest first.
pub open spec fn buffer_after_polls(samples: Seq<u32>, polls: Seq<(Seq<u32>, bool)>) -> Seq<u32>
    decreases polls.len(),
{
    if polls.len() == 0 {
        samples
    } else {
        buffer_after_poll(buffer_after_polls(samples, polls.drop_last()), polls.last().0, polls.last().1)
    }
}

/// The frames a series of polls records: exactly the non-silent ones,
/// concatenated in arrival order.
pub open spec fn recorded_of_polls(polls: Seq<(Seq<u32>, bool)>) -> Seq<u32>
    decreases polls.len(),
{
    if polls.len() == 0 {
        Seq::empty()
    } else {
        recorded_of_polls(polls.drop_last()) + (if polls.last().1 {
            Seq::<u32>::empty()
        } else {
            polls.last().0
        })
    }
}

/// Law: appends keep arrival order, and silence leaves no trace. Whatever
/// series of polls the capture loop handles, the buffer ends as what it
/// began with followed by exactly the non-silent frames, in the order the
/// hardware produced them — a window of nothing but silent buffers adds
/// nothing at all.
pub proof fn lemma_polls_record_in_order(samples: Seq<u32>, polls: Seq<(Seq<u32>, bool)>)
    ensures
        buffer_after_polls(samples, polls) == samples + recorded_of_polls(polls),
    decreases polls.len(),
{
    if polls.len() == 0 {
        assert(buffer_after_polls(samples, polls) =~= samples + recorded_of_polls(polls));
    } else {
        lemma_polls_record_in_order(samples, polls.drop_last());
        assert(buffer_after_polls(samples, polls) =~= samples + recorded_of_polls(polls));
    }
}

/// Law: silence throughout the window leaves the buffer exactly as it
/// began — a whole capture of silent-flagged buffers records nothing, and
/// a buffer that started empty stays empty.
pub proof fn lemma_all_silent_records_nothing(samples: Seq<u32>, polls: Seq<(Seq<u32>, bool)>)
    requires
        forall|i: int| 0 <= i < polls.len() ==> (#[trigger] polls[i]).1,
    ensures
        buffer_after_polls(samples, polls) == samples,
    decreases polls.len(),
{
    if polls.len() > 0 {
        lemma_all_silent_records_nothing(samples, polls.drop_last());
    }
}

/// What the cancellation slot hands whoever tries to take it: the sender,
/// exactly if it is still there.
pub open spec fn cancel_take_wins_spec(s: CaptureSession) -> bool {
    s.cancel_armed
}

/// The session after the cancellation slot is taken: the slot is empty,
/// everything else untouched.
pub open spec fn cancel_taken_spec(s: CaptureSession) -> CaptureSession {
    CaptureSession { cancel_armed: false, ..s }
}

/// The session after the capture loop observes cancellation: the loop has
/// reached its terminal state and the hardware stream has been halted;
/// the buffer and format are untouched.
pub open spec fn cancelled_spec(s: CaptureSession) -> CaptureSession {
    CaptureSession { running: false, stream_halted: true, ..s }
}

/// Law: cancellation exclusivity. On a started session — the slot armed —
/// whichever of the stop call and the watchdog takes the slot first wins,
/// and the other then finds it empty: the capture loop is sent exactly one
/// cancellation signal, never zero and never two, in either arrival order.
pub proof fn lemma_cancellation_exclusive(s: CaptureSession)
    requires
        s.cancel_armed,
    ensures
        cancel_take_wins_spec(s),
        !cancel_take_wins_spec(cancel_taken_spec(s)),
{
}

/// Law: the watchdog alone stops capture. On a started session with no
/// stop call, the watchdog's take of the slot wins, and once the loop
/// observes the signal it is in its terminal state with the hardware
/// stream halted and the captured buffer intact.
pub proof fn lemma_watchdog_stops_capture(s: CaptureSession)
    requires
        s.wf(),
        s.running,
        s.cancel_armed,
    ensures
        cancel_take_wins_spec(s),
        !cancelled_spec(cancel_taken_spec(s)).running,
        cancelled_spec(cancel_taken_spec(s)).stream_halted,
        cancelled_spec(cancel_taken_spec(s)).samples == s.samples,
        cancelled_spec(cancel_taken_spec(s)).format == s.format,
{
}

} // verus!
