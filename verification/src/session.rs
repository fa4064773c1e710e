//! Recording-session controller.
//!
//! One session runs between a start signal and a stop signal.  The
//! controlling thread owns a [`SessionController`]: a state machine
//! `Idle -> Recording -> Stopping -> Finished` whose published recording
//! flag is set exactly while the phase is `Recording`.  The capture thread
//! owns a [`CaptureAccumulator`] and, on every pass of its poll loop, asks
//! [`capture_poll`] whether to read one more frame or to exit.  The flag
//! itself must be shared with sequentially consistent visibility by the
//! caller; here it is modelled as the value the controller has published.

use vstd::prelude::*;

verus! {

/// The lifecycle of one recording session, as seen by the controlling
/// thread.
#[derive(Clone, Copy, Debug, PartialEq, Eq, Structural)]
pub enum SessionPhase {
    /// No session is active.
    Idle,
    /// The capture thread is running and the recording flag is set.
    Recording,
    /// The stop was requested; the capture thread may still be mid-frame.
    Stopping,
    /// The capture thread has been joined and the buffer handed over.
    Finished,
}

/// The start/stop state machine of one session.  Invariant: the published
/// recording flag is set exactly while the phase is `Recording`, so a
/// capture thread that polls the flag runs exactly as long as the session
/// does.
pub struct SessionController {
    phase: SessionPhase,
    flag: bool,
}

impl SessionController {
    /// The current lifecycle phase.
    pub closed spec fn phase(self) -> SessionPhase {
        self.phase
    }

    /// The recording-flag value the controller has published for the
    /// capture thread to poll.
    pub closed spec fn flag_recording(self) -> bool {
        self.flag
    }

    /// The controller's invariant: the flag is set exactly in `Recording`.
    pub open spec fn wf(self) -> bool {
        self.flag_recording() <==> self.phase() is Recording
    }

    /// A fresh controller with no session active and the flag clear.
    pub fn new() -> (c: Self)
        ensures
            c.wf(),
            c.phase() is Idle,
            !c.flag_recording(),
    {
        SessionController { phase: SessionPhase::Idle, flag: false }
    }

    /// Starts a session: sets the recording flag, after which the caller
    /// spawns the capture thread.  Requires that no session is active.
    pub fn start_session(&mut self)
        requires
            old(self).wf(),
            old(self).phase() is Idle,
        ensures
            final(self).wf(),
            final(self).phase() is Recording,
            final(self).flag_recording(),
    {
        self.phase = SessionPhase::Recording;
        self.flag = true;
    }

    /// Requests the stop: clears the recording flag.  This is a request,
    /// not a synchronous halt — the capture thread may read one more frame
    /// before it observes the cleared flag.
    pub fn request_stop(&mut self)
        requires
            old(self).wf(),
            old(self).phase() is Recording,
        ensures
            final(self).wf(),
            final(self).phase() is Stopping,
            !final(self).flag_recording(),
    {
        self.phase = SessionPhase::Stopping;
        self.flag = false;
    }

    /// Records that the capture thread has been joined and its buffer
    /// received; the join is the caller's sole synchronization barrier for
    /// the buffer handoff.
    pub fn finish_session(&mut self)
        requires
            old(self).wf(),
            old(self).phase() is Stopping,
        ensures
            final(self).wf(),
            final(self).phase() is Finished,
            !final(self).flag_recording(),
    {
        self.phase = SessionPhase::Finished;
    }

    /// The flag value to publish to the capture thread.
    pub fn recording_flag(&self) -> (b: bool)
        ensures
            b == self.flag_recording(),
    {
        self.flag
    }
}

/// What the capture thread does on one pass of its poll loop.
#[derive(Clone, Copy, Debug, PartialEq, Eq, Structural)]
pub enum PollAction {
    /// Read one frame from the frame source and append it to the buffer.
    ReadFrame,
    /// Stop the frame source and return the buffer.
    ExitLoop,
}

/// The capture thread's poll decision.  A poll that observes the flag
/// cleared exits at once — the thread never reads another frame after
/// observing the stop, so it terminates within one frame read of the flag
/// becoming visible.
pub fn capture_poll(flag_recording: bool) -> (a: PollAction)
    ensures
        a is ReadFrame <==> flag_recording,
        a is ExitLoop <==> !flag_recording,
{
    if flag_recording {
        PollAction::ReadFrame
    } else {
        PollAction::ExitLoop
    }
}

/// The capture thread's buffer: frames are appended in read order into one
/// contiguous sample buffer, which is handed to the controller whole after
/// the join.
pub struct CaptureAccumulator {
    samples: Vec<i16>,
    frame_length: usize,
    frames: Ghost<Seq<Seq<i16>>>,
}

impl CaptureAccumulator {
    /// The frames appended so far, in read order.
    pub closed spec fn frames(self) -> Seq<Seq<i16>> {
        self.frames@
    }

    /// The samples accumulated so far.
    pub closed spec fn samples_view(self) -> Seq<i16> {
        self.samples@
    }

    /// The fixed number of samples per frame.
    pub closed spec fn frame_length_spec(self) -> int {
        self.frame_length as int
    }

    /// The accumulator's invariant: the buffer is exactly the appended
    /// frames concatenated in order, and every frame has the fixed length.
    pub open spec fn wf(self) -> bool {
        &&& self.samples_view() == self.frames().flatten()
        &&& self.frame_length_spec() > 0
        &&& forall|i: int|
            0 <= i < self.frames().len() ==> (#[trigger] self.frames()[i]).len()
                == self.frame_length_spec()
    }

    /// An empty accumulator for a session with the given frame length.
    pub fn new(frame_length: usize) -> (acc: Self)
        requires
            frame_length > 0,
        ensures
            acc.wf(),
            acc.frames() == Seq::<Seq<i16>>::empty(),
            acc.samples_view() == Seq::<i16>::empty(),
            acc.frame_length_spec() == frame_length,
    {
        let acc = CaptureAccumulator {
            samples: Vec::new(),
            frame_length,
            frames: Ghost(Seq::empty()),
        };
        proof {
            assert(acc.frames().flatten() =~= Seq::<i16>::empty());
        }
        acc
    }

    /// The number of samples accumulated so far.
    pub fn sample_count(&self) -> (n: usize)
        ensures
            n == self.samples_view().len(),
    {
        self.samples.len()
    }

    /// Appends one frame: the buffer grows by exactly this frame's samples,
    /// at the end, in order — nothing is dropped, duplicated or reordered.
    pub fn append_frame(&mut self, frame: &Vec<i16>)
        requires
            old(self).wf(),
            frame@.len() == old(self).frame_length_spec(),
        ensures
            final(self).wf(),
            final(self).frames() == old(self).frames().push(frame@),
            final(self).samples_view() == old(self).samples_view() + frame@,
            final(self).frame_length_spec() == old(self).frame_length_spec(),
    {
        let mut j: usize = 0;
        while j < frame.len()
            invariant
                j <= frame@.len(),
                self.samples@ == old(self).samples@ + frame@.take(j as int),
                self.frame_length == old(self).frame_length,
                self.frames@ == old(self).frames@,
            decreases frame@.len() - j,
        {
            self.samples.push(frame[j]);
            proof {
                assert(old(self).samples@ + frame@.take(j as int) + seq![frame@[j as int]]
                    =~= old(self).samples@ + frame@.take(j as int + 1));
            }
            j = j + 1;
        }
        proof {
            self.frames@ = old(self).frames@.push(frame@);
            broadcast use Seq::<_>::lemma_flatten_push;

            assert(frame@.take(frame@.len() as int) =~= frame@);
            assert(self.samples@ =~= old(self).frames@.flatten() + frame@);
        }
    }

    /// Hands the finished buffer over: exactly the appended frames,
    /// concatenated in read order.
    pub fn into_samples(self) -> (buffer: Vec<i16>)
        requires
            self.wf(),
        ensures
            buffer@ == self.frames().flatten(),
            buffer@ == self.samples_view(),
    {
        let CaptureAccumulator { samples, frame_length: _, frames: _ } = self;
        samples
    }
}

} // verus!
