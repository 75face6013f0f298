use vstd::prelude::*;

verus! {

/// Abstract state of a recording controller.
pub struct RecView {
    /// Captured samples of the current session.
    pub buffer: Seq<i16>,
    /// The run flag.
    pub active: bool,
    /// The handle of a capture thread is recorded and has not been joined.
    pub thread: bool,
    /// Number of the current capture session; a capture loop reads only for
    /// its own session.
    pub session: int,
    /// Index of the recording device.
    pub device: int,
}

/// What the caller does with capture threads after a start.
#[derive(Clone, Copy, Debug, PartialEq, Eq, Structural)]
pub enum CaptureCommand {
    /// Recording was on already: its thread goes on, nothing to spawn.
    Keep,
    /// Spawn the capture thread of the new session.
    Spawn,
    /// Join the previous, retired thread, and spawn the one of the new session.
    JoinThenSpawn,
}

/// A capture thread exists whenever recording is on.
pub open spec fn rec_wf(m: RecView) -> bool {
    m.active ==> m.thread
}

pub open spec fn next_session(s: int) -> int {
    if s == u64::MAX {
        0
    } else {
        s + 1
    }
}

/// The capture loop of session `session` goes on reading.
pub open spec fn capturing(m: RecView, session: int) -> bool {
    m.active && m.session == session
}

/// Start: a no-op when recording is on; else the buffer is reset, a new
/// session begins, and its thread is to be spawned, after joining the
/// previous one where its handle is still recorded.
pub open spec fn start_spec(m: RecView) -> (RecView, CaptureCommand) {
    if m.active {
        (m, CaptureCommand::Keep)
    } else {
        (
            RecView {
                buffer: Seq::empty(),
                active: true,
                thread: true,
                session: next_session(m.session),
                ..m
            },
            if m.thread {
                CaptureCommand::JoinThenSpawn
            } else {
                CaptureCommand::Spawn
            },
        )
    }
}

/// Stop: clears the run flag; the result says whether a thread awaits a join.
pub open spec fn stop_spec(m: RecView) -> (RecView, bool) {
    (RecView { active: false, ..m }, m.thread)
}

/// Flip the run flag; the result is its new state.
pub open spec fn toggle_spec(m: RecView) -> (RecView, bool) {
    if m.active {
        (stop_spec(m).0, false)
    } else {
        (start_spec(m).0, true)
    }
}

/// Join: hands out the thread only when the run flag is clear, so that the
/// join cannot wait on a loop that keeps reading.
pub open spec fn join_spec(m: RecView) -> (RecView, bool) {
    if m.thread && !m.active {
        (RecView { thread: false, ..m }, true)
    } else {
        (m, false)
    }
}

/// The samples kept after the loop of `session` read one frame.
pub open spec fn append_spec(m: RecView, session: int, frame: Seq<i16>) -> RecView {
    if capturing(m, session) {
        RecView { buffer: m.buffer + frame, ..m }
    } else {
        m
    }
}

pub enum RecOp {
    Start,
    Stop,
    Toggle,
    Join,
}

pub open spec fn apply_op(m: RecView, op: RecOp) -> RecView {
    match op {
        RecOp::Start => start_spec(m).0,
        RecOp::Stop => stop_spec(m).0,
        RecOp::Toggle => toggle_spec(m).0,
        RecOp::Join => join_spec(m).0,
    }
}

pub open spec fn apply_ops(m: RecView, ops: Seq<RecOp>) -> RecView
    decreases ops.len(),
{
    if ops.len() == 0 {
        m
    } else {
        apply_ops(apply_op(m, ops[0]), ops.drop_first())
    }
}

/// Owns the run flag, the capture buffer and the record of the capture thread.
pub struct RecContext {
    audio_data: Vec<i16>,
    rec_c: bool,
    thread_live: bool,
    session: u64,
    device: i32,
}

impl View for RecContext {
    type V = RecView;

    closed spec fn view(&self) -> RecView {
        RecView {
            buffer: self.audio_data@,
            active: self.rec_c,
            thread: self.thread_live,
            session: self.session as int,
            device: self.device as int,
        }
    }
}

impl RecContext {
    /// Stopped, with an empty buffer, no thread, on the first device.
    pub fn new() -> (r: Self)
        ensures
            r@ == (RecView {
                buffer: Seq::empty(),
                active: false,
                thread: false,
                session: 0,
                device: 0,
            }),
            rec_wf(r@),
    {
        RecContext {
            audio_data: Vec::new(),
            rec_c: false,
            thread_live: false,
            session: 0,
            device: 0,
        }
    }

    pub fn reset_buffer(&mut self)
        ensures
            final(self)@ == (RecView { buffer: Seq::empty(), ..old(self)@ }),
    {
        self.audio_data = Vec::new();
    }

    pub fn clear(&mut self)
        ensures
            final(self)@ == (RecView { buffer: Seq::empty(), ..old(self)@ }),
    {
        self.audio_data.clear();
    }

    pub fn buffer_len(&self) -> (r: usize)
        ensures
            r == self@.buffer.len(),
    {
        self.audio_data.len()
    }

    pub fn get_ad(&self) -> (r: &[i16])
        ensures
            r@ == self@.buffer,
    {
        self.audio_data.as_slice()
    }

    /// The run flag.
    pub fn is_recording(&self) -> (r: bool)
        ensures
            r == self@.active,
    {
        self.rec_c
    }

    pub fn has_thread(&self) -> (r: bool)
        ensures
            r == self@.thread,
    {
        self.thread_live
    }

    /// Number of the current capture session, handed to its thread.
    pub fn session(&self) -> (r: u64)
        ensures
            r as int == self@.session,
    {
        self.session
    }

    pub fn device(&self) -> (r: i32)
        ensures
            r as int == self@.device,
    {
        self.device
    }

    /// What the capture loop of `session` polls: whether to read another frame.
    pub fn should_capture(&self, session: u64) -> (r: bool)
        ensures
            r == capturing(self@, session as int),
    {
        self.rec_c && self.session == session
    }

    /// Starts a session unless recording is on; says what to do with threads.
    pub fn start(&mut self) -> (r: CaptureCommand)
        ensures
            (final(self)@, r) == start_spec(old(self)@),
    {
        if self.rec_c {
            CaptureCommand::Keep
        } else {
            let joined = self.thread_live;
            self.audio_data.clear();
            self.rec_c = true;
            self.thread_live = true;
            self.session = if self.session == u64::MAX {
                0
            } else {
                self.session + 1
            };
            if joined {
                CaptureCommand::JoinThenSpawn
            } else {
                CaptureCommand::Spawn
            }
        }
    }

    /// Clears the run flag; true when a capture thread awaits a join.
    pub fn stop(&mut self) -> (join_owed: bool)
        ensures
            (final(self)@, join_owed) == stop_spec(old(self)@),
    {
        self.rec_c = false;
        self.thread_live
    }

    /// Flips the run flag and returns its new state. Turning it on starts a
    /// new session: the caller spawns its thread and joins the previous one
    /// if its handle is still held.
    pub fn toggle(&mut self) -> (r: bool)
        ensures
            final(self)@.active == !old(self)@.active,
            r == final(self)@.active,
            (final(self)@, r) == toggle_spec(old(self)@),
    {
        if self.rec_c {
            self.stop();
            false
        } else {
            self.start();
            true
        }
    }

    /// Sets the run flag to `v`.
    pub fn rec(&mut self, v: bool)
        ensures
            final(self)@.active == v,
            v ==> final(self)@ == start_spec(old(self)@).0,
            !v ==> final(self)@ == stop_spec(old(self)@).0,
    {
        if v {
            self.start();
        } else {
            self.stop();
        }
    }

    /// Takes the thread for joining; true only when one exists and the run
    /// flag is clear, so that the join returns once the loop sees the flag.
    pub fn take_handle(&mut self) -> (join: bool)
        ensures
            (final(self)@, join) == join_spec(old(self)@),
    {
        if self.thread_live && !self.rec_c {
            self.thread_live = false;
            true
        } else {
            false
        }
    }

    /// Keeps one frame read by the loop of `session`; a frame of a stopped or
    /// retired session is dropped.
    pub fn append_frame(&mut self, session: u64, frame: &[i16])
        ensures
            final(self)@ == append_spec(old(self)@, session as int, frame@),
    {
        if self.rec_c && self.session == session {
            let mut i: usize = 0;
            while i < frame.len()
                invariant
                    i <= frame@.len(),
                    self.rec_c == old(self).rec_c,
                    self.thread_live == old(self).thread_live,
                    self.session == old(self).session,
                    self.device == old(self).device,
                    self.audio_data@ == old(self).audio_data@ + frame@.take(i as int),
                decreases frame@.len() - i,
            {
                self.audio_data.push(frame[i]);
                proof {
                    assert(frame@.take(i as int + 1) =~= frame@.take(i as int).push(frame@[i as int]));
                }
                i += 1;
            }
            proof {
                assert(frame@.take(frame@.len() as int) =~= frame@);
            }
        }
    }

    /// Records a new device; true when capture was on and is to be restarted
    /// on it. Called once the device was opened.
    pub fn set_rec_device(&mut self, di: i32) -> (restart: bool)
        ensures
            final(self)@ == (RecView { device: di as int, ..old(self)@ }),
            restart == old(self)@.active,
    {
        self.device = di;
        self.rec_c
    }
}

/// Every operation keeps a capture thread in place while recording is on.
pub proof fn lemma_ops_keep_wf(m: RecView, ops: Seq<RecOp>)
    requires
        rec_wf(m),
    ensures
        rec_wf(apply_ops(m, ops)),
    decreases ops.len(),
{
    if ops.len() > 0 {
        lemma_ops_keep_wf(apply_op(m, ops[0]), ops.drop_first());
    }
}

/// After any run of operations, a stop followed by a join leaves no capture
/// thread and the run flag clear; the join is handed out exactly when a
/// thread was there, and no capture loop is told to keep reading, so the
/// join does not wait.
pub proof fn lemma_stop_then_join(m: RecView, ops: Seq<RecOp>)
    requires
        rec_wf(m),
    ensures
        ({
            let m1 = apply_ops(m, ops);
            let (m2, owed) = stop_spec(m1);
            let (m3, joined) = join_spec(m2);
            &&& joined == owed
            &&& joined == m1.thread
            &&& !m3.thread
            &&& !m3.active
            &&& m3.buffer == m1.buffer
            &&& forall|s: int| !capturing(m2, s)
        }),
{
    lemma_ops_keep_wf(m, ops);
}

/// Two starts in a row spawn at most one capture thread: the second keeps
/// the running session. A start that spawns retires the previous session, so
/// the thread it asks to join stops reading.
pub proof fn lemma_start_twice_spawns_once(m: RecView)
    requires
        rec_wf(m),
    ensures
        ({
            let (m1, c1) = start_spec(m);
            let (m2, c2) = start_spec(m1);
            &&& c2 == CaptureCommand::Keep
            &&& m2 == m1
            &&& m1.active
            &&& rec_wf(m1)
            &&& (c1 == CaptureCommand::JoinThenSpawn <==> (!m.active && m.thread))
            &&& (c1 != CaptureCommand::Keep ==> !capturing(m1, m.session) && capturing(
                m1,
                m1.session,
            ))
        }),
{
}

/// Each toggle flips the run flag; two toggles give it back.
pub proof fn lemma_toggle_flips(m: RecView)
    ensures
        toggle_spec(m).0.active == !m.active,
        toggle_spec(m).1 == !m.active,
        toggle_spec(toggle_spec(m).0).0.active == m.active,
{
}

} // verus!
