//! Scheduling of the offline captures: a single screenshot after a set
//! number of frames, and a numbered frame sequence saved every few
//! simulation frames until an end frame.
use vstd::prelude::*;

verus! {

/// State of a pending single screenshot.
pub struct ScreenshotModel {
    pub frame_target: nat,
    pub frame: nat,
    pub triggered: bool,
}

impl ScreenshotModel {
    /// One frame passes: the counter advances, and the shot is taken on the
    /// first frame that reaches the target.
    pub open spec fn ticked(self) -> (ScreenshotModel, bool) {
        let frame = self.frame + 1;
        let shoot = !self.triggered && frame >= self.frame_target;
        (ScreenshotModel { frame, triggered: self.triggered || shoot, ..self }, shoot)
    }
}

/// A fresh job for `frame_target` after `k` frames.
pub open spec fn screenshot_after(frame_target: nat, k: nat) -> ScreenshotModel
    decreases k,
{
    if k == 0 {
        ScreenshotModel { frame_target, frame: 0, triggered: false }
    } else {
        screenshot_after(frame_target, (k - 1) as nat).ticked().0
    }
}

/// Counts frames until the screenshot is due, then fires once.
pub struct ScreenshotJob {
    frame_target: u32,
    frame: u32,
    triggered: bool,
}

impl View for ScreenshotJob {
    type V = ScreenshotModel;

    closed spec fn view(&self) -> ScreenshotModel {
        ScreenshotModel {
            frame_target: self.frame_target as nat,
            frame: self.frame as nat,
            triggered: self.triggered,
        }
    }
}

impl ScreenshotJob {
    pub fn new(frame_target: u32) -> (job: Self)
        ensures
            job@ == (ScreenshotModel { frame_target: frame_target as nat, frame: 0, triggered: false }),
    {
        ScreenshotJob { frame_target, frame: 0, triggered: false }
    }

    /// Advances one frame; returns whether the screenshot is to be taken now.
    pub fn tick(&mut self) -> (shoot: bool)
        requires
            old(self)@.frame < u32::MAX,
        ensures
            (final(self)@, shoot) == old(self)@.ticked(),
    {
        self.frame = self.frame + 1;
        if self.triggered || self.frame < self.frame_target {
            return false;
        }
        self.triggered = true;
        true
    }

    pub fn frame(&self) -> (r: u32)
        ensures
            r == self@.frame,
    {
        self.frame
    }
}

/// A job ticked for `k` frames has fired exactly when `k` has reached the
/// target (the first frame counts as frame one), and the frame on which it
/// fires is that one frame.
pub proof fn law_screenshot_fires_once(frame_target: nat, k: nat)
    ensures
        screenshot_after(frame_target, k).frame_target == frame_target,
        screenshot_after(frame_target, k).frame == k,
        screenshot_after(frame_target, k).triggered <==> (k >= 1 && k >= frame_target),
        k >= 1 ==> (screenshot_after(frame_target, (k - 1) as nat).ticked().1 <==> (k
            == frame_target || (k == 1 && frame_target == 0))),
    decreases k,
{
    if k > 0 {
        law_screenshot_fires_once(frame_target, (k - 1) as nat);
    }
}

/// State of a running frame-sequence capture.
pub struct FrameCaptureModel {
    pub sim_frame: nat,
    pub end_frame: nat,
    pub step: nat,
    pub index: nat,
    pub waiting: bool,
    pub finished: bool,
}

impl FrameCaptureModel {
    /// What the schedule keeps true: it has saved one frame per multiple of
    /// `step` passed so far (up to the end frame), it waits only on a frame
    /// that it saved, and it finishes just after the end frame.
    pub open spec fn consistent(self) -> bool {
        &&& self.step >= 1
        &&& self.end_frame <= u32::MAX
        &&& self.step <= u32::MAX
        &&& self.sim_frame <= self.end_frame + 1
        &&& (self.finished <==> self.sim_frame > self.end_frame)
        &&& self.index == (if self.finished { self.end_frame } else { self.sim_frame }) / self.step
        &&& (self.waiting ==> !self.finished && self.sim_frame >= 1 && self.sim_frame % self.step
            == 0)
    }

    /// One simulation frame of the capture loop, and the frame number to
    /// save, if one is due now.
    pub open spec fn advanced(self) -> (FrameCaptureModel, Option<nat>) {
        if self.finished || self.waiting {
            (self, None)
        } else {
            let sim = self.sim_frame + 1;
            if sim > self.end_frame {
                (FrameCaptureModel { sim_frame: sim, finished: true, ..self }, None)
            } else if sim % self.step != 0 {
                (FrameCaptureModel { sim_frame: sim, ..self }, None)
            } else {
                (
                    FrameCaptureModel { sim_frame: sim, waiting: true, index: self.index + 1, ..self },
                    Some(self.index + 1),
                )
            }
        }
    }

    /// A save may have completed; the capture ends once it is finished and
    /// no save is outstanding.
    pub open spec fn after_save(self, saved: bool) -> (FrameCaptureModel, bool) {
        let next = if saved {
            FrameCaptureModel { waiting: false, ..self }
        } else {
            self
        };
        (next, next.finished && !next.waiting)
    }
}

/// A frame number, as a mathematical number.
pub open spec fn as_nat(due: Option<u32>) -> Option<nat> {
    match due {
        Some(i) => Some(i as nat),
        None => None,
    }
}

/// Saves every `step`-th simulation frame up to `end_frame`, one at a time.
pub struct FrameCaptureJob {
    sim_frame: u32,
    end_frame: u32,
    step: u32,
    index: u32,
    waiting: bool,
    finished: bool,
}

impl View for FrameCaptureJob {
    type V = FrameCaptureModel;

    closed spec fn view(&self) -> FrameCaptureModel {
        FrameCaptureModel {
            sim_frame: self.sim_frame as nat,
            end_frame: self.end_frame as nat,
            step: self.step as nat,
            index: self.index as nat,
            waiting: self.waiting,
            finished: self.finished,
        }
    }
}

proof fn lemma_div_next(s: nat, k: nat)
    requires
        k >= 1,
    ensures
        (s + 1) / k == s / k + (if (s + 1) % k == 0 { 1nat } else { 0nat }),
        s / k <= s,
{
    assert((s + 1) / k == s / k + (if (s + 1) % k == 0 { 1nat } else { 0nat })) by (nonlinear_arith)
        requires
            k >= 1,
    {
        vstd::arithmetic::div_mod::lemma_fundamental_div_mod(s as int, k as int);
        vstd::arithmetic::div_mod::lemma_fundamental_div_mod((s + 1) as int, k as int);
        vstd::arithmetic::div_mod::lemma_mod_bound(s as int, k as int);
        vstd::arithmetic::div_mod::lemma_mod_bound((s + 1) as int, k as int);
    }
    assert(s / k <= s) by (nonlinear_arith)
        requires
            k >= 1,
    ;
}

impl FrameCaptureJob {
    #[verifier::type_invariant]
    closed spec fn inv(self) -> bool {
        self@.consistent()
    }

    /// A capture that saves every `step`-th frame up to `end_frame`.
    pub fn new(end_frame: u32, step: u32) -> (job: Self)
        requires
            step >= 1,
        ensures
            job@ == (FrameCaptureModel {
                sim_frame: 0,
                end_frame: end_frame as nat,
                step: step as nat,
                index: 0,
                waiting: false,
                finished: false,
            }),
            job@.consistent(),
    {
        FrameCaptureJob { sim_frame: 0, end_frame, step, index: 0, waiting: false, finished: false }
    }

    /// Advances one simulation frame; returns the number of the frame to
    /// save now, if one is due.
    pub fn advance(&mut self) -> (due: Option<u32>)
        requires
            old(self)@.finished || old(self)@.waiting || old(self)@.sim_frame < u32::MAX,
        ensures
            (final(self)@, as_nat(due)) == old(self)@.advanced(),
            final(self)@.consistent(),
    {
        proof {
            use_type_invariant(&*self);
        }
        if self.finished || self.waiting {
            return None;
        }
        proof {
            lemma_div_next(self.sim_frame as nat, self.step as nat);
        }
        let sim = self.sim_frame + 1;
        let (end_frame, step, index) = (self.end_frame, self.step, self.index);
        if sim > end_frame {
            *self = FrameCaptureJob { sim_frame: sim, end_frame, step, index, waiting: false, finished: true };
            return None;
        }
        if sim % step != 0 {
            *self = FrameCaptureJob { sim_frame: sim, end_frame, step, index, waiting: false, finished: false };
            return None;
        }
        *self = FrameCaptureJob {
            sim_frame: sim,
            end_frame,
            step,
            index: index + 1,
            waiting: true,
            finished: false,
        };
        Some(index + 1)
    }

    /// Records whether the outstanding save completed this frame; returns
    /// whether the capture is over and the program may exit.
    pub fn frame_saved(&mut self, saved: bool) -> (exit: bool)
        ensures
            (final(self)@, exit) == old(self)@.after_save(saved),
            final(self)@.consistent(),
    {
        proof {
            use_type_invariant(&*self);
        }
        if saved {
            *self = FrameCaptureJob {
                sim_frame: self.sim_frame,
                end_frame: self.end_frame,
                step: self.step,
                index: self.index,
                waiting: false,
                finished: self.finished,
            };
        }
        self.finished && !self.waiting
    }

    /// Whether `advance` may be called: a frame counter at its maximum
    /// cannot advance further.
    pub fn can_advance(&self) -> (r: bool)
        ensures
            r == (self@.finished || self@.waiting || self@.sim_frame < u32::MAX),
    {
        self.finished || self.waiting || self.sim_frame < u32::MAX
    }

    pub fn is_finished(&self) -> (r: bool)
        ensures
            r == self@.finished,
            self@.consistent(),
    {
        proof {
            use_type_invariant(self);
        }
        self.finished
    }
}

/// Each step of the capture loop keeps the schedule consistent, and a frame
/// is saved only on a multiple of the step, never past the end frame, under
/// the next consecutive number.
pub proof fn law_capture_schedule(m: FrameCaptureModel)
    requires
        m.consistent(),
        m.finished || m.waiting || m.sim_frame < u32::MAX,
    ensures
        m.advanced().0.consistent(),
        m.advanced().1 matches Some(i) ==> {
            &&& i == m.index + 1
            &&& m.advanced().0.sim_frame % m.step == 0
            &&& 1 <= m.advanced().0.sim_frame <= m.end_frame
            &&& i == m.advanced().0.sim_frame / m.step
        },
        m.waiting ==> m.advanced() == (m, None::<nat>),
{
    lemma_div_next(m.sim_frame, m.step);
}

/// Once the capture has finished, exactly one frame has been saved for each
/// multiple of the step up to the end frame.
pub proof fn law_sequence_total(m: FrameCaptureModel)
    requires
        m.consistent(),
        m.finished,
    ensures
        m.index == m.end_frame / m.step,
{
}

/// The program exits only when the capture has passed its end frame and the
/// last save has completed; a completed save always clears the wait.
pub proof fn law_exit_only_when_done(m: FrameCaptureModel, saved: bool)
    requires
        m.consistent(),
    ensures
        m.after_save(saved).0.consistent(),
        m.after_save(saved).1 ==> m.sim_frame > m.end_frame && !m.after_save(saved).0.waiting,
        saved ==> !m.after_save(saved).0.waiting,
{
}

/// Acknowledging a save clears the wait and nothing else; the program exits
/// on any frame where the capture is finished and no save is outstanding,
/// whether or not a save completed on that frame.
pub proof fn law_exit_when_finished_and_idle(m: FrameCaptureModel, saved: bool)
    ensures
        m.after_save(saved).0.waiting == (m.waiting && !saved),
        m.after_save(saved).0.finished == m.finished,
        m.after_save(saved).0.sim_frame == m.sim_frame,
        m.after_save(saved).0.index == m.index,
        m.after_save(saved).0.end_frame == m.end_frame,
        m.after_save(saved).0.step == m.step,
        m.after_save(saved).1 == (m.finished && (saved || !m.waiting)),
        m.after_save(saved).1 == (m.after_save(saved).0.finished && !m.after_save(saved).0.waiting),
{
}

} // verus!
