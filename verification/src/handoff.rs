//! The handoff of 3D scanlines from the thread that renders them to the
//! thread that composites them.
//!
//! One frame is in flight at a time. The two threads share its scanlines and
//! a cursor, and the cursor is all they ever touch at the same time. While it
//! holds a number from 0 to 192, that many scanlines of the frame are
//! finished; 192 also means that no frame is in flight. The value 255 means
//! that the data of a new frame were published and none of its scanlines is
//! begun.
//!
//! Neither thread blocks. What each does when it has looked at the cursor is
//! decided here; the looking, the waiting and the rendering are the
//! caller's.

use vstd::prelude::*;

verus! {

/// The number of scanlines of a frame.
pub const FRAME_LINES: u8 = 192;

/// The cursor of a frame whose data were published and whose rendering has
/// not begun.
pub const NEW_FRAME: u8 = 255;

/// Whether scanline `line` of the frame in flight is finished under a
/// cursor of `cursor`.
pub open spec fn spec_line_ready(cursor: u8, line: u8) -> bool {
    cursor != NEW_FRAME && cursor > line
}

/// Whether scanline `line` of the frame in flight is finished under a
/// cursor of `cursor`.
#[verifier::when_used_as_spec(spec_line_ready)]
pub fn line_ready(cursor: u8, line: u8) -> (ready: bool)
    ensures
        ready == spec_line_ready(cursor, line),
{
    cursor != NEW_FRAME && cursor > line
}

/// Whether a new frame may be published under a cursor of `cursor`: once
/// the last scanline of the frame before is finished.
pub open spec fn spec_can_publish(cursor: u8) -> bool {
    spec_line_ready(cursor, (FRAME_LINES - 1) as u8)
}

/// Whether a new frame may be published under a cursor of `cursor`.
#[verifier::when_used_as_spec(spec_can_publish)]
pub fn can_publish(cursor: u8) -> (ready: bool)
    ensures
        ready == spec_can_publish(cursor),
{
    line_ready(cursor, FRAME_LINES - 1)
}

/// The compositor's side of the handoff: the scanline it will ask for next.
#[derive(Clone, Copy, Debug, PartialEq, Eq)]
pub struct EmuState {
    next_scanline: u8,
}

impl EmuState {
    /// The scanline that will be asked for next.
    pub closed spec fn view(&self) -> u8 {
        self.next_scanline
    }

    /// A compositor at the start of a frame.
    pub fn new() -> (state: EmuState)
        ensures
            state@ == 0,
    {
        EmuState { next_scanline: 0 }
    }

    /// The scanline that will be asked for next.
    pub fn next_scanline(&self) -> (line: u8)
        ensures
            line == self@,
    {
        self.next_scanline
    }

    /// Starts over at scanline 0.
    pub fn start_frame(&mut self)
        ensures
            final(self)@ == 0,
    {
        self.next_scanline = 0;
    }

    /// Asks for the next scanline under a cursor of `cursor`. Where that
    /// scanline is finished, its number is returned for the caller to read
    /// it, and the scanline after it is next; where it is not, nothing
    /// changes and the caller has to look at the cursor again.
    pub fn read_scanline(&mut self, cursor: u8) -> (line: Option<u8>)
        ensures
            spec_line_ready(cursor, old(self)@) ==> line == Some(old(self)@) && final(self)@ == old(
                self,
            )@ + 1,
            !spec_line_ready(cursor, old(self)@) ==> line is None && final(self)@ == old(self)@,
    {
        if line_ready(cursor, self.next_scanline) {
            let line: u8 = self.next_scanline;
            self.next_scanline = line + 1;
            Some(line)
        } else {
            None
        }
    }

    /// Passes over the next scanline without reading it.
    pub fn skip_scanline(&mut self)
        requires
            old(self)@ < u8::MAX,
        ensures
            final(self)@ == old(self)@ + 1,
    {
        self.next_scanline = self.next_scanline + 1;
    }
}

/// What the rendering thread does after a look at the stop flag and the
/// cursor while it waits for a frame.
#[derive(Clone, Copy, Debug, PartialEq, Eq, Structural)]
pub enum WorkerPoll {
    /// End the thread.
    Exit,
    /// Look again.
    Spin,
    /// Set the cursor to 0 and render scanline 0.
    Begin,
}

/// What the rendering thread does after it has rendered a scanline and tried
/// to move the cursor past it.
#[derive(Clone, Copy, Debug, PartialEq, Eq, Structural)]
pub enum WorkerNext {
    /// End the thread.
    Exit,
    /// Render this scanline.
    Render(u8),
    /// Wait for the next frame.
    Wait,
}

/// Decides what the waiting rendering thread does: it ends when it was asked
/// to stop, begins a frame when one was published, and looks again
/// otherwise.
pub fn worker_poll(stopped: bool, cursor: u8) -> (poll: WorkerPoll)
    ensures
        poll == (if stopped {
            WorkerPoll::Exit
        } else if cursor == NEW_FRAME {
            WorkerPoll::Begin
        } else {
            WorkerPoll::Spin
        }),
{
    if stopped {
        WorkerPoll::Exit
    } else if cursor == NEW_FRAME {
        WorkerPoll::Begin
    } else {
        WorkerPoll::Spin
    }
}

/// Decides what the rendering thread does after scanline `line`. `moved`
/// says whether the cursor still stood at `line` and was moved past it; if it
/// did not, somebody else has set it, and the thread ends without finishing
/// the frame.
pub fn worker_after_line(line: u8, moved: bool) -> (next: WorkerNext)
    requires
        line < FRAME_LINES,
    ensures
        next == (if !moved {
            WorkerNext::Exit
        } else if line + 1 == FRAME_LINES {
            WorkerNext::Wait
        } else {
            WorkerNext::Render((line + 1) as u8)
        }),
{
    if !moved {
        WorkerNext::Exit
    } else if line + 1 == FRAME_LINES {
        WorkerNext::Wait
    } else {
        WorkerNext::Render(line + 1)
    }
}

/// The shared state of a handoff, as far as the protocol goes.
pub struct Handoff {
    pub cursor: u8,
    /// The number of scanlines of the frame in flight that are written out
    /// in full.
    pub written: nat,
}

/// A step of one of the two threads.
pub enum Step {
    /// The compositor publishes the data of a new frame.
    Publish,
    /// The rendering thread begins the published frame.
    Begin,
    /// The rendering thread writes out the scanline at the cursor.
    Render,
    /// The rendering thread moves the cursor past the scanline it has
    /// written.
    Advance,
}

impl Handoff {
    /// The state before any frame: no frame is in flight.
    pub open spec fn init() -> Handoff {
        Handoff { cursor: FRAME_LINES, written: FRAME_LINES as nat }
    }

    /// Whether the protocol allows `step` in this state. A frame is published
    /// only when none is in flight, and begun only once published; a
    /// scanline is written only while the cursor stands at it, and the
    /// cursor is moved past it only when it is written.
    pub open spec fn enabled(self, step: Step) -> bool {
        match step {
            Step::Publish => spec_can_publish(self.cursor),
            Step::Begin => self.cursor == NEW_FRAME,
            Step::Render => self.cursor < FRAME_LINES && self.written == self.cursor,
            Step::Advance => self.cursor < FRAME_LINES && self.written == self.cursor + 1,
        }
    }

    /// The state after `step`.
    pub open spec fn after(self, step: Step) -> Handoff {
        match step {
            Step::Publish => Handoff { cursor: NEW_FRAME, written: 0 },
            Step::Begin => Handoff { cursor: 0, written: 0 },
            Step::Render => Handoff { cursor: self.cursor, written: self.written + 1 },
            Step::Advance => Handoff { cursor: (self.cursor + 1) as u8, written: self.written },
        }
    }

    /// What holds of every state that the protocol reaches: the cursor is a
    /// number of scanlines or announces a new frame, and never counts a
    /// scanline that is not written out in full.
    pub open spec fn inv(self) -> bool {
        if self.cursor == NEW_FRAME {
            self.written == 0
        } else {
            self.cursor <= FRAME_LINES && self.cursor <= self.written <= self.cursor + 1
        }
    }

    /// The state after the steps `steps`, each of which the protocol allows
    /// in its turn; none if it does not allow one of them.
    pub open spec fn run(self, steps: Seq<Step>) -> Option<Handoff>
        decreases steps.len(),
    {
        if steps.len() == 0 {
            Some(self)
        } else {
            match self.run(steps.drop_last()) {
                Some(state) => if state.enabled(steps.last()) {
                    Some(state.after(steps.last()))
                } else {
                    None
                },
                None => None,
            }
        }
    }
}

/// The first state satisfies the invariant, and every step keeps it.
pub proof fn lemma_inv_step(state: Handoff, step: Step)
    requires
        state.inv(),
        state.enabled(step),
    ensures
        Handoff::init().inv(),
        state.after(step).inv(),
{
}

/// Whatever the two threads have done so far, a scanline that the compositor
/// finds ready is written out in full: it never reads a scanline that is
/// still being rendered, nor one of the frame before.
pub proof fn lemma_ready_line_is_written(steps: Seq<Step>, line: u8)
    requires
        Handoff::init().run(steps) is Some,
        spec_line_ready(Handoff::init().run(steps)->0.cursor, line),
    ensures
        line < Handoff::init().run(steps)->0.written,
        line < FRAME_LINES,
{
    lemma_run_inv(steps);
}

/// Every state that the protocol reaches satisfies the invariant.
pub proof fn lemma_run_inv(steps: Seq<Step>)
    requires
        Handoff::init().run(steps) is Some,
    ensures
        Handoff::init().run(steps)->0.inv(),
    decreases steps.len(),
{
    if steps.len() > 0 {
        lemma_run_inv(steps.drop_last());
        lemma_inv_step(Handoff::init().run(steps.drop_last())->0, steps.last());
    }
}

/// Between two frames the cursor only grows: a scanline that was ready stays
/// ready until the next frame is published.
pub proof fn lemma_ready_stays(state: Handoff, step: Step, line: u8)
    requires
        state.inv(),
        state.enabled(step),
        spec_line_ready(state.cursor, line),
        !(step is Publish),
    ensures
        spec_line_ready(state.after(step).cursor, line),
{
}

} // verus!
