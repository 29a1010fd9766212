//! The per-frame transactional resource lifecycle.
//!
//! A [`DeviceContext`] owns the long-lived device-side state the
//! library reasons about: the surface dimensions and the frame counter.
//! Beginning a frame yields a [`FrameTransaction`], a short-lived
//! object for exactly one frame in flight: it records the frame's
//! render passes under the load/clear discipline and is consumed —
//! exactly once, enforced by move semantics — by
//! [`FrameTransaction::finish_and_present`], which fixes the order of
//! the finishing steps and updates the frame counter last.
//!
//! The device, surface and queue themselves live with the caller, who
//! performs the blocking acquisition and hands its outcome in, then
//! carries out the finishing steps in the order this module dictates.

use crate::compose::{Draw, LoadOp, Pass, well_composed};
use crate::frame_counter::{counter_step, FrameCounter};
use vstd::prelude::*;

verus! {

/// Why beginning a frame failed.
#[derive(Clone, Copy, PartialEq, Eq, Structural, Debug)]
pub enum AcquireError {
    /// The surface chain is stale; recoverable — resize and retry.
    SurfaceLost,
    /// The device is out of memory; fatal.
    OutOfMemory,
    /// Any other transient acquisition error, by code; log and retry.
    Other(u32),
}

impl AcquireError {
    /// Recoverable exactly when the surface was lost: the caller should
    /// resize to recreate the surface chain and retry next tick.
    pub fn is_recoverable(&self) -> (r: bool)
        ensures
            r <==> self is SurfaceLost,
    {
        match self {
            AcquireError::SurfaceLost => true,
            _ => false,
        }
    }

    /// Fatal exactly when the device ran out of memory: the caller
    /// should terminate.
    pub fn is_fatal(&self) -> (r: bool)
        ensures
            r <==> self is OutOfMemory,
    {
        match self {
            AcquireError::OutOfMemory => true,
            _ => false,
        }
    }
}

/// What the device reported when asked for the next presentable image.
/// The caller performs the (possibly blocking) acquisition and hands
/// the outcome in as a plain value.
#[derive(Clone, Copy, PartialEq, Eq, Structural, Debug)]
pub enum AcquireOutcome {
    /// An image was acquired; the frame can proceed.
    Acquired,
    /// The surface chain is stale.
    Lost,
    /// The device is out of memory.
    OutOfMemory,
    /// Any other error, by code.
    Other(u32),
}

/// A violation of the render-pass protocol, reported rather than
/// silently tolerated.
#[derive(Clone, Copy, PartialEq, Eq, Structural, Debug)]
pub enum ProtocolError {
    /// A pass was begun while another was still open: passes are
    /// strictly sequential.
    PassStillOpen,
    /// A draw was issued or a pass ended with no pass open.
    NoPassOpen,
    /// The first pass of a frame must clear, defining the background.
    FirstPassMustClear,
    /// Every pass after the first must load, preserving prior output.
    LaterPassMustLoad,
}

/// One step of finishing a frame, to be performed by the caller in the
/// order given by [`FrameTransaction::finish_and_present`].
#[derive(Clone, Copy, PartialEq, Eq, Structural, Debug)]
pub enum FinishStep {
    /// Seal all upload-buffer writes of this frame; no more may follow.
    SealUploads,
    /// Submit the recorded commands to the device queue, exactly once.
    SubmitCommands,
    /// Schedule the upload-buffer recycler's reclaim as a deferred task.
    ScheduleReclaim,
    /// Drive the single-threaded task runner until it stalls, without
    /// blocking, so the reclaim task runs off the render loop.
    DrainExecutor,
}

/// The fixed order of the finishing steps; the order is an invariant of
/// the design, not a detail. The frame-counter update follows them,
/// last, inside [`FrameTransaction::finish_and_present`] itself.
pub open spec fn finish_steps() -> Seq<FinishStep> {
    seq![
        FinishStep::SealUploads,
        FinishStep::SubmitCommands,
        FinishStep::ScheduleReclaim,
        FinishStep::DrainExecutor,
    ]
}

/// Long-lived device-side state: surface dimensions and the frame
/// counter, plus the bookkeeping that serializes frames.
pub struct DeviceContext {
    surface_width: u32,
    surface_height: u32,
    frame_counter: FrameCounter,
    in_flight: bool,
    next_frame_id: u64,
}

/// One frame in flight: the identity of its acquired image and the
/// render passes recorded so far, under the load/clear discipline.
pub struct FrameTransaction {
    frame_id: u64,
    passes: Vec<Pass>,
    pass_open: bool,
}

impl DeviceContext {
    /// Surface-chain dimensions, width then height.
    pub closed spec fn surface_size(&self) -> (u32, u32) {
        (self.surface_width, self.surface_height)
    }

    /// The owned frame counter.
    pub closed spec fn counter(&self) -> FrameCounter {
        self.frame_counter
    }

    /// Whether a frame transaction is currently outstanding.
    pub closed spec fn frame_in_flight(&self) -> bool {
        self.in_flight
    }

    /// Identity the next begun frame will carry.
    pub closed spec fn next_id(&self) -> u64 {
        self.next_frame_id
    }

    /// Identity of the outstanding frame; meaningful while one is in
    /// flight.
    pub open spec fn active_id(&self) -> int {
        self.next_id() - 1
    }

    /// The counter's history never exceeds its bound.
    pub open spec fn wf(&self) -> bool {
        self.counter().wf()
    }

    /// A fresh context over a surface of the given size: no frame in
    /// flight, counter at zero.
    pub fn new(width: u32, height: u32) -> (r: Self)
        ensures
            r.wf(),
            r.surface_size() == (width, height),
            r.counter().model() == crate::frame_counter::counter_init(),
            !r.frame_in_flight(),
            r.next_id() == 0,
    {
        DeviceContext {
            surface_width: width,
            surface_height: height,
            frame_counter: Default::default(),
            in_flight: false,
            next_frame_id: 0,
        }
    }

    /// Record the surface chain's new dimensions. Must be called after
    /// any size change before the next frame is begun; it touches
    /// nothing but the dimensions, and calling it again with the same
    /// size changes nothing.
    pub fn resize(&mut self, width: u32, height: u32)
        ensures
            final(self).surface_size() == (width, height),
            final(self).counter() == old(self).counter(),
            final(self).frame_in_flight() == old(self).frame_in_flight(),
            final(self).next_id() == old(self).next_id(),
    {
        self.surface_width = width;
        self.surface_height = height;
    }

    /// Current surface-chain width in pixels.
    pub fn surface_width(&self) -> (r: u32)
        ensures
            r == self.surface_size().0,
    {
        self.surface_width
    }

    /// Current surface-chain height in pixels.
    pub fn surface_height(&self) -> (r: u32)
        ensures
            r == self.surface_size().1,
    {
        self.surface_height
    }

    /// Whether a frame transaction is currently outstanding.
    pub fn is_frame_in_flight(&self) -> (r: bool)
        ensures
            r == self.frame_in_flight(),
    {
        self.in_flight
    }

    /// Read access to the frame counter, for overlay readers.
    pub fn frame_counter(&self) -> (r: &FrameCounter)
        ensures
            *r == self.counter(),
    {
        &self.frame_counter
    }

    /// Begin the frame for which the caller just acquired a presentable
    /// image — or map the acquisition failure to its error class. On
    /// success the returned transaction is fresh: no passes, none open,
    /// and it alone may finish this frame. Acquisition succeeded if and
    /// only if a transaction is returned.
    pub fn begin_current_frame(&mut self, acquired: AcquireOutcome) -> (r: Result<
        FrameTransaction,
        AcquireError,
    >)
        requires
            !old(self).frame_in_flight(),
            old(self).next_id() < u64::MAX,
        ensures
            final(self).surface_size() == old(self).surface_size(),
            final(self).counter() == old(self).counter(),
            acquired is Acquired ==> {
                &&& r is Ok
                &&& final(self).frame_in_flight()
                &&& final(self).next_id() == old(self).next_id() + 1
                &&& r->Ok_0.frame_id() == old(self).next_id()
                &&& r->Ok_0.passes() == Seq::<Pass>::empty()
                &&& !r->Ok_0.pass_open()
            },
            acquired is Lost ==> r == Err::<FrameTransaction, AcquireError>(
                AcquireError::SurfaceLost,
            ) && *final(self) == *old(self),
            acquired is OutOfMemory ==> r == Err::<FrameTransaction, AcquireError>(
                AcquireError::OutOfMemory,
            ) && *final(self) == *old(self),
            forall|code: u32|
                acquired == AcquireOutcome::Other(code) ==> r == Err::<
                    FrameTransaction,
                    AcquireError,
                >(AcquireError::Other(code)) && *final(self) == *old(self),
    {
        match acquired {
            AcquireOutcome::Acquired => {
                let id: u64 = self.next_frame_id;
                self.next_frame_id = id + 1;
                self.in_flight = true;
                Ok(FrameTransaction { frame_id: id, passes: Vec::new(), pass_open: false })
            },
            AcquireOutcome::Lost => Err(AcquireError::SurfaceLost),
            AcquireOutcome::OutOfMemory => Err(AcquireError::OutOfMemory),
            AcquireOutcome::Other(code) => Err(AcquireError::Other(code)),
        }
    }
}

impl FrameTransaction {
    /// Identity of the frame this transaction belongs to.
    pub closed spec fn frame_id(&self) -> u64 {
        self.frame_id
    }

    /// The passes recorded so far, in order.
    pub closed spec fn passes(&self) -> Seq<Pass> {
        self.passes@
    }

    /// Whether a pass is currently open.
    pub closed spec fn pass_open(&self) -> bool {
        self.pass_open
    }

    /// The recorded passes always obey the load/clear discipline, and
    /// an open pass is the last recorded one.
    pub open spec fn wf(&self) -> bool {
        &&& well_composed(self.passes())
        &&& (self.pass_open() ==> self.passes().len() > 0)
    }

    /// Whether a pass is currently open.
    pub fn is_pass_open(&self) -> (r: bool)
        ensures
            r == self.pass_open(),
    {
        self.pass_open
    }

    /// The recorded passes, for replay against the device.
    pub fn pass_list(&self) -> (r: &Vec<Pass>)
        ensures
            r@ == self.passes(),
    {
        &self.passes
    }

    /// Open the frame's next render pass with the requested load
    /// operation. Passes are strictly sequential: at most one may be
    /// open. The first pass must clear (defining the frame's
    /// background); every later pass must load (preserving the output
    /// of the passes before it). A request that breaks the protocol is
    /// refused exactly as stated and changes nothing.
    pub fn begin_pass(&mut self, load: LoadOp) -> (r: Result<(), ProtocolError>)
        requires
            old(self).wf(),
        ensures
            final(self).wf(),
            final(self).frame_id() == old(self).frame_id(),
            old(self).pass_open() ==> r == Err::<(), ProtocolError>(ProtocolError::PassStillOpen)
                && *final(self) == *old(self),
            !old(self).pass_open() && old(self).passes().len() == 0 && !(load is Clear) ==> r
                == Err::<(), ProtocolError>(ProtocolError::FirstPassMustClear) && *final(self)
                == *old(self),
            !old(self).pass_open() && old(self).passes().len() > 0 && !(load is Load) ==> r
                == Err::<(), ProtocolError>(ProtocolError::LaterPassMustLoad) && *final(self)
                == *old(self),
            ({
                ||| (old(self).passes().len() == 0 && load is Clear)
                ||| (old(self).passes().len() > 0 && load is Load)
            }) && !old(self).pass_open() ==> {
                &&& r is Ok
                &&& final(self).pass_open()
                &&& final(self).passes().len() == old(self).passes().len() + 1
                &&& final(self).passes().drop_last() == old(self).passes()
                &&& final(self).passes().last().load == load
                &&& final(self).passes().last().draws@ == Seq::<Draw>::empty()
            },
    {
        if self.pass_open {
            return Err(ProtocolError::PassStillOpen);
        }
        let first = self.passes.len() == 0;
        match load {
            LoadOp::Clear(_) => {
                if !first {
                    return Err(ProtocolError::LaterPassMustLoad);
                }
            },
            LoadOp::Load => {
                if first {
                    return Err(ProtocolError::FirstPassMustClear);
                }
            },
        }
        self.passes.push(Pass { load, draws: Vec::new() });
        self.pass_open = true;
        Ok(())
    }

    /// Issue a draw into the open pass. Refused, with nothing changed,
    /// when no pass is open.
    pub fn push_draw(&mut self, draw: Draw) -> (r: Result<(), ProtocolError>)
        requires
            old(self).wf(),
        ensures
            final(self).wf(),
            final(self).frame_id() == old(self).frame_id(),
            final(self).pass_open() == old(self).pass_open(),
            !old(self).pass_open() ==> r == Err::<(), ProtocolError>(ProtocolError::NoPassOpen)
                && *final(self) == *old(self),
            old(self).pass_open() ==> {
                &&& r is Ok
                &&& final(self).passes().len() == old(self).passes().len()
                &&& final(self).passes().drop_last() == old(self).passes().drop_last()
                &&& final(self).passes().last().load == old(self).passes().last().load
                &&& final(self).passes().last().draws@ == old(self).passes().last().draws@.push(
                    draw,
                )
            },
    {
        if !self.pass_open {
            return Err(ProtocolError::NoPassOpen);
        }
        let mut last = self.passes.pop().unwrap();
        last.draws.push(draw);
        self.passes.push(last);
        proof {
            assert(self.passes@.drop_last() =~= old(self).passes().drop_last());
            assert forall|k: int| 1 <= k < self.passes@.len() implies self.passes@[k].load
                is Load by {
                assert(old(self).passes()[k].load is Load);
            }
        }
        Ok(())
    }

    /// Close the open pass before returning control between renderers.
    /// Refused, with nothing changed, when no pass is open.
    pub fn end_pass(&mut self) -> (r: Result<(), ProtocolError>)
        requires
            old(self).wf(),
        ensures
            final(self).wf(),
            final(self).frame_id() == old(self).frame_id(),
            final(self).passes() == old(self).passes(),
            !old(self).pass_open() ==> r == Err::<(), ProtocolError>(ProtocolError::NoPassOpen)
                && *final(self) == *old(self),
            old(self).pass_open() ==> r is Ok && !final(self).pass_open(),
    {
        if !self.pass_open {
            return Err(ProtocolError::NoPassOpen);
        }
        self.pass_open = false;
        Ok(())
    }

    /// Finish the frame and present it. Consuming `self` makes a second
    /// finish of the same frame impossible at the type level. The
    /// caller must perform the returned steps in their order: seal
    /// uploads, submit the commands exactly once, schedule the
    /// reclaim, drain the task runner; the frame counter is updated
    /// here, after all of the frame's recorded work, and the context is
    /// free to begin the next frame.
    pub fn finish_and_present(self, ctx: &mut DeviceContext) -> (steps: Vec<FinishStep>)
        requires
            old(ctx).wf(),
            old(ctx).frame_in_flight(),
            self.frame_id() == old(ctx).active_id(),
            !self.pass_open(),
            old(ctx).counter().count() < u64::MAX,
        ensures
            final(ctx).wf(),
            !final(ctx).frame_in_flight(),
            final(ctx).surface_size() == old(ctx).surface_size(),
            final(ctx).next_id() == old(ctx).next_id(),
            final(ctx).counter().model() == counter_step(
                old(ctx).counter().model(),
                final(ctx).counter().last_nanos(),
            ),
            steps@ == finish_steps(),
    {
        let mut steps: Vec<FinishStep> = Vec::new();
        steps.push(FinishStep::SealUploads);
        steps.push(FinishStep::SubmitCommands);
        steps.push(FinishStep::ScheduleReclaim);
        steps.push(FinishStep::DrainExecutor);
        ctx.in_flight = false;
        ctx.frame_counter.frame_presented();
        proof {
            assert(steps@ =~= finish_steps());
        }
        steps
    }
}

} // verus!
