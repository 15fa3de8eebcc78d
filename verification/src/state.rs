//! The record that a channel guards: its surface and the flag that says
//! whether the channel has been closed.

use crate::surface::{
    deliver, issued, BufferSetupView, ChannelBufferVariants, SurfaceOp, SurfaceOpView,
};
use vstd::prelude::*;

verus! {

/// What a channel state holds, as a mathematical value.
pub struct StateView {
    /// Whether the surface is that of a guild channel.
    pub guild: bool,
    pub setup: BufferSetupView,
    /// Whether the surface still has its host buffer.
    pub attached: bool,
    /// Whether the channel has been closed. No step leaves this state.
    pub closed: bool,
}

impl StateView {
    /// A state is sound when a closed channel has let go of its host
    /// buffer.
    pub open spec fn wf(self) -> bool {
        self.closed ==> !self.attached
    }

    /// What becomes of an operation on the surface: a closed channel drops
    /// it, and so does a surface without its buffer.
    pub open spec fn forward(self, op: SurfaceOpView) -> Option<SurfaceOpView> {
        if self.closed {
            None
        } else {
            deliver(self.attached, op)
        }
    }

    /// The host has closed the buffer itself: the surface lets go of it.
    pub open spec fn detach(self) -> StateView {
        StateView { attached: false, ..self }
    }

    /// The host has closed the buffer itself, and the channel records it.
    pub open spec fn set_closed(self) -> StateView {
        StateView { closed: true, attached: false, ..self }
    }

    /// The end of the state: a channel that is still open closes its
    /// surface; one that was closed before does nothing.
    pub open spec fn teardown(self) -> (StateView, Option<SurfaceOpView>) {
        if self.closed {
            (self, None)
        } else {
            (
                StateView { closed: true, attached: false, ..self },
                deliver(self.attached, SurfaceOpView::Close),
            )
        }
    }
}

/// The state of one channel.
#[derive(Debug, PartialEq, Eq)]
pub struct ChannelInner {
    buffer: ChannelBufferVariants,
    closed: bool,
}

impl View for ChannelInner {
    type V = StateView;

    closed spec fn view(&self) -> StateView {
        StateView {
            guild: self.buffer.is_guild(),
            setup: self.buffer.setup_view(),
            attached: self.buffer.attached(),
            closed: self.closed,
        }
    }
}

impl ChannelInner {
    /// The state of a channel that has just been created: open.
    pub fn new(buffer: ChannelBufferVariants) -> (r: Self)
        ensures
            r@ == (StateView {
                guild: buffer.is_guild(),
                setup: buffer.setup_view(),
                attached: buffer.attached(),
                closed: false,
            }),
            r@.wf(),
    {
        ChannelInner { buffer, closed: false }
    }

    pub fn is_closed(&self) -> (r: bool)
        ensures
            r == self@.closed,
    {
        self.closed
    }

    /// The surface of the channel.
    pub fn buffer(&self) -> (r: &ChannelBufferVariants)
        ensures
            r.is_guild() == self@.guild,
            r.setup_view() == self@.setup,
            r.attached() == self@.attached,
    {
        &self.buffer
    }

    /// The host has closed the buffer: the surface lets go of it, without
    /// any order to the host. The closed flag stays as it is.
    pub fn detach(&mut self)
        ensures
            final(self)@ == old(self)@.detach(),
            old(self)@.wf() ==> final(self)@.wf(),
    {
        self.buffer.detach();
    }

    /// The host has closed the buffer: the surface lets go of it, without
    /// any order to the host, and the channel is closed.
    pub fn set_closed(&mut self)
        ensures
            final(self)@ == old(self)@.set_closed(),
            final(self)@.wf(),
    {
        self.buffer.detach();
        self.closed = true;
    }

    /// Ends the state: closes the surface unless the channel was closed
    /// before, and leaves the channel closed.
    pub fn teardown(&mut self) -> (r: Option<SurfaceOp>)
        ensures
            (final(self)@, issued(r)) == old(self)@.teardown(),
            old(self)@.wf() ==> final(self)@.wf(),
    {
        if self.closed {
            return None;
        }
        let r = self.buffer.close();
        self.closed = true;
        r
    }
}

} // verus!
