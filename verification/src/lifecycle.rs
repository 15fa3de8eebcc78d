//! The life of a channel as a sequence of events, and what holds of every
//! such sequence.

use crate::channel::ChannelView;
use crate::model::{Member, Message, MessageUpdate};
use crate::surface::SurfaceOpView;
use vstd::prelude::*;

verus! {

/// An operation that the application asks of the surface of a channel.
pub enum Call {
    AddMessage(Message, bool),
    RemoveMessage(u64),
    UpdateMessage(MessageUpdate),
    Redraw(Seq<u64>),
    AddBulkMessages(Seq<Message>),
    AddMembers(Seq<Member>),
}

impl Call {
    /// What the host is told when the call goes through.
    pub open spec fn op(self) -> SurfaceOpView {
        match self {
            Call::AddMessage(msg, notify) => SurfaceOpView::AddMessage(msg, notify),
            Call::RemoveMessage(id) => SurfaceOpView::RemoveMessage(id),
            Call::UpdateMessage(update) => SurfaceOpView::UpdateMessage(update),
            Call::Redraw(ignored) => SurfaceOpView::Redraw(ignored),
            Call::AddBulkMessages(msgs) => SurfaceOpView::AddBulkMessages(msgs),
            Call::AddMembers(members) => SurfaceOpView::AddMembers(members),
        }
    }
}

/// What can happen to a channel. Each event is what one operation of
/// `Channel` does to the channel.
pub enum Event {
    /// A handle is cloned: `clone_handle`.
    CloneHandle,
    /// A handle is dropped: `drop_handle`.
    DropHandle,
    /// The host reports that it closed the buffer: `set_closed`.
    SetClosed,
    /// A bulk load starts to hold the state: `begin_history`, where it
    /// succeeds.
    BeginLoad,
    /// A bulk load lets go of the state: the first half of `apply_history`.
    EndLoad,
    /// The application asks something of the surface: `add_message` and the
    /// like, and the second half of a bulk load that has something to
    /// apply.
    Call(Call),
}

/// The channel after an event, and what the host is told on it.
pub open spec fn step(c: ChannelView, e: Event) -> (ChannelView, Option<SurfaceOpView>) {
    match e {
        Event::CloneHandle => (c.clone_handle(), None),
        Event::DropHandle => c.drop_handle(),
        Event::SetClosed => (c.set_closed(), None),
        Event::BeginLoad => (c.begin_load(), None),
        Event::EndLoad => (c.end_load(), None),
        Event::Call(call) => (c, c.state.forward(call.op())),
    }
}

/// The channel after a sequence of events.
pub open spec fn after(c: ChannelView, trace: Seq<Event>) -> ChannelView
    decreases trace.len(),
{
    if trace.len() == 0 {
        c
    } else {
        after(step(c, trace[0]).0, trace.drop_first())
    }
}

/// How many operations the host is told over a sequence of events.
pub open spec fn issued_count(c: ChannelView, trace: Seq<Event>) -> nat
    decreases trace.len(),
{
    if trace.len() == 0 {
        0
    } else {
        let (next, op) = step(c, trace[0]);
        (if op is Some { 1nat } else { 0nat }) + issued_count(next, trace.drop_first())
    }
}

/// How often the host is told to close the buffer over a sequence of
/// events.
pub open spec fn close_count(c: ChannelView, trace: Seq<Event>) -> nat
    decreases trace.len(),
{
    if trace.len() == 0 {
        0
    } else {
        let (next, op) = step(c, trace[0]);
        (if op == Some(SurfaceOpView::Close) { 1nat } else { 0nat }) + close_count(
            next,
            trace.drop_first(),
        )
    }
}

/// How often, over a sequence of events, the host reports that it closed a
/// buffer that the surface still had.
pub open spec fn host_closures(c: ChannelView, trace: Seq<Event>) -> nat
    decreases trace.len(),
{
    if trace.len() == 0 {
        0
    } else {
        (if trace[0] is SetClosed && c.state.attached { 1nat } else { 0nat }) + host_closures(
            step(c, trace[0]).0,
            trace.drop_first(),
        )
    }
}

/// The events of a sequence of calls.
pub open spec fn calls(calls: Seq<Call>) -> Seq<Event> {
    calls.map_values(|call: Call| Event::Call(call))
}

/// No event makes a sound channel unsound.
pub proof fn lemma_step_keeps_wf(c: ChannelView, e: Event)
    requires
        c.wf(),
    ensures
        step(c, e).0.wf(),
{
}

/// No sequence of events makes a sound channel unsound.
pub proof fn lemma_trace_keeps_wf(c: ChannelView, trace: Seq<Event>)
    requires
        c.wf(),
    ensures
        after(c, trace).wf(),
    decreases trace.len(),
{
    if trace.len() > 0 {
        lemma_step_keeps_wf(c, trace[0]);
        lemma_trace_keeps_wf(step(c, trace[0]).0, trace.drop_first());
    }
}

/// The identity of a channel is fixed: no sequence of events changes its
/// id, its guild, the number of messages that it loads, the kind of its
/// surface or the setup of its buffer.
pub proof fn law_identity_is_fixed(c: ChannelView, trace: Seq<Event>)
    ensures
        after(c, trace).id == c.id,
        after(c, trace).guild_id == c.guild_id,
        after(c, trace).fetch_count == c.fetch_count,
        after(c, trace).state.guild == c.state.guild,
        after(c, trace).state.setup == c.state.setup,
    decreases trace.len(),
{
    if trace.len() > 0 {
        law_identity_is_fixed(step(c, trace[0]).0, trace.drop_first());
    }
}

/// A surface that has let go of its buffer never gets it back: whatever
/// happens to the channel from then on, the host is told nothing, and in
/// particular is never told to close the buffer. A closed channel stays
/// closed.
pub proof fn law_detached_is_final(c: ChannelView, trace: Seq<Event>)
    requires
        !c.state.attached,
    ensures
        !after(c, trace).state.attached,
        c.state.closed ==> after(c, trace).state.closed,
        issued_count(c, trace) == 0,
        close_count(c, trace) == 0,
        host_closures(c, trace) == 0,
    decreases trace.len(),
{
    if trace.len() > 0 {
        law_detached_is_final(step(c, trace[0]).0, trace.drop_first());
    }
}

/// After `set_closed`, whether or not a bulk load made it skip the flag,
/// any sequence of calls on the surface leaves the channel as it is and
/// tells the host nothing.
pub proof fn law_calls_after_set_closed(c: ChannelView, live: Seq<Call>)
    ensures
        after(c.set_closed(), calls(live)) == c.set_closed(),
        issued_count(c.set_closed(), calls(live)) == 0,
    decreases live.len(),
{
    let closed = c.set_closed();
    law_detached_is_final(closed, calls(live));
    if live.len() > 0 {
        assert(calls(live).drop_first() =~= calls(live.drop_first()));
        assert(step(closed, calls(live)[0]).0 == closed);
        assert(closed == closed.set_closed());
        law_calls_after_set_closed(closed, live.drop_first());
    }
}

/// The buffer of a channel is closed once and no more. Over any sequence
/// of events on a sound channel whose surface has its buffer, the closures
/// that the host reports and the orders to close the buffer add up to one
/// if the surface has let go of the buffer in the end, and to none if it
/// still has it: the buffer is never closed from both sides, nor twice from
/// either. A channel that no handle shares any more is closed.
pub proof fn law_closed_exactly_once(c: ChannelView, trace: Seq<Event>)
    requires
        c.wf(),
        c.state.attached,
    ensures
        close_count(c, trace) + host_closures(c, trace) == (if after(c, trace).state.attached {
            0nat
        } else {
            1nat
        }),
        after(c, trace).handles == 0 ==> after(c, trace).state.closed,
        after(c, trace).state.closed ==> !after(c, trace).state.attached,
    decreases trace.len(),
{
    lemma_trace_keeps_wf(c, trace);
    if trace.len() > 0 {
        let next = step(c, trace[0]).0;
        lemma_step_keeps_wf(c, trace[0]);
        if next.state.attached {
            law_closed_exactly_once(next, trace.drop_first());
        } else {
            law_detached_is_final(next, trace.drop_first());
        }
    }
}

/// Where the host never reports a closure, the buffer is ordered closed
/// exactly once by the time the last handle is gone.
pub proof fn law_drop_closes_once(c: ChannelView, trace: Seq<Event>)
    requires
        c.wf(),
        c.state.attached,
        forall|i: int| 0 <= i < trace.len() ==> !(trace[i] is SetClosed),
        after(c, trace).handles == 0,
    ensures
        close_count(c, trace) == 1,
{
    law_closed_exactly_once(c, trace);
    lemma_no_report_no_host_closure(c, trace);
}

/// Once the host has reported the closure, the buffer is never ordered
/// closed, whatever comes after, the end of the last handle included.
pub proof fn law_host_closure_needs_no_order(c: ChannelView, trace: Seq<Event>)
    ensures
        close_count(c.set_closed(), trace) == 0,
{
    law_detached_is_final(c.set_closed(), trace);
}

proof fn lemma_no_report_no_host_closure(c: ChannelView, trace: Seq<Event>)
    requires
        forall|i: int| 0 <= i < trace.len() ==> !(trace[i] is SetClosed),
    ensures
        host_closures(c, trace) == 0,
    decreases trace.len(),
{
    if trace.len() > 0 {
        let rest = trace.drop_first();
        assert forall|i: int| 0 <= i < rest.len() implies !(rest[i] is SetClosed) by {
            assert(rest[i] == trace[i + 1]);
        }
        lemma_no_report_no_host_closure(step(c, trace[0]).0, rest);
    }
}

} // verus!
