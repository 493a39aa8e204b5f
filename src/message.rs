//! References to objects that the underlying library owns: messages and
//! events. A message built for transmission is owned by the caller until it
//! is transmitted or freed; a received message or an event is only borrowed.
use vstd::prelude::*;

verus! {

/// A message that the caller created for transmission. It is not `Clone`:
/// exactly one value owns the native object, and transmitting or freeing it
/// consumes that value.
#[derive(Debug)]
pub struct TxMessage {
    handle: usize,
}

/// A message handed out by a receive call. The library reclaims it; it can
/// be read but never freed.
#[derive(Debug, Clone, Copy, PartialEq, Eq, Structural)]
pub struct RxMessage {
    pub handle: usize,
}

/// A diagnostic event, per-device or global. Read-only; the library owns it.
#[derive(Debug, Clone, Copy, PartialEq, Eq, Structural)]
pub struct Event {
    pub handle: usize,
}

impl TxMessage {
    pub closed spec fn view(&self) -> usize {
        self.handle
    }

    /// The native reference, for the calls that fill in the message.
    pub fn handle(&self) -> (r: usize)
        ensures
            r == self@,
    {
        self.handle
    }

    /// Gives up ownership: the native reference, to be released by exactly
    /// one free or transmit call.
    pub fn into_handle(self) -> (r: usize)
        ensures
            r == self@,
    {
        self.handle
    }
}

/// The native references of a batch of messages, in order.
pub open spec fn tx_handles(msgs: Seq<TxMessage>) -> Seq<usize> {
    msgs.map_values(|m: TxMessage| m@)
}

/// The native references of a batch of received messages, in order.
pub open spec fn rx_handles(msgs: Seq<RxMessage>) -> Seq<usize> {
    msgs.map_values(|m: RxMessage| m.handle)
}

/// The native references of a batch of events, in order.
pub open spec fn event_handles(events: Seq<Event>) -> Seq<usize> {
    events.map_values(|e: Event| e.handle)
}

/// Owned messages for freshly created native ones.
pub fn own_created(handles: &Vec<usize>) -> (r: Vec<TxMessage>)
    ensures
        tx_handles(r@) == handles@,
{
    let mut out: Vec<TxMessage> = Vec::new();
    let mut i: usize = 0;
    while i < handles.len()
        invariant
            i <= handles@.len(),
            tx_handles(out@) == handles@.take(i as int),
        decreases handles@.len() - i,
    {
        let m = TxMessage { handle: handles[i] };
        proof {
            assert(tx_handles(out@.push(m)) =~= tx_handles(out@).push(m@));
            assert(handles@.take(i as int).push(handles@[i as int]) =~= handles@.take(i + 1));
        }
        out.push(m);
        i = i + 1;
    }
    proof {
        assert(handles@.take(handles@.len() as int) =~= handles@);
    }
    out
}

/// Releases ownership of a batch, giving the native references in order.
pub fn release_all(msgs: Vec<TxMessage>) -> (r: Vec<usize>)
    ensures
        r@ == tx_handles(msgs@),
{
    let mut out: Vec<usize> = Vec::new();
    let mut i: usize = 0;
    while i < msgs.len()
        invariant
            i <= msgs@.len(),
            out@ == tx_handles(msgs@.take(i as int)),
        decreases msgs@.len() - i,
    {
        let h = msgs[i].handle();
        proof {
            assert(tx_handles(msgs@.take(i + 1)) =~= tx_handles(msgs@.take(i as int)).push(h));
        }
        out.push(h);
        i = i + 1;
    }
    proof {
        assert(msgs@.take(msgs@.len() as int) =~= msgs@);
    }
    out
}

/// Borrowed references for received messages.
pub fn borrow_received(handles: &Vec<usize>) -> (r: Vec<RxMessage>)
    ensures
        rx_handles(r@) == handles@,
{
    let mut out: Vec<RxMessage> = Vec::new();
    let mut i: usize = 0;
    while i < handles.len()
        invariant
            i <= handles@.len(),
            rx_handles(out@) == handles@.take(i as int),
        decreases handles@.len() - i,
    {
        let m = RxMessage { handle: handles[i] };
        proof {
            assert(rx_handles(out@.push(m)) =~= rx_handles(out@).push(m.handle));
            assert(handles@.take(i as int).push(handles@[i as int]) =~= handles@.take(i + 1));
        }
        out.push(m);
        i = i + 1;
    }
    proof {
        assert(handles@.take(handles@.len() as int) =~= handles@);
    }
    out
}

/// Borrowed references for events.
pub fn borrow_events(handles: &Vec<usize>) -> (r: Vec<Event>)
    ensures
        event_handles(r@) == handles@,
{
    let mut out: Vec<Event> = Vec::new();
    let mut i: usize = 0;
    while i < handles.len()
        invariant
            i <= handles@.len(),
            event_handles(out@) == handles@.take(i as int),
        decreases handles@.len() - i,
    {
        let e = Event { handle: handles[i] };
        proof {
            assert(event_handles(out@.push(e)) =~= event_handles(out@).push(e.handle));
            assert(handles@.take(i as int).push(handles@[i as int]) =~= handles@.take(i + 1));
        }
        out.push(e);
        i = i + 1;
    }
    proof {
        assert(handles@.take(handles@.len() as int) =~= handles@);
    }
    out
}

} // verus!
