//! A buffer that holds events until a sink is attached, then passes them on.

use vstd::prelude::*;

verus! {

/// Events raised before a sink is attached are queued; once attached, each
/// raised event is handed straight back to be delivered.
pub enum EventBuffer<E> {
    Buffering(Vec<E>),
    Attached,
}

/// The queue of a buffer that has no sink yet, or `None` once one is attached.
pub open spec fn raise<E>(state: Option<Seq<E>>, e: E) -> Option<Seq<E>> {
    match state {
        Some(q) => Some(q.push(e)),
        None => None,
    }
}

/// The state after raising each of `es` in turn.
pub open spec fn raise_all<E>(state: Option<Seq<E>>, es: Seq<E>) -> Option<Seq<E>>
    decreases es.len(),
{
    if es.len() == 0 {
        state
    } else {
        raise(raise_all(state, es.drop_last()), es.last())
    }
}

/// What attaching a sink hands out: the queue, or nothing if one was attached.
pub open spec fn flush_of<E>(state: Option<Seq<E>>) -> Seq<E> {
    match state {
        Some(q) => q,
        None => Seq::empty(),
    }
}

impl<E> EventBuffer<E> {
    pub open spec fn queue(&self) -> Option<Seq<E>> {
        match self {
            EventBuffer::Buffering(q) => Some(q@),
            EventBuffer::Attached => None,
        }
    }

    pub fn new() -> (r: Self)
        ensures
            r.queue() == Some(Seq::<E>::empty()),
    {
        EventBuffer::Buffering(Vec::new())
    }

    pub fn is_attached(&self) -> (r: bool)
        ensures
            r == self.queue().is_none(),
    {
        match self {
            EventBuffer::Buffering(_) => false,
            EventBuffer::Attached => true,
        }
    }

    /// Raises `e`: queued while no sink is attached, else returned for delivery.
    pub fn callback(&mut self, e: E) -> (deliver: Option<E>)
        ensures
            final(self).queue() == raise(old(self).queue(), e),
            deliver == (if old(self).queue().is_some() { None } else { Some(e) }),
    {
        match self {
            EventBuffer::Buffering(q) => {
                q.push(e);
                None
            },
            EventBuffer::Attached => Some(e),
        }
    }

    /// Attaches a sink: returns the queued events, in the order raised, for
    /// delivery before anything raised later.
    pub fn upgrade(&mut self) -> (flushed: Vec<E>)
        ensures
            final(self).queue().is_none(),
            flushed@ == flush_of(old(self).queue()),
    {
        let mut old_state = EventBuffer::Attached;
        core::mem::swap(self, &mut old_state);
        match old_state {
            EventBuffer::Buffering(q) => q,
            EventBuffer::Attached => Vec::new(),
        }
    }
}

/// Attaching a sink after the events `es` were raised on a fresh buffer
/// hands out exactly `es`, in the order raised; events raised after that are
/// never queued (each `callback` hands its event straight back).
pub proof fn lemma_attach_delivers_in_order<E>(es: Seq<E>, later: Seq<E>)
    ensures
        flush_of(raise_all(Some(Seq::<E>::empty()), es)) == es,
        raise_all(None, later) == None::<Seq<E>>,
{
    lemma_raise_all_queues_in_order(Seq::<E>::empty(), es);
    lemma_raise_all_queues_in_order(Seq::<E>::empty(), later);
    assert(Seq::<E>::empty() + es =~= es);
}

/// Raising events one after another on a buffer without a sink queues exactly
/// those events, in the order raised; once a sink is attached nothing is queued.
pub proof fn lemma_raise_all_queues_in_order<E>(q: Seq<E>, es: Seq<E>)
    ensures
        raise_all(Some(q), es) == Some(q + es),
        raise_all(None, es) == None::<Seq<E>>,
    decreases es.len(),
{
    if es.len() > 0 {
        lemma_raise_all_queues_in_order(q, es.drop_last());
        assert(q + es.drop_last() + seq![es.last()] =~= q + es);
    } else {
        assert(q + es =~= q);
    }
}

} // verus!
