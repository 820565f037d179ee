use vstd::prelude::*;

use crate::event::PluginIssuedEvent;

verus! {

/// Fixed-capacity single-producer/single-consumer channel of plugin
/// notifications, backed by a lock-free ring buffer. `try_push` never
/// blocks: an event offered to a full channel is dropped, an accepted
/// tradeoff for advisory notification traffic.
#[verifier::external_body]
pub struct EventChannel {
    inner: ringbuf::HeapRb<PluginIssuedEvent>,
}

/// What the channel currently holds, oldest first.
pub uninterp spec fn channel_contents(ch: EventChannel) -> Seq<PluginIssuedEvent>;

/// The fixed capacity the channel was created with.
pub uninterp spec fn channel_capacity(ch: EventChannel) -> usize;

impl EventChannel {
    /// Relies on ringbuf::HeapRb::new: a new ring buffer with the given
    /// capacity holds nothing. The constructor panics at capacity zero,
    /// which the precondition rules out.
    #[verifier::external_body]
    fn new_raw(capacity: usize) -> (r: EventChannel)
        requires
            capacity >= 1,
        ensures
            channel_contents(r) == Seq::<PluginIssuedEvent>::empty(),
            channel_capacity(r) == capacity,
    {
        EventChannel { inner: ringbuf::HeapRb::new(capacity) }
    }

    /// Relies on ringbuf::SharedRb::try_push (through the Producer
    /// trait): an owned ring buffer with free space appends the item at
    /// the back; a full one returns it unchanged.
    #[verifier::external_body]
    fn try_push_raw(&mut self, event: PluginIssuedEvent) -> (pushed: bool)
        ensures
            channel_capacity(*final(self)) == channel_capacity(*old(self)),
            channel_contents(*old(self)).len() < channel_capacity(*old(self)) ==> pushed
                && channel_contents(*final(self))
                    == channel_contents(*old(self)).push(event),
            channel_contents(*old(self)).len() >= channel_capacity(*old(self)) ==> !pushed
                && channel_contents(*final(self)) == channel_contents(*old(self)),
    {
        ringbuf::traits::Producer::try_push(&mut self.inner, event).is_ok()
    }

    /// Relies on ringbuf::SharedRb::try_pop (through the Consumer
    /// trait): an owned non-empty ring buffer removes and returns the
    /// eldest item; an empty one returns nothing.
    #[verifier::external_body]
    fn try_pop_raw(&mut self) -> (r: Option<PluginIssuedEvent>)
        ensures
            channel_capacity(*final(self)) == channel_capacity(*old(self)),
            channel_contents(*old(self)).len() > 0 ==> r == Some(
                channel_contents(*old(self)).first())
                && channel_contents(*final(self))
                    == channel_contents(*old(self)).drop_first(),
            channel_contents(*old(self)).len() == 0 ==> r is None
                && channel_contents(*final(self)) == channel_contents(*old(self)),
    {
        ringbuf::traits::Consumer::try_pop(&mut self.inner)
    }

    /// Relies on ringbuf::SharedRb::occupied_len (through the Observer
    /// trait): on an owned ring buffer, the number of items held.
    #[verifier::external_body]
    fn len_raw(&self) -> (r: usize)
        ensures
            r == channel_contents(*self).len(),
    {
        ringbuf::traits::Observer::occupied_len(&self.inner)
    }

    /// Creates a channel with room for `capacity` events.
    pub fn new(capacity: usize) -> (r: EventChannel)
        requires
            capacity >= 1,
        ensures
            channel_contents(r) == Seq::<PluginIssuedEvent>::empty(),
            channel_capacity(r) == capacity,
    {
        EventChannel::new_raw(capacity)
    }

    /// Offers one event; a full channel drops it and reports `false`.
    pub fn try_push(&mut self, event: PluginIssuedEvent) -> (pushed: bool)
        ensures
            channel_capacity(*final(self)) == channel_capacity(*old(self)),
            pushed == (channel_contents(*old(self)).len()
                < channel_capacity(*old(self))),
            pushed ==> channel_contents(*final(self))
                == channel_contents(*old(self)).push(event),
            !pushed ==> channel_contents(*final(self)) == channel_contents(*old(self)),
    {
        self.try_push_raw(event)
    }

    /// Removes and returns the oldest event, if any.
    pub fn try_pop(&mut self) -> (r: Option<PluginIssuedEvent>)
        ensures
            channel_capacity(*final(self)) == channel_capacity(*old(self)),
            channel_contents(*old(self)).len() > 0 ==> r == Some(
                channel_contents(*old(self)).first())
                && channel_contents(*final(self))
                    == channel_contents(*old(self)).drop_first(),
            channel_contents(*old(self)).len() == 0 ==> r is None
                && channel_contents(*final(self)) == channel_contents(*old(self)),
    {
        self.try_pop_raw()
    }

    /// Number of events currently queued.
    pub fn len(&self) -> (r: usize)
        ensures
            r == channel_contents(*self).len(),
    {
        self.len_raw()
    }

    /// Offers each event of `events` in turn, dropping those that find
    /// the channel full.
    pub fn push_all(&mut self, events: &Vec<PluginIssuedEvent>)
        ensures
            channel_capacity(*final(self)) == channel_capacity(*old(self)),
            channel_contents(*final(self)) == offer_all(
                channel_contents(*old(self)), events@, channel_capacity(*old(self))),
    {
        let n = events.len();
        let mut i: usize = 0;
        proof {
            assert(events@.skip(0) =~= events@);
        }
        while i < n
            invariant
                n == events@.len(),
                i <= n,
                channel_capacity(*self) == channel_capacity(*old(self)),
                offer_all(channel_contents(*self), events@.skip(i as int),
                    channel_capacity(*self))
                    == offer_all(channel_contents(*old(self)), events@,
                        channel_capacity(*old(self))),
            decreases n - i,
        {
            proof {
                assert(events@.skip(i as int).first() == events@[i as int]);
                assert(events@.skip(i as int).drop_first() =~= events@.skip(i + 1));
            }
            let _ = self.try_push(events[i]);
            i = i + 1;
        }
        proof {
            assert(events@.skip(n as int) =~= Seq::<PluginIssuedEvent>::empty());
        }
    }
}

/// Contents of a channel of capacity `cap` holding `contents` after each
/// event of `incoming` is offered in turn: an event is kept only when
/// there is room the moment it arrives.
pub open spec fn offer_all(
    contents: Seq<PluginIssuedEvent>,
    incoming: Seq<PluginIssuedEvent>,
    cap: usize,
) -> Seq<PluginIssuedEvent>
    decreases incoming.len(),
{
    if incoming.len() == 0 {
        contents
    } else {
        let after = if contents.len() < cap {
            contents.push(incoming.first())
        } else {
            contents
        };
        offer_all(after, incoming.drop_first(), cap)
    }
}

/// Overflow law: a burst offered to the channel keeps the oldest events
/// that fit, in their arrival order, and drops only the newest excess;
/// the channel never holds more than its capacity.
pub proof fn lemma_offer_all_drops_newest(
    contents: Seq<PluginIssuedEvent>,
    incoming: Seq<PluginIssuedEvent>,
    cap: usize,
)
    requires
        contents.len() <= cap,
    ensures
        ({
            let room = cap - contents.len();
            let kept = if incoming.len() <= room { incoming.len() as int } else { room };
            &&& offer_all(contents, incoming, cap) == contents + incoming.take(kept)
            &&& offer_all(contents, incoming, cap).len() <= cap
        }),
    decreases incoming.len(),
{
    let room = cap - contents.len();
    let kept = if incoming.len() <= room { incoming.len() as int } else { room };
    if incoming.len() == 0 {
        assert(contents + incoming.take(0) =~= contents);
    } else if contents.len() < cap {
        let after = contents.push(incoming.first());
        lemma_offer_all_drops_newest(after, incoming.drop_first(), cap);
        let room2 = cap - after.len();
        let kept2 = if incoming.drop_first().len() <= room2 {
            incoming.drop_first().len() as int
        } else {
            room2
        };
        assert(after + incoming.drop_first().take(kept2) =~= contents + incoming.take(kept));
    } else {
        lemma_offer_all_drops_newest(contents, incoming.drop_first(), cap);
        assert(contents + incoming.drop_first().take(0) =~= contents + incoming.take(0));
    }
}

} // verus!
