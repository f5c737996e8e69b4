//! The queue between the dispatch loop and the caller who waits for data.

use vstd::prelude::*;

verus! {

/// A queue of unbounded depth. The dispatch loop puts values in at the back,
/// in the order in which the host produced them; the caller takes them out.
/// A caller who never does lets the queue grow without limit.
pub struct DeliveryChannel<T> {
    queue: Vec<T>,
}

impl<T> View for DeliveryChannel<T> {
    type V = Seq<T>;

    /// What waits in the channel, oldest first.
    closed spec fn view(&self) -> Seq<T> {
        self.queue@
    }
}

impl<T> DeliveryChannel<T> {
    /// A channel in which nothing waits.
    pub fn new() -> (channel: DeliveryChannel<T>)
        ensures
            channel@ == Seq::<T>::empty(),
    {
        DeliveryChannel { queue: Vec::new() }
    }

    /// Puts `value` behind everything that waits.
    pub fn send(&mut self, value: T)
        ensures
            final(self)@ == old(self)@.push(value),
    {
        self.queue.push(value);
    }

    /// Whether anything waits. Nothing is taken out.
    pub fn has_data(&self) -> (waiting: bool)
        ensures
            waiting == (self@.len() > 0),
    {
        self.queue.len() > 0
    }

    /// The number of values that wait.
    pub fn len(&self) -> (n: usize)
        ensures
            n == self@.len(),
    {
        self.queue.len()
    }

    /// Takes the oldest value out.
    pub fn try_recv(&mut self) -> (value: Option<T>)
        ensures
            match value {
                Some(v) => {
                    &&& old(self)@.len() > 0
                    &&& v == old(self)@.first()
                    &&& final(self)@ == old(self)@.drop_first()
                },
                None => old(self)@.len() == 0 && final(self)@ == old(self)@,
            },
    {
        if self.queue.len() == 0 {
            None
        } else {
            let v = self.queue.remove(0);
            assert(self.queue@ =~= old(self).queue@.drop_first());
            Some(v)
        }
    }

    /// Empties the channel and keeps the newest value only: the one that was
    /// put in last. Returns nothing if nothing waited.
    pub fn recv_latest(&mut self) -> (value: Option<T>)
        ensures
            final(self)@ == Seq::<T>::empty(),
            match value {
                Some(v) => old(self)@.len() > 0 && v == old(self)@.last(),
                None => old(self)@.len() == 0,
            },
    {
        let latest = self.queue.pop();
        self.queue.clear();
        latest
    }
}

} // verus!
