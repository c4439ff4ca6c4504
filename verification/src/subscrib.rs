//! The hook by which a room tells the outside that a device was added.

use vstd::prelude::*;

verus! {

/// Someone who wants to hear of every device that is added to a room.
pub trait Subscriber {
    /// Called once for each added device, with the name it was added under.
    fn on_add(&mut self, name: &str);
}

/// A subscriber and the record of what it has been told. The subscriber
/// can be used through `notify` only, which makes the call and enters the
/// name; a room sits in another file and cannot reach past it.
pub(crate) struct Observer {
    subscriber: Box<dyn Subscriber>,
    told: Ghost<Seq<Seq<char>>>,
}

impl Observer {
    /// The names that the subscriber has been told so far, oldest first.
    pub closed spec fn told(&self) -> Seq<Seq<char>> {
        self.told@
    }

    /// `subscriber`, which has been told nothing yet.
    pub fn of<S: Subscriber + 'static>(subscriber: S) -> (observer: Observer)
        ensures
            observer.told() == Seq::<Seq<char>>::empty(),
    {
        Observer { subscriber: Box::new(subscriber), told: Ghost(Seq::empty()) }
    }

    /// Tells the subscriber `name` and enters it.
    pub fn notify(&mut self, name: &str)
        ensures
            final(self).told() == old(self).told().push(name@),
    {
        self.subscriber.on_add(name);
        self.told = Ghost(self.told@.push(name@));
    }
}

} // verus!
