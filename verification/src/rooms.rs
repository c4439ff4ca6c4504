//! A room: the devices in it, by name, and the subscribers that hear of
//! every device added.

use crate::registry::collected;
use crate::registry::NameMap;
use crate::subscrib::Observer;
use crate::subscrib::Subscriber;
use crate::SmartDevice;
use vstd::prelude::*;

verus! {

/// A room of a home.
pub struct Room {
    devices: NameMap<SmartDevice>,
    subscribers: Vec<Observer>,
}

impl Room {
    /// The devices in the room, by name.
    pub closed spec fn devices(&self) -> Map<Seq<char>, SmartDevice> {
        self.devices@
    }

    /// For each subscriber, in the order in which they subscribed, the
    /// names it has been told so far, oldest first.
    pub closed spec fn notices(&self) -> Seq<Seq<Seq<char>>> {
        self.subscribers@.map_values(|observer: Observer| observer.told())
    }

    /// `notices` after every subscriber has been told `name`.
    pub open spec fn announced(notices: Seq<Seq<Seq<char>>>, name: Seq<char>) -> Seq<
        Seq<Seq<char>>,
    > {
        notices.map_values(|told: Seq<Seq<char>>| told.push(name))
    }

    /// A room has finitely many devices.
    pub proof fn lemma_finite(&self)
        ensures
            self.devices().dom().finite(),
    {
        self.devices.lemma_finite();
    }

    /// A room with the devices that `devices` lists, a later one replacing an
    /// earlier one of the same name, and with no subscriber.
    pub fn new_with_devices(devices: Vec<(String, SmartDevice)>) -> (room: Room)
        ensures
            room.devices() == collected(devices@),
            room.notices() == Seq::<Seq<Seq<char>>>::empty(),
    {
        Room { devices: NameMap::from_pairs(devices), subscribers: Vec::new() }
    }

    /// The device called `name`, if the room has one.
    pub fn get_device(&self, name: &str) -> (found: Option<&SmartDevice>)
        ensures
            match found {
                Some(device) => self.devices().contains_key(name@) && *device
                    == self.devices()[name@],
                None => !self.devices().contains_key(name@),
            },
    {
        self.devices.get(name)
    }

    /// The device called `name`, to be used or changed in place, if the room
    /// has one. Whatever the caller leaves there is the device called `name`
    /// afterwards; nothing else changes.
    pub fn get_device_mut(&mut self, name: &str) -> (found: Option<&mut SmartDevice>)
        ensures
            match found {
                Some(device) => {
                    &&& old(self).devices().contains_key(name@)
                    &&& *device == old(self).devices()[name@]
                    &&& final(self).devices() == old(self).devices().insert(name@, *final(device))
                    &&& final(self).notices() == old(self).notices()
                },
                None => !old(self).devices().contains_key(name@) && *final(self) == *old(self),
            },
    {
        self.devices.get_mut(name)
    }

    /// Puts `device` into the room under `name`, in place of the device that
    /// had the name if there was one, and then tells every subscriber the name.
    pub fn add_device(&mut self, name: &str, device: SmartDevice)
        ensures
            final(self).devices() == old(self).devices().insert(name@, device),
            old(self).devices().contains_key(name@) ==> final(self).devices().len() == old(
                self,
            ).devices().len(),
            !old(self).devices().contains_key(name@) ==> final(self).devices().len() == old(
                self,
            ).devices().len() + 1,
            final(self).notices() == Room::announced(old(self).notices(), name@),
    {
        self.devices.insert(name.to_owned(), device);
        let ghost inserted = self.devices@;
        let count: usize = self.subscribers.len();
        let mut i: usize = 0;
        while i < count
            invariant
                i <= count,
                count == self.subscribers@.len(),
                count == old(self).subscribers@.len(),
                self.devices@ == inserted,
                forall|k: int|
                    0 <= k < i ==> (#[trigger] self.subscribers@[k]).told() == old(
                        self,
                    ).subscribers@[k].told().push(name@),
                forall|k: int|
                    i <= k < count ==> (#[trigger] self.subscribers@[k]).told() == old(
                        self,
                    ).subscribers@[k].told(),
            decreases count - i,
        {
            self.subscribers[i].notify(name);
            i += 1;
        }
    }

    /// Takes the device called `name` out of the room; if there is none,
    /// nothing changes. No subscriber is told.
    pub fn remove_device(&mut self, name: &str)
        ensures
            final(self).devices() == old(self).devices().remove(name@),
            !old(self).devices().contains_key(name@) ==> final(self).devices() == old(
                self,
            ).devices(),
            final(self).notices() == old(self).notices(),
    {
        self.devices.remove(name);
    }

    /// Adds `observer` after the subscribers that the room has already. It
    /// will be told of every device added from now on.
    pub fn subscribe<S: Subscriber + 'static>(&mut self, observer: S)
        ensures
            final(self).devices() == old(self).devices(),
            final(self).notices() == old(self).notices().push(Seq::<Seq<char>>::empty()),
    {
        let observer = Observer::of(observer);
        self.subscribers.push(observer);
    }

    /// How many devices the room has.
    pub fn len(&self) -> (count: usize)
        ensures
            self.devices().dom().finite(),
            count == self.devices().len(),
    {
        self.devices.len()
    }

    /// Whether the room has no device.
    pub fn is_empty(&self) -> (empty: bool)
        ensures
            empty == (self.devices() == Map::<Seq<char>, SmartDevice>::empty()),
    {
        self.devices.is_empty()
    }

    /// How many subscribers the room has.
    pub fn subscriber_count(&self) -> (count: usize)
        ensures
            count == self.notices().len(),
    {
        self.subscribers.len()
    }

    /// Every device of the room with its name, each once, in no particular order.
    pub fn iter(&self) -> (all: Vec<(&String, &SmartDevice)>)
        ensures
            self.devices().dom().finite(),
            all@.len() == self.devices().len(),
            forall|i: int|
                0 <= i < all@.len() ==> self.devices().contains_key((#[trigger] all@[i]).0@)
                    && self.devices()[all@[i].0@] == *all@[i].1,
            forall|i: int, j: int|
                0 <= i < all@.len() && 0 <= j < all@.len() && i != j ==> all@[i].0@ != all@[j].0@,
    {
        self.devices.entries()
    }
}

impl Default for Room {
    /// A room with no device and no subscriber.
    fn default() -> (room: Room)
        ensures
            room.devices() == Map::<Seq<char>, SmartDevice>::empty(),
            room.notices() == Seq::<Seq<Seq<char>>>::empty(),
    {
        Room { devices: NameMap::new(), subscribers: Vec::new() }
    }
}

} // verus!
