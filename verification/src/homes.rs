//! A home: its name and the rooms in it, by name.

use crate::registry::collected;
use crate::registry::NameMap;
use crate::rooms::Room;
use crate::SmartDevice;
use crate::SmartHomeError;
use vstd::prelude::*;

verus! {

/// A home.
pub struct Home {
    pub name: String,
    rooms: NameMap<Room>,
}

impl Home {
    /// What the home is called.
    pub closed spec fn name(&self) -> Seq<char> {
        self.name@
    }

    /// The rooms of the home, by name.
    pub closed spec fn rooms(&self) -> Map<Seq<char>, Room> {
        self.rooms@
    }

    /// `after` is `before` but for one device: the one called `device_name`
    /// in the room called `room_name` is now `device`.
    pub open spec fn device_replaced(
        before: &Home,
        after: &Home,
        room_name: Seq<char>,
        device_name: Seq<char>,
        device: SmartDevice,
    ) -> bool {
        &&& after.name() == before.name()
        &&& after.rooms().dom() == before.rooms().dom()
        &&& forall|other: Seq<char>|
            before.rooms().contains_key(other) && other != room_name ==> after.rooms()[other]
                == before.rooms()[other]
        &&& after.rooms()[room_name].devices() == before.rooms()[room_name].devices().insert(
            device_name,
            device,
        )
        &&& after.rooms()[room_name].notices() == before.rooms()[room_name].notices()
    }

    /// A home has finitely many rooms.
    pub proof fn lemma_finite(&self)
        ensures
            self.rooms().dom().finite(),
    {
        self.rooms.lemma_finite();
    }

    /// A home called `name` with no room.
    pub fn new(name: &str) -> (home: Home)
        ensures
            home.name() == name@,
            home.rooms() == Map::<Seq<char>, Room>::empty(),
    {
        Home { name: name.to_owned(), rooms: NameMap::new() }
    }

    /// A home called `name` with the rooms that `rooms` lists, a later one
    /// replacing an earlier one of the same name.
    pub fn new_with_rooms(name: &str, rooms: Vec<(String, Room)>) -> (home: Home)
        ensures
            home.name() == name@,
            home.rooms() == collected(rooms@),
    {
        Home { name: name.to_owned(), rooms: NameMap::from_pairs(rooms) }
    }

    /// A home called `name` with the rooms of `rooms`.
    pub(crate) fn from_parts(name: String, rooms: NameMap<Room>) -> (home: Home)
        ensures
            home.name() == name@,
            home.rooms() == rooms@,
    {
        Home { name, rooms }
    }

    /// The room called `name`, if the home has one.
    pub fn get_room(&self, name: &str) -> (found: Option<&Room>)
        ensures
            match found {
                Some(room) => self.rooms().contains_key(name@) && *room == self.rooms()[name@],
                None => !self.rooms().contains_key(name@),
            },
    {
        self.rooms.get(name)
    }

    /// The room called `name`, to be changed in place, if the home has one.
    /// Whatever the caller leaves there is the room called `name`
    /// afterwards; nothing else changes.
    pub fn get_room_mut(&mut self, name: &str) -> (found: Option<&mut Room>)
        ensures
            match found {
                Some(room) => {
                    &&& old(self).rooms().contains_key(name@)
                    &&& *room == old(self).rooms()[name@]
                    &&& final(self).rooms() == old(self).rooms().insert(name@, *final(room))
                    &&& final(self).name() == old(self).name()
                },
                None => !old(self).rooms().contains_key(name@) && *final(self) == *old(self),
            },
    {
        self.rooms.get_mut(name)
    }

    /// Puts `room` into the home under `name`, in place of the room that had
    /// the name if there was one.
    pub fn add_room(&mut self, name: &str, room: Room)
        ensures
            final(self).rooms() == old(self).rooms().insert(name@, room),
            old(self).rooms().contains_key(name@) ==> final(self).rooms().len() == old(
                self,
            ).rooms().len(),
            !old(self).rooms().contains_key(name@) ==> final(self).rooms().len() == old(
                self,
            ).rooms().len() + 1,
            final(self).name() == old(self).name(),
    {
        self.rooms.insert(name.to_owned(), room);
    }

    /// Takes the room called `name` out of the home; if there is none,
    /// nothing changes.
    pub fn remove_room(&mut self, name: &str)
        ensures
            final(self).rooms() == old(self).rooms().remove(name@),
            !old(self).rooms().contains_key(name@) ==> final(self).rooms() == old(self).rooms(),
            final(self).name() == old(self).name(),
    {
        self.rooms.remove(name);
    }

    /// The device called `device_name` in the room called `room_name`, to be
    /// used or changed in place. The room is looked up first: if the home
    /// has no such room the error names the room, and only if it has one
    /// and the room has no such device the error names the device. A failed
    /// lookup changes nothing.
    pub fn get_device(&mut self, room_name: &str, device_name: &str) -> (found: Result<
        &mut SmartDevice,
        SmartHomeError,
    >)
        ensures
            match found {
                Ok(device) => {
                    &&& old(self).rooms().contains_key(room_name@)
                    &&& old(self).rooms()[room_name@].devices().contains_key(device_name@)
                    &&& *device == old(self).rooms()[room_name@].devices()[device_name@]
                    &&& Home::device_replaced(
                        old(self),
                        final(self),
                        room_name@,
                        device_name@,
                        *final(device),
                    )
                },
                Err(SmartHomeError::RoomNotFound(name)) => {
                    &&& !old(self).rooms().contains_key(room_name@)
                    &&& name@ == room_name@
                    &&& final(self).rooms() == old(self).rooms()
                    &&& final(self).name() == old(self).name()
                },
                Err(SmartHomeError::DeviceNotFound(name)) => {
                    &&& old(self).rooms().contains_key(room_name@)
                    &&& !old(self).rooms()[room_name@].devices().contains_key(device_name@)
                    &&& name@ == device_name@
                    &&& final(self).rooms() == old(self).rooms()
                    &&& final(self).name() == old(self).name()
                },
                Err(_) => false,
            },
    {
        proof {
            let rooms = self.rooms();
            assert(forall|room: Room|
                rooms.contains_key(room_name@) ==> #[trigger] rooms.insert(room_name@, room).dom()
                    == rooms.dom());
        }
        match self.rooms.get_mut(room_name) {
            Some(room) => match room.get_device_mut(device_name) {
                Some(device) => Ok(device),
                None => Err(SmartHomeError::DeviceNotFound(device_name.to_owned())),
            },
            None => Err(SmartHomeError::RoomNotFound(room_name.to_owned())),
        }
    }

    /// How many rooms the home has.
    pub fn len(&self) -> (count: usize)
        ensures
            self.rooms().dom().finite(),
            count == self.rooms().len(),
    {
        self.rooms.len()
    }

    /// Whether the home has no room.
    pub fn is_empty(&self) -> (empty: bool)
        ensures
            empty == (self.rooms() == Map::<Seq<char>, Room>::empty()),
    {
        self.rooms.is_empty()
    }

    /// Every room of the home with its name, each once, in no particular order.
    pub fn iter(&self) -> (all: Vec<(&String, &Room)>)
        ensures
            self.rooms().dom().finite(),
            all@.len() == self.rooms().len(),
            forall|i: int|
                0 <= i < all@.len() ==> self.rooms().contains_key((#[trigger] all@[i]).0@)
                    && self.rooms()[all@[i].0@] == *all@[i].1,
            forall|i: int, j: int|
                0 <= i < all@.len() && 0 <= j < all@.len() && i != j ==> all@[i].0@ != all@[j].0@,
    {
        self.rooms.entries()
    }
}

} // verus!
