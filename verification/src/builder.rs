//! Building a home room by room.
//!
//! A builder is in one of two stages, told apart by its type: before the
//! first room is added there is no room to put a device in, and only a
//! builder that has a room offers `add_device` and `build`.

use crate::homes::Home;
use crate::registry::NameMap;
use crate::rooms::Room;
use crate::SmartDevice;
use std::marker::PhantomData;
use vstd::prelude::*;

verus! {

/// A stage of building.
pub trait Stage {
    /// Whether a builder in this stage has a room to put devices in.
    spec fn has_room() -> bool;
}

/// The stage of a builder that has at least one room.
pub struct HomeWithRoom;

/// The stage of a builder that has no room yet.
pub struct HomeWithOutRoom;

impl Stage for HomeWithRoom {
    open spec fn has_room() -> bool {
        true
    }
}

impl Stage for HomeWithOutRoom {
    open spec fn has_room() -> bool {
        false
    }
}

/// A home in the making.
pub struct HomeBuilder<T: Stage> {
    name: String,
    rooms: NameMap<Room>,
    last_room: Option<String>,
    _marker: PhantomData<T>,
}

impl<T: Stage> HomeBuilder<T> {
    #[verifier::type_invariant]
    spec fn inv(self) -> bool {
        &&& T::has_room() ==> self.last_room is Some
        &&& self.last_room matches Some(name) ==> self.rooms@.contains_key(name@)
    }

    /// What the home will be called.
    pub closed spec fn name(&self) -> Seq<char> {
        self.name@
    }

    /// The rooms added so far, by name.
    pub closed spec fn rooms(&self) -> Map<Seq<char>, Room> {
        self.rooms@
    }

    /// The name of the room that was added last, if any was.
    pub closed spec fn last_room(&self) -> Option<Seq<char>> {
        match self.last_room {
            Some(name) => Some(name@),
            None => None,
        }
    }

    /// This builder with one more room, empty and called `name`. It takes
    /// the place of the room that had the name if there was one, and it is
    /// the room that the devices added next go into.
    pub fn add_room(self, name: &str) -> (builder: HomeBuilder<HomeWithRoom>)
        ensures
            builder.name() == self.name(),
            builder.last_room() == Some(name@),
            builder.rooms().dom() == self.rooms().dom().insert(name@),
            builder.rooms()[name@].devices() == Map::<Seq<char>, SmartDevice>::empty(),
            builder.rooms()[name@].notices() == Seq::<Seq<Seq<char>>>::empty(),
            forall|other: Seq<char>|
                self.rooms().contains_key(other) && other != name@ ==> builder.rooms()[other]
                    == self.rooms()[other],
    {
        let HomeBuilder { name: home_name, rooms, last_room: _, _marker: _ } = self;
        let mut rooms = rooms;
        rooms.insert(name.to_owned(), Room::default());
        HomeBuilder { name: home_name, rooms, last_room: Some(name.to_owned()), _marker: PhantomData }
    }
}

impl HomeBuilder<HomeWithOutRoom> {
    /// A builder for a home called `name`, with no room yet.
    pub fn new(name: &str) -> (builder: HomeBuilder<HomeWithOutRoom>)
        ensures
            builder.name() == name@,
            builder.rooms() == Map::<Seq<char>, Room>::empty(),
            builder.last_room() == None::<Seq<char>>,
    {
        HomeBuilder {
            name: name.to_owned(),
            rooms: NameMap::new(),
            last_room: None,
            _marker: PhantomData,
        }
    }
}

impl Default for HomeBuilder<HomeWithOutRoom> {
    /// A builder for a home with no name and no room yet.
    fn default() -> (builder: HomeBuilder<HomeWithOutRoom>)
        ensures
            builder.name() == Seq::<char>::empty(),
            builder.rooms() == Map::<Seq<char>, Room>::empty(),
            builder.last_room() == None::<Seq<char>>,
    {
        HomeBuilder {
            name: String::new(),
            rooms: NameMap::new(),
            last_room: None,
            _marker: PhantomData,
        }
    }
}

impl HomeBuilder<HomeWithRoom> {
    /// This builder with `device` put, under `name`, into the room that was
    /// added last. No other room changes.
    pub fn add_device(self, name: &str, device: SmartDevice) -> (builder: Self)
        ensures
            builder.name() == self.name(),
            builder.last_room() == self.last_room(),
            builder.rooms().dom() == self.rooms().dom(),
            self.last_room() matches Some(current) && {
                &&& self.rooms().contains_key(current)
                &&& builder.rooms()[current].devices() == self.rooms()[current].devices().insert(
                    name@,
                    device,
                )
                &&& builder.rooms()[current].notices() == Room::announced(
                    self.rooms()[current].notices(),
                    name@,
                )
                &&& forall|other: Seq<char>|
                    self.rooms().contains_key(other) && other != current ==> builder.rooms()[other]
                        == self.rooms()[other]
            },
    {
        proof {
            use_type_invariant(&self);
        }
        let HomeBuilder { name: home_name, rooms, last_room, _marker: _ } = self;
        let mut rooms = rooms;
        let current = last_room.unwrap();
        proof {
            assert(forall|room: Room| #[trigger]
                rooms@.insert(current@, room).dom() == rooms@.dom());
        }
        let room = rooms.get_mut(current.as_str()).unwrap();
        room.add_device(name, device);
        HomeBuilder { name: home_name, rooms, last_room: Some(current), _marker: PhantomData }
    }

    /// The home that was built.
    pub fn build(self) -> (home: Home)
        ensures
            home.name() == self.name(),
            home.rooms() == self.rooms(),
    {
        let HomeBuilder { name, rooms, last_room: _, _marker: _ } = self;
        Home::from_parts(name, rooms)
    }
}

} // verus!
