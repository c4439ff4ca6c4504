use smart_home::devices::smartsocket::ReadWrite;
use smart_home::Home;
use smart_home::Room;
use smart_home::SmartDevice;
use smart_home::SmartHomeError;
use smart_home::SmartSocket;
use std::io::Cursor;
use std::io::Read;
use std::io::Write;

struct Stream(Cursor<Vec<u8>>);

impl ReadWrite for Stream {
    fn write_all(&mut self, buf: &[u8]) -> Result<(), std::io::Error> {
        self.0.write_all(buf)
    }

    fn read_exact(&mut self, buf: &mut [u8]) -> Result<(), std::io::Error> {
        self.0.read_exact(buf)
    }
}

fn socket() -> SmartSocket {
    SmartSocket::new(Stream(Cursor::new(Vec::new())))
}

#[test]
fn test_new_home() {
    let name = "My Home";
    let home = Home::new(name);
    assert_eq!(home.name, name);
    assert!(home.is_empty());
}

#[test]
fn test_new_home_with_rooms() {
    let name = "Test Home";
    let mut rooms = Vec::new();
    rooms.push(("Room 1".to_string(), Room::default()));
    rooms.push(("Room 2".to_string(), Room::default()));

    let home = Home::new_with_rooms(name, rooms);

    assert_eq!(home.name, name);
    assert_eq!(home.len(), 2);
    assert!(home.get_room("Room 1").is_some());
    assert!(home.get_room("Room 2").is_some());
}

#[test]
fn test_get_room() {
    let mut home = Home::new("Test Home");

    let result = home.get_room("Room 1");
    assert!(result.is_none());

    home.add_room("Room 1", Room::default());
    let result = home.get_room("Room 1");
    assert!(result.is_some());

    let result = home.get_room("Room 2");
    assert!(result.is_none());
}

#[test]
fn test_get_room_mut() {
    let mut home = Home::new("Test Home");

    let result = home.get_room_mut("Room 1");
    assert!(result.is_none());

    home.add_room("Room 1", Room::default());
    let result = home.get_room_mut("Room 1");
    assert!(result.is_some());

    let result = home.get_room_mut("Room 2");
    assert!(result.is_none());
}

#[test]
fn test_add_room() {
    let mut home = Home::new("Test Home");
    home.add_room("Room 1", Room::default());
    assert!(home.get_room("Room 1").is_some());

    home.add_room("Room 1", Room::default());
    assert_eq!(home.len(), 1);

    home.add_room("Room 2", Room::default());
    assert!(home.get_room("Room 2").is_some());
}

#[test]
fn test_remove_room() {
    let mut home = Home::new("Test Home");
    home.add_room("Room 1", Room::default());
    home.add_room("Room 2", Room::default());

    home.remove_room("Room 2");
    assert_eq!(home.len(), 1);
    assert!(home.get_room("Room 1").is_some());
    assert!(home.get_room("Room 2").is_none());
}

#[test]
fn homes_test_get_device() {
    let mut home = Home::new("Test Home");
    let mut room = Room::default();
    room.add_device("Device 1", SmartDevice::from(socket()));
    home.add_room("Room 1", room);

    let result = home.get_device("Room 1", "Device 1");
    assert!(result.is_ok());

    let result = home.get_device("Room 1", "Device 2");
    assert!(result.is_err());

    let result = home.get_device("Room 2", "Device 2");
    assert!(result.is_err());
}

#[test]
fn a_missing_room_is_reported_by_its_name() {
    let mut home = Home::new("Home");
    let mut room = Room::default();
    room.add_device("X", SmartDevice::from(socket()));
    home.add_room("Room1", room);

    match home.get_device("NoRoom", "X") {
        Err(SmartHomeError::RoomNotFound(name)) => assert_eq!(name, "NoRoom"),
        _ => panic!("expected RoomNotFound"),
    }
}

#[test]
fn a_missing_device_is_reported_by_its_name() {
    let mut home = Home::new("Home");
    let mut room = Room::default();
    room.add_device("X", SmartDevice::from(socket()));
    home.add_room("Room1", room);

    match home.get_device("Room1", "NoDevice") {
        Err(SmartHomeError::DeviceNotFound(name)) => assert_eq!(name, "NoDevice"),
        _ => panic!("expected DeviceNotFound"),
    }
}

#[test]
fn the_room_is_looked_up_before_the_device() {
    let mut home = Home::new("Home");
    home.add_room("Room1", Room::default());

    // Neither exists: the room is what is reported missing.
    match home.get_device("NoRoom", "NoDevice") {
        Err(SmartHomeError::RoomNotFound(name)) => assert_eq!(name, "NoRoom"),
        _ => panic!("expected RoomNotFound"),
    }
    // A device name is no room name.
    let mut room = Room::default();
    room.add_device("Shared", SmartDevice::from(socket()));
    home.add_room("Room2", room);
    match home.get_device("Shared", "Shared") {
        Err(SmartHomeError::RoomNotFound(name)) => assert_eq!(name, "Shared"),
        _ => panic!("expected RoomNotFound"),
    }
    match home.get_device("Room1", "Shared") {
        Err(SmartHomeError::DeviceNotFound(name)) => assert_eq!(name, "Shared"),
        _ => panic!("expected DeviceNotFound"),
    }
    assert!(matches!(home.get_device("Room2", "Shared"), Ok(SmartDevice::SmartSocket(_))));
}

#[test]
fn a_failed_lookup_leaves_the_home_as_it_was() {
    let mut home = Home::new("Home");
    let mut room = Room::default();
    room.add_device("X", SmartDevice::from(socket()));
    home.add_room("Room1", room);

    assert!(home.get_device("NoRoom", "X").is_err());
    assert!(home.get_device("Room1", "Y").is_err());
    assert_eq!(home.name, "Home");
    assert_eq!(home.len(), 1);
    assert_eq!(home.get_room("Room1").unwrap().len(), 1);
    assert!(home.get_device("Room1", "X").is_ok());
}

#[test]
fn a_device_found_through_the_home_can_be_used() {
    let mut home = Home::new("Home");
    let mut room = Room::default();
    room.add_device("X", SmartDevice::from(socket()));
    home.add_room("Room1", room);

    match home.get_device("Room1", "X") {
        Ok(SmartDevice::SmartSocket(socket)) => {
            // Nothing answers on an empty stream.
            assert!(matches!(socket.switch(), Err(SmartHomeError::ConnectionError(_))));
        }
        _ => panic!("expected the socket"),
    }
    assert!(home.get_device("Room1", "X").is_ok());
}

#[test]
fn adding_a_room_under_a_used_name_replaces_the_room() {
    let mut home = Home::new("Home");
    let mut room = Room::default();
    room.add_device("X", SmartDevice::from(socket()));
    home.add_room("Room1", room);
    assert_eq!(home.get_room("Room1").unwrap().len(), 1);

    home.add_room("Room1", Room::default());
    assert_eq!(home.len(), 1);
    assert_eq!(home.get_room("Room1").unwrap().len(), 0);
}

#[test]
fn removing_an_absent_room_changes_nothing() {
    let mut home = Home::new("Home");
    home.remove_room("Room1");
    assert!(home.is_empty());
    home.add_room("Room1", Room::default());
    home.remove_room("Room2");
    assert_eq!(home.len(), 1);
    assert!(home.get_room("Room1").is_some());
}

#[test]
fn a_later_pair_wins_when_a_home_is_made_from_pairs() {
    let mut first = Room::default();
    first.add_device("X", SmartDevice::from(socket()));
    let mut rooms = Vec::new();
    rooms.push(("Room".to_string(), first));
    rooms.push(("Other".to_string(), Room::default()));
    rooms.push(("Room".to_string(), Room::default()));
    let home = Home::new_with_rooms("Home", rooms);
    assert_eq!(home.len(), 2);
    assert_eq!(home.get_room("Room").unwrap().len(), 0);

    let mut names: Vec<String> = home.iter().iter().map(|pair| pair.0.clone()).collect();
    names.sort();
    assert_eq!(names, vec!["Other".to_string(), "Room".to_string()]);
}

#[test]
fn a_room_changed_in_place_stays_changed() {
    let mut home = Home::new("Home");
    home.add_room("Room1", Room::default());
    home.add_room("Room2", Room::default());
    home.get_room_mut("Room1").unwrap().add_device("X", SmartDevice::from(socket()));
    assert_eq!(home.get_room("Room1").unwrap().len(), 1);
    assert_eq!(home.get_room("Room2").unwrap().len(), 0);
    assert!(home.get_device("Room1", "X").is_ok());
}
