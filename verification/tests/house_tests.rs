use smart_home::error::DeviceAccessError;
use smart_home::registry::Registry;
use smart_home::Reporter;
use smart_home::Room;
use smart_home::SmartDevice;
use smart_home::SmartDeviceTrait;
use smart_home::SmartHouse;
use smart_home::SmartSocket;
use smart_home::SmartThermometer;
use smart_home::Tenths;

fn create_empty_house() -> SmartHouse {
    SmartHouse::new(String::from("Test House"), Registry::new())
}

fn create_house_with_rooms() -> SmartHouse {
    let mut rooms: Registry<Room> = Registry::new();
    rooms.insert(
        "Room 1".to_string(),
        Room::new("Room 1".to_string(), Registry::new()),
    );
    rooms.insert(
        "Room 2".to_string(),
        Room::new("Room 2".to_string(), Registry::new()),
    );
    SmartHouse::new("Test House".to_string(), rooms)
}

fn create_house_with_devices() -> SmartHouse {
    let mut living_room_devices: Registry<SmartDevice> = Registry::new();
    living_room_devices.insert(
        "Living Room Thermometer".to_string(),
        SmartDevice::Thermometer(SmartThermometer::new(
            "Living Room Thermometer".to_string(),
            Tenths::new(210),
        )),
    );
    living_room_devices.insert(
        "Living Room Socket".to_string(),
        SmartDevice::Socket(SmartSocket::new(
            "Living Room Socket".to_string(),
            true,
            Tenths::new(800),
        )),
    );

    let mut bedroom_devices: Registry<SmartDevice> = Registry::new();
    bedroom_devices.insert(
        "Bedroom Thermometer".to_string(),
        SmartDevice::Thermometer(SmartThermometer::new(
            "Bedroom Thermometer".to_string(),
            Tenths::new(195),
        )),
    );

    let living_room = Room::new("Living Room".to_string(), living_room_devices);
    let bedroom = Room::new("Bedroom".to_string(), bedroom_devices);

    let mut rooms: Registry<Room> = Registry::new();
    rooms.insert("Living Room".to_string(), living_room);
    rooms.insert("Bedroom".to_string(), bedroom);
    SmartHouse::new("Smart Home".to_string(), rooms)
}

#[test]
fn test_house_creation() {
    let house = SmartHouse::new(String::from("Test House"), Registry::new());
    assert_eq!(house.name(), "Test House");
    assert!(house.all_rooms().is_empty());
}

#[test]
fn test_add_and_remove_room() {
    // Add a room to empty house
    let mut house = create_empty_house();
    let room = Room::new("Test Room".to_string(), Registry::new());
    let room_name = room.name().to_string();
    house.add_room(room_name, room);
    assert_eq!(
        house.all_rooms().len(),
        1,
        "Failed test case '{}': Expected room count {} but got {}",
        "Add a room to empty house",
        1,
        house.all_rooms().len()
    );

    // Remove a room from house with rooms
    let mut house = create_house_with_rooms();
    let removed = house.remove_room(&"Room 1".to_string());
    assert!(
        removed.is_some(),
        "Failed test case '{}': Expected success {} but got {}",
        "Remove a room from house with rooms",
        true,
        removed.is_some()
    );
    assert_eq!(
        house.all_rooms().len(),
        1,
        "Failed test case '{}': Expected room count {} but got {}",
        "Remove a room from house with rooms",
        1,
        house.all_rooms().len()
    );

    // Try to remove non-existent room
    let mut house = create_house_with_rooms();
    let removed = house.remove_room(&"Room 3".to_string());
    assert!(
        removed.is_none(),
        "Failed test case '{}': Expected success {} but got {}",
        "Try to remove non-existent room",
        false,
        removed.is_some()
    );
    assert_eq!(
        house.all_rooms().len(),
        2,
        "Failed test case '{}': Expected room count {} but got {}",
        "Try to remove non-existent room",
        2,
        house.all_rooms().len()
    );
}

#[test]
fn test_room_access() {
    // Access first room
    let house = create_house_with_rooms();
    match house.room(&"Room 1".to_string()) {
        Some(room) => assert_eq!(
            room.name(),
            "Room 1",
            "Failed test case '{}': Expected room name '{}' but got '{}'",
            "Access first room",
            "Room 1",
            room.name()
        ),
        None => panic!(
            "Failed test case '{}': Expected room '{}' but got none",
            "Access first room", "Room 1"
        ),
    }

    // Access second room
    let house = create_house_with_rooms();
    match house.room(&"Room 2".to_string()) {
        Some(room) => assert_eq!(
            room.name(),
            "Room 2",
            "Failed test case '{}': Expected room name '{}' but got '{}'",
            "Access second room",
            "Room 2",
            room.name()
        ),
        None => panic!(
            "Failed test case '{}': Expected room '{}' but got none",
            "Access second room", "Room 2"
        ),
    }

    // Access non-existent room
    let house = create_house_with_rooms();
    if let Some(room) = house.room(&"Room 3".to_string()) {
        panic!(
            "Failed test case '{}': Expected no room but got room '{}'",
            "Access non-existent room",
            room.name()
        );
    }
}

#[test]
fn test_mutable_room_access() {
    // Mutable access to first room
    let mut house = create_house_with_rooms();
    let result = house.room_mut(&"Room 1".to_string());
    assert!(
        result.is_some(),
        "Failed test case '{}': Expected success {} but got {}",
        "Mutable access to first room",
        true,
        false
    );

    // Mutable access to non-existent room
    let mut house = create_house_with_rooms();
    let result = house.room_mut(&"Room 10".to_string());
    assert!(
        result.is_none(),
        "Failed test case '{}': Expected success {} but got {}",
        "Mutable access to non-existent room",
        false,
        true
    );
}

#[test]
fn test_report_generation() {
    // Report for house with a thermometer
    let mut devices: Registry<SmartDevice> = Registry::new();
    devices.insert(
        "Living Room Thermometer".to_string(),
        SmartDevice::Thermometer(SmartThermometer::new(
            "Living Room Thermometer".to_string(),
            Tenths::new(225),
        )),
    );
    let room = Room::new("Living Room".to_string(), devices);
    let mut rooms: Registry<Room> = Registry::new();
    rooms.insert("Living Room".to_string(), room);
    let house = SmartHouse::new("Test House".to_string(), rooms);

    let report = house.report();
    for expected in [
        "=== Smart House: Test House ===",
        "=== Room: Living Room ===",
        "Device: Living Room Thermometer",
        "Temperature: 22.5°C",
    ] {
        assert!(
            report.contains(expected),
            "Test case '{}': Report should contain '{}', got: '{}'",
            "Report for house with a thermometer",
            expected,
            report
        );
    }

    // Report for house with multiple rooms and devices
    let house = create_house_with_devices();
    let report = house.report();
    for expected in [
        "=== Smart House: Smart Home ===",
        "=== Room: Living Room ===",
        "Device: Living Room Thermometer",
        "Temperature: 21°C",
        "Device: Living Room Socket",
        "Status: ON",
        "Power consumption: 80W",
        "=== Room: Bedroom ===",
        "Device: Bedroom Thermometer",
        "Temperature: 19.5°C",
    ] {
        assert!(
            report.contains(expected),
            "Test case '{}': Report should contain '{}', got: '{}'",
            "Report for house with multiple rooms and devices",
            expected,
            report
        );
    }
}

#[test]
fn house_room_access() {
    let room1 = Room::new(String::from("Room 1"), Registry::new());
    let room2 = Room::new(String::from("Room 2"), Registry::new());

    let mut rooms: Registry<Room> = Registry::new();
    rooms.insert("Room 1".to_string(), room1);
    rooms.insert("Room 2".to_string(), room2);

    let house = SmartHouse::new(String::from("Test House"), rooms);

    assert!(house.room(&"Room 1".to_string()).is_some());
    assert!(house.room(&"Room 2".to_string()).is_some());
    assert!(house.room(&"Non-existent Room".to_string()).is_none());
}

#[test]
fn test_house_report_scenario() {
    let mut devices: Registry<SmartDevice> = Registry::new();
    devices.insert(
        "Lamp".to_string(),
        SmartDevice::Socket(SmartSocket::new("Lamp".to_string(), true, Tenths::new(600))),
    );
    devices.insert(
        "T1".to_string(),
        SmartDevice::Thermometer(SmartThermometer::new("T1".to_string(), Tenths::new(215))),
    );
    let room = Room::new("Living Room".to_string(), devices);
    let mut rooms: Registry<Room> = Registry::new();
    rooms.insert("Living Room".to_string(), room);
    let house = SmartHouse::new("H".to_string(), rooms);

    let report = house.report();
    assert_eq!(
        report,
        "=== Smart House: H ===\n\
         === Room: Living Room ===\n\
         Device: Lamp, Status: ON, Power consumption: 60W\n\
         Device: T1, Temperature: 21.5°C\n\n"
    );

    // Each expected marker sits on its own line, in insertion order.
    let lines: Vec<&str> = report.lines().collect();
    assert_eq!(lines[0], "=== Smart House: H ===");
    assert_eq!(lines[1], "=== Room: Living Room ===");
    assert!(lines[2].contains("Status: ON"));
    assert!(lines[2].contains("Power consumption: 60W"));
    assert!(lines[3].contains("Temperature: 21.5°C"));
}

#[test]
fn test_missing_room_is_room_not_found() {
    let house = create_house_with_devices();

    let result = house.device(&"Bedroom 2".to_string(), &"Lamp".to_string());
    match result {
        Err(DeviceAccessError::RoomNotFound(room)) => {
            assert_eq!(room, "Bedroom 2");
        }
        _ => panic!("expected room-not-found, got {:?}", result.err()),
    }

    // A located room without the device fails one level deeper.
    let result = house.device(&"Bedroom".to_string(), &"Lamp".to_string());
    match result {
        Err(DeviceAccessError::DeviceNotFound(device, room)) => {
            assert_eq!(device, "Lamp");
            assert_eq!(room, "Bedroom");
            assert_eq!(
                DeviceAccessError::DeviceNotFound(device, room).message(),
                "Device 'Lamp' not found in room 'Bedroom'"
            );
        }
        _ => panic!("expected device-not-found, got {:?}", result.err()),
    }

    // A present device is found.
    let result = house.device(
        &"Living Room".to_string(),
        &"Living Room Socket".to_string(),
    );
    match result {
        Ok(device) => assert_eq!(device.name(), "Living Room Socket"),
        Err(e) => panic!("expected the device, got {:?}", e),
    }
}

#[test]
fn test_room_at_positional_access() {
    let house = create_house_with_rooms();

    let first = house.room_at(0).expect("index 0 should be present");
    assert_eq!(first.name(), "Room 1");
    let second = house.room_at(1).expect("index 1 should be present");
    assert_eq!(second.name(), "Room 2");

    let error = house.room_at(7).expect_err("index 7 should be out of bounds");
    assert_eq!(error.resource_type, "Room");
    assert_eq!(error.requested_index, 7);
    assert_eq!(error.total_count, 2);
    assert_eq!(error.message(), "Room index 7 is out of bounds. Total room: 2");
}

#[test]
fn test_device_mut_reaches_device() {
    let mut house = create_house_with_devices();

    let device = house
        .device_mut(
            &"Living Room".to_string(),
            &"Living Room Socket".to_string(),
        )
        .expect("the socket should be found");
    let applied = device.turn_off();
    assert!(applied);

    let room = house.room(&"Living Room".to_string()).unwrap();
    assert_eq!(
        room.get_power_consumption(&"Living Room Socket".to_string()),
        Some(Some(Tenths::zero()))
    );
}
