use smart_home::device::Device;
use smart_home::house::House;
use smart_home::room::Room;
use smart_home::socket_stub::SocketStub;
use smart_home::thermometer_stub::ThermometerStub;
use smart_home::traits::{PowerConsumptionMeter, Switchable, Thermometer};

#[test]
fn add_and_remove_rooms() {
    let mut livingroom = Room::new("living room".to_string());
    let mut kitchen = Room::new("kitchen".to_string());

    livingroom.add_device(Device::Socket(SocketStub::new("base socket".to_string())));
    livingroom.add_device(Device::Socket(SocketStub::new("base thermometer".to_string())));
    kitchen.add_device(Device::Socket(SocketStub::new("base socket".to_string())));
    kitchen.add_device(Device::Socket(SocketStub::new("base thermometer".to_string())));
    let mut home = House::new();
    home.add_room(livingroom);
    home.add_room(kitchen);
    assert_eq!(
        "living room:\nbase socket\nbase thermometer\n\nkitchen:\nbase socket\nbase thermometer\n\n",
        home.make_report()
    );
    assert_eq!("living room\nkitchen\n", home.rooms_report());
    if let Err(err) = home.remove_room("not_added_room_name".to_string()) {
        assert_eq!(err, "Room to remove not found");
    }
    if home.remove_room("kitchen".to_string()).is_err() {
        panic!("not expected result");
    }
    assert_eq!("living room\n", home.rooms_report());
    if home.remove_room("living room".to_string()).is_err() {
        panic!("not expected result");
    }
    assert_eq!("", home.rooms_report());
    if let Err(err) = home.remove_room("kitchen".to_string()) {
        assert_eq!(err, "Room to remove not found");
    }
}

#[test]
fn room_add_and_remove_devices() {
    let mut room = Room::new("living room".to_string());
    room.add_device(Device::Socket(SocketStub::new("base socket".to_string())));
    room.add_device(Device::Socket(SocketStub::new("base thermometer".to_string())));

    let report = room.make_report();
    assert_eq!("base socket\nbase thermometer\n", report);

    // check error on remove not existed device
    if let Err(err) = room.remove_device("not_added_device_name".to_string()) {
        assert_eq!("Device to remove not found", err.msg);
    };
    // check report hasn't changed
    let report = room.make_report();
    assert_eq!("base socket\nbase thermometer\n", report);

    // remove device - base thermometer
    if room.remove_device("base thermometer".to_string()).is_err() {
        panic!("not expected result");
    };

    // check base thermometer has deleted
    let report = room.make_report();
    assert_eq!("base socket\n", report);

    // remove device - base socket
    if room.remove_device("base socket".to_string()).is_err() {
        panic!("not expected result");
    };
    // check base socket has deleted
    let report = room.make_report();
    assert_eq!("", report);

    // check error on remove empty device list
    if let Err(err) = room.remove_device("base thermometer".to_string()) {
        assert_eq!("Device to remove not found", err.msg);
    };
}

#[test]
fn add_rooms() {
    let mut livingroom = Room::new("living room".to_string());
    let mut kitchen = Room::new("kitchen".to_string());

    livingroom.add_device(Device::Socket(SocketStub::new("base socket".to_string())));
    livingroom.add_device(Device::Socket(SocketStub::new("base thermometer".to_string())));
    kitchen.add_device(Device::Socket(SocketStub::new("base socket".to_string())));
    kitchen.add_device(Device::Socket(SocketStub::new("base thermometer".to_string())));
    let mut home = House::new();
    home.add_room(livingroom);
    home.add_room(kitchen);
    assert_eq!(
        "living room:\nbase socket\nbase thermometer\n\nkitchen:\nbase socket\nbase thermometer\n\n",
        home.make_report()
    );
}

#[test]
fn add_devices() {
    let mut room = Room::new("living room".to_string());
    room.add_device(Device::Socket(SocketStub::new("base socket".to_string())));
    room.add_device(Device::Socket(SocketStub::new("base thermometer".to_string())));

    let report = room.make_report();
    assert_eq!("base socket\nbase thermometer\n", report);
}

#[test]
fn socket_stub_methods() {
    let mut kitchen_socket = SocketStub::new("Kitchen".to_string());
    assert!(!kitchen_socket.current_state().unwrap());
    assert_eq!(kitchen_socket.power_consumption_wt().unwrap().unwrap(), 0);
    assert!(kitchen_socket.turn_on().unwrap());
    assert!(kitchen_socket.current_state().unwrap());
    assert!(kitchen_socket.turn_off().unwrap());
    assert_eq!(kitchen_socket.description, "Kitchen".to_string());
    assert!(!kitchen_socket.current_state().unwrap());
    kitchen_socket.online(false);
    assert!(kitchen_socket.current_state().is_err());
    assert!(kitchen_socket.turn_on().is_err());
    assert!(kitchen_socket.turn_off().is_err());
    kitchen_socket.online(true);
}

#[test]
fn thermometer_stub_methods() {
    let mut term_stub = ThermometerStub::new("bedroom temp sensor".to_string());
    term_stub.current_temp_deg = 10_000;
    assert_eq!(term_stub.temperature_deg_celsius().unwrap().unwrap(), 10_000);
    term_stub.online(false);
    assert!(term_stub.temperature_deg_celsius().is_err());
    term_stub.online(true);
}

#[test]
fn removing_middle_room_swaps_last_into_place() {
    let mut home = House::new();
    home.add_room(Room::new("one".to_string()));
    home.add_room(Room::new("two".to_string()));
    home.add_room(Room::new("three".to_string()));
    home.remove_room("one".to_string()).unwrap();
    assert_eq!("three\ntwo\n", home.rooms_report());
}

#[test]
fn room_registers_thermometers_too() {
    let mut room = Room::new("bedroom".to_string());
    room.add_device(Device::Thermometer(ThermometerStub::new("sensor".to_string())));
    assert_eq!("sensor\n", room.make_report());
    assert_eq!("bedroom", room.name());
}
