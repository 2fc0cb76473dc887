use aranet::config::{checked_devices, escaped_name, BadName, Device, NameError};

fn device(address: &str, name: &str) -> Device {
    Device { address: address.to_string(), name: name.to_string() }
}

#[test]
fn spaces_are_escaped() {
    assert_eq!(escaped_name("Living room").unwrap(), "Living\\ room");
    assert_eq!(escaped_name("a  b ").unwrap(), "a\\ \\ b\\ ");
    assert_eq!(escaped_name("").unwrap(), "");
    assert_eq!(escaped_name("Küche").unwrap(), "Küche");
}

#[test]
fn quotes_and_backslashes_are_refused() {
    assert_eq!(escaped_name("say \"hi\"").unwrap_err(), NameError::Quote);
    assert_eq!(escaped_name("it's").unwrap_err(), NameError::Quote);
    assert_eq!(escaped_name("a\\b").unwrap_err(), NameError::Backslash);
    assert_eq!(escaped_name("a\\b'").unwrap_err(), NameError::Quote);
}

#[test]
fn devices_are_checked_in_order() {
    let list = vec![device("AA:BB:CC:DD:EE:FF", "Office"), device("11:22:33:44:55:66", "Bed room")];
    let out = checked_devices(&list).unwrap();
    assert_eq!(out.len(), 2);
    assert_eq!(out[0].address, "AA:BB:CC:DD:EE:FF");
    assert_eq!(out[0].name, "Office");
    assert_eq!(out[1].address, "11:22:33:44:55:66");
    assert_eq!(out[1].name, "Bed\\ room");

    let list = vec![device("a", "ok"), device("b", "x\\y"), device("c", "it's")];
    assert_eq!(
        checked_devices(&list).unwrap_err(),
        BadName { index: 1, error: NameError::Backslash }
    );
    assert!(checked_devices(&Vec::new()).unwrap().is_empty());
}
