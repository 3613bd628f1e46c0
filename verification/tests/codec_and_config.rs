use transform_pool::codec::decode_update;
use transform_pool::codec::encode_update;
use transform_pool::command::Command;
use transform_pool::config::ConfigCell;

const ALL: [Command; 4] = [
    Command::Capitalize,
    Command::Reverse,
    Command::ToLowerCase,
    Command::ToUpperCase,
];

#[test]
fn encode_decode_round_trip_for_every_member() {
    for command in ALL {
        let payload = encode_update(&command);
        assert_eq!(decode_update(payload.as_str()), Some(command));
    }
}

#[test]
fn encode_produces_the_exact_wire_form() {
    assert_eq!(encode_update(&Command::Capitalize), "\"Capitalize\"");
    assert_eq!(encode_update(&Command::Reverse), "\"Reverse\"");
    assert_eq!(encode_update(&Command::ToLowerCase), "\"ToLowerCase\"");
    assert_eq!(encode_update(&Command::ToUpperCase), "\"ToUpperCase\"");
}

#[test]
fn encode_matches_the_structured_encoder() {
    // The gateway's wire form is the standard structured encoding of the
    // transform's name as a string.
    assert_eq!(
        encode_update(&Command::Capitalize),
        serde_json::to_string("Capitalize").unwrap()
    );
    assert_eq!(
        encode_update(&Command::Reverse),
        serde_json::to_string("Reverse").unwrap()
    );
}

#[test]
fn decode_rejects_malformed_payloads() {
    assert_eq!(decode_update(""), None);
    assert_eq!(decode_update("Capitalize"), None);
    assert_eq!(decode_update("\"capitalize\""), None);
    assert_eq!(decode_update("\"Rotate\""), None);
}

#[test]
fn cell_starts_with_the_initial_value_and_no_writes() {
    let cell = ConfigCell::new(Command::default());
    assert_eq!(cell.read(), Command::Capitalize);
    assert_eq!(cell.writes, 0);
}

#[test]
fn applying_the_same_update_twice_writes_once() {
    let mut cell = ConfigCell::new(Command::Capitalize);
    assert!(cell.apply_update(Command::Reverse));
    assert_eq!(cell.writes, 1);
    assert!(!cell.apply_update(Command::Reverse));
    assert_eq!(cell.writes, 1);
    assert_eq!(cell.read(), Command::Reverse);
}

#[test]
fn applying_a_different_update_writes() {
    let mut cell = ConfigCell::new(Command::Capitalize);
    assert!(cell.apply_update(Command::ToUpperCase));
    assert!(cell.apply_update(Command::ToLowerCase));
    assert_eq!(cell.writes, 2);
    assert_eq!(cell.read(), Command::ToLowerCase);
}
