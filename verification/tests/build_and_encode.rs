use admint::addr::parse_socket_address;
use admint::addr::SocketAddressV4;
use admint::commands::BaseCommand;

fn addr() -> SocketAddressV4 {
    parse_socket_address("192.0.2.7:4970").expect("address must parse")
}

fn fields(pairs: &[(&str, &str)]) -> Vec<(String, String)> {
    pairs.iter().map(|(k, v)| (k.to_string(), v.to_string())).collect()
}

fn encode(sub: &str, pairs: &[(&str, &str)]) -> String {
    let req = BaseCommand::build_request(sub, &fields(pairs), "pw".to_string(), addr())
        .expect("valid fields must build a request");
    req.to_json_string()
}

#[test]
fn encode_running_config() {
    assert_eq!(
        encode("running-config", &[]),
        "{\"user\":\"admin\",\"password\":\"pw\",\"method\":\"get\",\"how\":\"running_configuration\"}"
    );
}

#[test]
fn encode_set_dropvotes() {
    assert_eq!(
        encode("set-dropvotes", &[("drop-votes", "3")]),
        "{\"user\":\"admin\",\"password\":\"pw\",\"method\":\"set\",\"what\":\"drop_votes\",\"drop_votes\":3}"
    );
}

#[test]
fn encode_set_dropverification() {
    assert_eq!(
        encode("set-dropverification", &[("state", "true")]),
        "{\"user\":\"admin\",\"password\":\"pw\",\"method\":\"set\",\"what\":\"drop_verification\",\"drop_verification\":true}"
    );
    assert_eq!(
        encode("set-dropverification", &[("state", "false")]),
        "{\"user\":\"admin\",\"password\":\"pw\",\"method\":\"set\",\"what\":\"drop_verification\",\"drop_verification\":false}"
    );
}

#[test]
fn encode_set_listsize() {
    assert_eq!(
        encode("set-listsize", &[("list-size", "100")]),
        "{\"user\":\"admin\",\"password\":\"pw\",\"method\":\"set\",\"what\":\"list_size\",\"list_size\":100}"
    );
}

#[test]
fn encode_set_capacity() {
    assert_eq!(
        encode("set-capacity", &[("capacity", "50")]),
        "{\"user\":\"admin\",\"password\":\"pw\",\"method\":\"set\",\"what\":\"capacity\",\"capacity\":50}"
    );
}

#[test]
fn encode_set_password() {
    assert_eq!(
        encode("set-password", &[("password", "newpw")]),
        "{\"user\":\"admin\",\"password\":\"pw\",\"method\":\"set\",\"what\":\"password\",\"new_password\":\"newpw\"}"
    );
}

#[test]
fn encode_set_key() {
    assert_eq!(
        encode("set-key", &[("key", "k123")]),
        "{\"user\":\"admin\",\"password\":\"pw\",\"method\":\"set\",\"what\":\"key\",\"key\":\"k123\"}"
    );
}

#[test]
fn encode_drop() {
    assert_eq!(
        encode("drop", &[("ip", "10.0.0.9")]),
        "{\"user\":\"admin\",\"password\":\"pw\",\"method\":\"drop\",\"ip\":\"10.0.0.9\"}"
    );
}

#[test]
fn encode_get_mac() {
    assert_eq!(
        encode("get-mac", &[("mac", "aa:bb:cc:dd:ee:ff")]),
        "{\"user\":\"admin\",\"password\":\"pw\",\"method\":\"get\",\"how\":\"mac\",\"mac\":\"aa:bb:cc:dd:ee:ff\"}"
    );
}

#[test]
fn encode_get_mac_notations_agree() {
    let colon = encode("get-mac", &[("mac", "aa:bb:cc:dd:ee:ff")]);
    let dash = encode("get-mac", &[("mac", "AA-BB-CC-DD-EE-FF")]);
    let dot = encode("get-mac", &[("mac", "aabb.ccdd.eeff")]);
    assert_eq!(colon, dash);
    assert_eq!(colon, dot);
}

#[test]
fn encode_get_username() {
    assert_eq!(
        encode("get-username", &[("pattern", "jo"), ("start", "4")]),
        "{\"user\":\"admin\",\"password\":\"pw\",\"method\":\"get\",\"how\":\"username\",\"username\":\"jo\",\"start_index\":4}"
    );
}

#[test]
fn encode_get_index() {
    assert_eq!(
        encode("get-index", &[("start", "5"), ("end", "8")]),
        "{\"user\":\"admin\",\"password\":\"pw\",\"method\":\"get\",\"how\":\"index\",\"start_index\":5,\"end_index\":8}"
    );
}

#[test]
fn round_trip_drop_exact_object() {
    let req = BaseCommand::build_request(
        "drop",
        &fields(&[("ip", "192.0.2.1")]),
        "admin1".to_string(),
        parse_socket_address("203.0.113.4:7000").unwrap(),
    )
    .expect("drop with a valid ip must build");
    let text = req.to_json_string();
    assert_eq!(
        text,
        "{\"user\":\"admin\",\"password\":\"admin1\",\"method\":\"drop\",\"ip\":\"192.0.2.1\"}"
    );
    let parsed: serde_json::Value = serde_json::from_str(&text).expect("encoding must be JSON");
    let obj = parsed.as_object().expect("encoding must be an object");
    assert_eq!(obj.len(), 4);
    assert_eq!(obj.get("user").and_then(|v| v.as_str()), Some("admin"));
    assert_eq!(obj.get("password").and_then(|v| v.as_str()), Some("admin1"));
    assert_eq!(obj.get("method").and_then(|v| v.as_str()), Some("drop"));
    assert_eq!(obj.get("ip").and_then(|v| v.as_str()), Some("192.0.2.1"));
}

fn rejects(sub: &str, pairs: &[(&str, &str)]) {
    assert!(
        BaseCommand::build_request(sub, &fields(pairs), "pw".to_string(), addr()).is_none(),
        "subcommand {} with fields {:?} must not build",
        sub,
        pairs
    );
}

#[test]
fn reject_unknown_subcommand() {
    rejects("reboot", &[]);
    rejects("", &[]);
}

#[test]
fn reject_missing_fields() {
    rejects("set-dropvotes", &[]);
    rejects("set-dropverification", &[]);
    rejects("set-listsize", &[]);
    rejects("set-capacity", &[]);
    rejects("set-key", &[]);
    rejects("set-password", &[]);
    rejects("drop", &[]);
    rejects("get-mac", &[]);
    rejects("get-username", &[("pattern", "jo")]);
    rejects("get-index", &[("start", "0")]);
}

#[test]
fn reject_out_of_range_numbers() {
    rejects("set-dropvotes", &[("drop-votes", "0")]);
    rejects("set-dropvotes", &[("drop-votes", "256")]);
    rejects("set-capacity", &[("capacity", "1")]);
    rejects("set-capacity", &[("capacity", "65536")]);
    rejects("set-listsize", &[("list-size", "65536")]);
}

#[test]
fn reject_malformed_numbers() {
    rejects("set-dropvotes", &[("drop-votes", "three")]);
    rejects("set-dropvotes", &[("drop-votes", "")]);
    rejects("set-dropvotes", &[("drop-votes", "-1")]);
    rejects("get-index", &[("start", "1x"), ("end", "8")]);
    rejects("get-username", &[("pattern", "jo"), ("start", "1.5")]);
}

#[test]
fn reject_bad_bool() {
    rejects("set-dropverification", &[("state", "yes")]);
    rejects("set-dropverification", &[("state", "True")]);
}

#[test]
fn reject_bad_addresses() {
    rejects("drop", &[("ip", "192.0.2")]);
    rejects("drop", &[("ip", "192.0.2.256")]);
    rejects("drop", &[("ip", "192.0.2.1.5")]);
    rejects("get-mac", &[("mac", "aabbccddeeff")]);
    rejects("get-mac", &[("mac", "aa:bb:cc:dd:ee:gg")]);
}

#[test]
fn reject_bad_text_fields() {
    rejects("set-key", &[("key", "k12345678901234567890123456789012")]);
    rejects("set-key", &[("key", "clav\u{00e9}")]);
    rejects("set-password", &[("password", "p12345678901234567890123456789012")]);
    rejects("get-username", &[("pattern", "j\u{00f6}rg"), ("start", "0")]);
}

#[test]
fn accept_boundary_values() {
    assert!(BaseCommand::build_request(
        "set-dropvotes",
        &fields(&[("drop-votes", "1")]),
        "pw".to_string(),
        addr()
    )
    .is_some());
    assert!(BaseCommand::build_request(
        "set-dropvotes",
        &fields(&[("drop-votes", "255")]),
        "pw".to_string(),
        addr()
    )
    .is_some());
    assert!(BaseCommand::build_request(
        "set-capacity",
        &fields(&[("capacity", "2")]),
        "pw".to_string(),
        addr()
    )
    .is_some());
    assert!(BaseCommand::build_request(
        "set-listsize",
        &fields(&[("list-size", "0")]),
        "pw".to_string(),
        addr()
    )
    .is_some());
    let key32 = "12345678901234567890123456789012";
    assert_eq!(key32.len(), 32);
    assert!(BaseCommand::build_request(
        "set-key",
        &fields(&[("key", key32)]),
        "pw".to_string(),
        addr()
    )
    .is_some());
}
