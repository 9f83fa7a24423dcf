use admint::addr::parse_socket_address;
use admint::commands::BaseCommand;

fn fields(pairs: &[(&str, &str)]) -> Vec<(String, String)> {
    pairs.iter().map(|(k, v)| (k.to_string(), v.to_string())).collect()
}

fn request(sub: &str, pairs: &[(&str, &str)]) -> BaseCommand {
    BaseCommand::build_request(
        sub,
        &fields(pairs),
        "pw".to_string(),
        parse_socket_address("10.0.0.5:9999").unwrap(),
    )
    .expect("valid fields must build a request")
}

#[test]
fn set_capacity_result_only() {
    let req = request("set-capacity", &[("capacity", "50")]);
    let out = req.interpret(Some("{\"result\":\"ok\"}".to_string()));
    assert_eq!(out, "result: ok");
}

#[test]
fn no_answer_line() {
    let req = request("set-capacity", &[("capacity", "50")]);
    let out = req.interpret(None);
    assert_eq!(out, "No answer from 10.0.0.5:9999");
}

#[test]
fn error_with_name() {
    let req = request("set-capacity", &[("capacity", "50")]);
    let out = req.interpret(Some("{\"error\":3,\"name\":\"bad_password\"}".to_string()));
    assert_eq!(out, "error code: 3\nname: bad_password");
}

#[test]
fn error_without_usable_name() {
    let req = request("set-capacity", &[("capacity", "50")]);
    let out = req.interpret(Some("{\"error\":3}".to_string()));
    assert_eq!(out, "error code: 3\nUnparsable name");
    let out = req.interpret(Some("{\"error\":3,\"name\":7}".to_string()));
    assert_eq!(out, "error code: 3\nUnparsable name");
}

#[test]
fn get_index_offsets_displayed_indices() {
    let req = request("get-index", &[("start", "5"), ("end", "8")]);
    let reply = "{\"result\":\"ok\",\"clients\":[{\"username\":\"alice\",\"ip\":\"10.0.0.1\",\"mac\":\"aa:bb:cc:dd:ee:ff\"},{\"username\":\"bob\",\"ip\":\"10.0.0.2\",\"mac\":\"11:22:33:44:55:66\"}]}";
    let out = req.interpret(Some(reply.to_string()));
    assert_eq!(
        out,
        "result: ok\n2 client(s):\n\
         [5] username: alice, ip: 10.0.0.1, mac: aa:bb:cc:dd:ee:ff\n\
         [6] username: bob, ip: 10.0.0.2, mac: 11:22:33:44:55:66"
    );
}

#[test]
fn malformed_entry_still_gets_a_line() {
    let req = request("get-index", &[("start", "0"), ("end", "10")]);
    let reply = "{\"result\":\"ok\",\"clients\":[{\"username\":\"alice\",\"ip\":\"10.0.0.1\",\"mac\":\"aa:bb:cc:dd:ee:ff\"},{\"username\":\"broken\"},42,{\"username\":\"bob\",\"ip\":\"10.0.0.2\",\"mac\":\"11:22:33:44:55:66\"}]}";
    let out = req.interpret(Some(reply.to_string()));
    assert_eq!(
        out,
        "result: ok\n4 client(s):\n\
         [0] username: alice, ip: 10.0.0.1, mac: aa:bb:cc:dd:ee:ff\n\
         [1] {\"username\":\"broken\"}\n\
         [2] 42\n\
         [3] username: bob, ip: 10.0.0.2, mac: 11:22:33:44:55:66"
    );
}

#[test]
fn get_mac_renders_single_client() {
    let req = request("get-mac", &[("mac", "aa:bb:cc:dd:ee:ff")]);
    let reply = "{\"result\":\"ok\",\"client\":{\"username\":\"alice\",\"ip\":\"10.0.0.1\",\"mac\":\"aa:bb:cc:dd:ee:ff\"}}";
    let out = req.interpret(Some(reply.to_string()));
    assert_eq!(out, "result: ok\nusername: alice, ip: 10.0.0.1, mac: aa:bb:cc:dd:ee:ff");
}

#[test]
fn get_mac_degrades_to_raw_client() {
    let req = request("get-mac", &[("mac", "aa:bb:cc:dd:ee:ff")]);
    let out = req.interpret(Some("{\"result\":\"ok\",\"client\":{\"ip\":17}}".to_string()));
    assert_eq!(out, "result: ok\n{\"ip\":17}");
}

#[test]
fn get_mac_without_client_member() {
    let req = request("get-mac", &[("mac", "aa:bb:cc:dd:ee:ff")]);
    let out = req.interpret(Some("{\"result\":\"not found\"}".to_string()));
    assert_eq!(out, "result: not found");
}

#[test]
fn running_config_appended_verbatim() {
    let req = request("running-config", &[]);
    let reply = "{\"result\":\"ok\",\"running_config\":\"capacity 10\\nlist_size 5\"}";
    let out = req.interpret(Some(reply.to_string()));
    assert_eq!(out, "result: ok\ncapacity 10\nlist_size 5");
}

#[test]
fn get_username_lists_and_end_index() {
    let req = request("get-username", &[("pattern", "a"), ("start", "4")]);
    let reply = "{\"result\":\"ok\",\"clients\":[{\"username\":\"alice\",\"ip\":\"10.0.0.1\",\"mac\":\"aa:bb:cc:dd:ee:ff\"}],\"end_index\":7}";
    let out = req.interpret(Some(reply.to_string()));
    assert_eq!(
        out,
        "result: ok\n1 client(s):\n\
         [0] username: alice, ip: 10.0.0.1, mac: aa:bb:cc:dd:ee:ff\nend index: 7"
    );
}

#[test]
fn set_dropvotes_lists_dropped_clients() {
    let req = request("set-dropvotes", &[("drop-votes", "2")]);
    let reply = "{\"result\":\"ok\",\"dropped_clients\":[{\"username\":\"alice\",\"ip\":\"10.0.0.1\",\"mac\":\"aa:bb:cc:dd:ee:ff\"}]}";
    let out = req.interpret(Some(reply.to_string()));
    assert_eq!(
        out,
        "result: ok\n1 dropped client(s):\n\
         [0] username: alice, ip: 10.0.0.1, mac: aa:bb:cc:dd:ee:ff"
    );
}

#[test]
fn other_set_commands_have_no_addendum() {
    let req = request("set-password", &[("password", "x")]);
    let reply = "{\"clients\":[17],\"result\":\"ok\"}";
    let out = req.interpret(Some(reply.to_string()));
    assert_eq!(out, "result: ok");
}

#[test]
fn reply_that_is_not_json() {
    let req = request("set-capacity", &[("capacity", "50")]);
    let out = req.interpret(Some("garbage".to_string()));
    assert_eq!(out, "Could not parse the reply of 10.0.0.5:9999, raw reply:\ngarbage");
}

#[test]
fn reply_without_result_or_error() {
    let req = request("set-capacity", &[("capacity", "50")]);
    let out = req.interpret(Some("{}".to_string()));
    assert_eq!(
        out,
        "Could not parse the reply of 10.0.0.5:9999 as a valid MINT server reply, raw reply:\n{}"
    );
}

#[test]
fn reply_with_non_string_result() {
    let req = request("set-capacity", &[("capacity", "50")]);
    let out = req.interpret(Some("{\"result\":5}".to_string()));
    assert_eq!(
        out,
        "Could not parse the reply of 10.0.0.5:9999 as a valid MINT server reply, raw reply:\n{\"result\":5}"
    );
}

#[test]
fn reply_with_non_numeric_error() {
    let req = request("set-capacity", &[("capacity", "50")]);
    let out = req.interpret(Some("{\"error\":\"x\"}".to_string()));
    assert_eq!(
        out,
        "Could not parse the reply of 10.0.0.5:9999 as a valid MINT server reply, raw reply:\n{\"error\":\"x\"}"
    );
}

#[test]
fn result_takes_precedence_over_error() {
    let req = request("set-capacity", &[("capacity", "50")]);
    let out = req.interpret(Some("{\"error\":3,\"result\":\"ok\"}".to_string()));
    assert_eq!(out, "result: ok");
}

#[test]
fn invalid_reply_echo_is_verbatim() {
    let req = request("set-capacity", &[("capacity", "50")]);
    let out = req.interpret(Some("{ \"zz\": 0 ,\t\"result\" : 5 }".to_string()));
    assert_eq!(
        out,
        "Could not parse the reply of 10.0.0.5:9999 as a valid MINT server reply, raw reply:\n{ \"zz\": 0 ,\t\"result\" : 5 }"
    );
}

#[test]
fn missing_keys_echo_is_verbatim() {
    let req = request("set-capacity", &[("capacity", "50")]);
    let out = req.interpret(Some("{ \"other\": [1, 2] }".to_string()));
    assert_eq!(
        out,
        "Could not parse the reply of 10.0.0.5:9999 as a valid MINT server reply, raw reply:\n{ \"other\": [1, 2] }"
    );
}
