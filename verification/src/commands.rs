//! The command model: the closed set of administrative actions, the admin
//! request that wraps one of them, its construction from validated textual
//! fields, and the JSON wire encoding sent to the server.
use vstd::prelude::*;

verus! {

use vstd::string::StrSliceExecFns;
use vstd::string::StringExecFns;
use vstd::string::StringExecFnsIsAscii;
use vstd::utf8::is_ascii_chars;
use crate::addr::Ipv4Address;
use crate::addr::SocketAddressV4;
use crate::addr::MacAddress;
use crate::addr::ip_text;
use crate::addr::mac_text;
use crate::addr::is_ipv4_text;
use crate::addr::ipv4_of_text;
use crate::addr::is_mac_text;
use crate::addr::mac_of_text;
use crate::addr::parse_ipv4_address;
use crate::addr::parse_hardware_address;
use crate::text::is_dec_text;
use crate::text::dec_val;
use crate::text::dec_text;
use crate::text::bool_text;
use crate::text::str_eq;
use crate::text::u128_to_dec;
use crate::text::parse_dec_bounded;
use crate::text::parse_dec_usize;
use crate::text::push_char;

/// A change of one server-side setting.
pub enum SetCmd {
    DropVotes(u8),
    DropVerification(bool),
    ListSize(u16),
    Capacity(u16),
    Password(String),
    Key(String),
}

/// A query of connected-client state or configuration.
pub enum Get {
    Mac(MacAddress),
    Username { pattern: String, start_index: usize },
    Index { start_index: usize, end_index: usize },
    RunningConfiguration,
}

/// A forced disconnection of one client.
pub enum DropCmd {
    Ip(Ipv4Address),
}

/// One administrative action.
pub enum Command {
    SetOp(SetCmd),
    GetOp(Get),
    DropOp(DropCmd),
}

/// An administrative request: one command, the admin password that
/// authenticates it, and the server to send it to.
pub struct BaseCommand {
    pub password: String,
    pub address: SocketAddressV4,
    pub command: Command,
}

/// Mathematical view of a `SetCmd`: text fields as character sequences.
pub enum SetView {
    DropVotes(u8),
    DropVerification(bool),
    ListSize(u16),
    Capacity(u16),
    Password(Seq<char>),
    Key(Seq<char>),
}

/// Mathematical view of a `Get`.
pub enum GetView {
    Mac(MacAddress),
    Username { pattern: Seq<char>, start_index: usize },
    Index { start_index: usize, end_index: usize },
    RunningConfiguration,
}

/// Mathematical view of a `DropCmd`.
pub enum DropView {
    Ip(Ipv4Address),
}

/// Mathematical view of a `Command`.
pub enum CommandView {
    SetOp(SetView),
    GetOp(GetView),
    DropOp(DropView),
}

pub open spec fn set_view(s: SetCmd) -> SetView {
    match s {
        SetCmd::DropVotes(d) => SetView::DropVotes(d),
        SetCmd::DropVerification(b) => SetView::DropVerification(b),
        SetCmd::ListSize(l) => SetView::ListSize(l),
        SetCmd::Capacity(c) => SetView::Capacity(c),
        SetCmd::Password(p) => SetView::Password(p@),
        SetCmd::Key(k) => SetView::Key(k@),
    }
}

pub open spec fn get_view(g: Get) -> GetView {
    match g {
        Get::Mac(m) => GetView::Mac(m),
        Get::Username { pattern, start_index } => GetView::Username {
            pattern: pattern@,
            start_index,
        },
        Get::Index { start_index, end_index } => GetView::Index { start_index, end_index },
        Get::RunningConfiguration => GetView::RunningConfiguration,
    }
}

pub open spec fn cmd_view(c: Command) -> CommandView {
    match c {
        Command::SetOp(s) => CommandView::SetOp(set_view(s)),
        Command::GetOp(g) => CommandView::GetOp(get_view(g)),
        Command::DropOp(DropCmd::Ip(ip)) => CommandView::DropOp(DropView::Ip(ip)),
    }
}

/// The invariants a command value always satisfies: drop votes at least one,
/// capacity at least two, password and key ASCII and at most 32 characters.
pub open spec fn cmd_wf(c: CommandView) -> bool {
    match c {
        CommandView::SetOp(SetView::DropVotes(d)) => d >= 1,
        CommandView::SetOp(SetView::Capacity(cap)) => cap >= 2,
        CommandView::SetOp(SetView::Password(p)) => is_ascii_chars(p) && p.len() <= 32,
        CommandView::SetOp(SetView::Key(k)) => is_ascii_chars(k) && k.len() <= 32,
        CommandView::GetOp(GetView::Username { pattern, .. }) => is_ascii_chars(pattern),
        _ => true,
    }
}

/// The value of the first field with the given key, if any.
pub open spec fn field_of(fields: Seq<(String, String)>, key: Seq<char>) -> Option<Seq<char>>
    decreases fields.len(),
{
    if fields.len() == 0 {
        None
    } else if fields[0].0@ == key {
        Some(fields[0].1@)
    } else {
        field_of(fields.drop_first(), key)
    }
}

/// Whether a field is present and its text is a decimal number within bounds.
pub open spec fn dec_field_in(
    fields: Seq<(String, String)>,
    key: Seq<char>,
    lo: nat,
    hi: nat,
) -> bool {
    match field_of(fields, key) {
        Some(f) => is_dec_text(f) && lo <= dec_val(f) <= hi,
        None => false,
    }
}

/// Whether a field is present, ASCII, and at most 32 characters.
pub open spec fn text_field_ok(fields: Seq<(String, String)>, key: Seq<char>) -> bool {
    match field_of(fields, key) {
        Some(f) => is_ascii_chars(f) && f.len() <= 32,
        None => false,
    }
}

/// The closed dispatch table: which subcommand names are accepted, and with
/// which fields. Exactly these ten names build a command; any other name,
/// and any missing, out-of-range or malformed field, builds none.
pub open spec fn valid_fields(sub: Seq<char>, fields: Seq<(String, String)>) -> bool {
    if sub == "running-config"@ {
        true
    } else if sub == "set-dropvotes"@ {
        dec_field_in(fields, "drop-votes"@, 1, 255)
    } else if sub == "set-dropverification"@ {
        field_of(fields, "state"@) == Some("true"@) || field_of(fields, "state"@) == Some(
            "false"@,
        )
    } else if sub == "set-listsize"@ {
        dec_field_in(fields, "list-size"@, 0, 65535)
    } else if sub == "set-capacity"@ {
        dec_field_in(fields, "capacity"@, 2, 65535)
    } else if sub == "set-key"@ {
        text_field_ok(fields, "key"@)
    } else if sub == "set-password"@ {
        text_field_ok(fields, "password"@)
    } else if sub == "drop"@ {
        match field_of(fields, "ip"@) {
            Some(f) => is_ipv4_text(f),
            None => false,
        }
    } else if sub == "get-mac"@ {
        match field_of(fields, "mac"@) {
            Some(f) => is_mac_text(f),
            None => false,
        }
    } else if sub == "get-username"@ {
        &&& match field_of(fields, "pattern"@) {
            Some(f) => is_ascii_chars(f),
            None => false,
        }
        &&& dec_field_in(fields, "start"@, 0, usize::MAX as nat)
    } else if sub == "get-index"@ {
        &&& dec_field_in(fields, "start"@, 0, usize::MAX as nat)
        &&& dec_field_in(fields, "end"@, 0, usize::MAX as nat)
    } else {
        false
    }
}

/// The command a valid subcommand name and field set build.
pub open spec fn built_command(sub: Seq<char>, fields: Seq<(String, String)>) -> CommandView
    recommends
        valid_fields(sub, fields),
{
    if sub == "running-config"@ {
        CommandView::GetOp(GetView::RunningConfiguration)
    } else if sub == "set-dropvotes"@ {
        CommandView::SetOp(SetView::DropVotes(dec_val(field_of(fields, "drop-votes"@)->0) as u8))
    } else if sub == "set-dropverification"@ {
        CommandView::SetOp(
            SetView::DropVerification(field_of(fields, "state"@) == Some("true"@)),
        )
    } else if sub == "set-listsize"@ {
        CommandView::SetOp(SetView::ListSize(dec_val(field_of(fields, "list-size"@)->0) as u16))
    } else if sub == "set-capacity"@ {
        CommandView::SetOp(SetView::Capacity(dec_val(field_of(fields, "capacity"@)->0) as u16))
    } else if sub == "set-key"@ {
        CommandView::SetOp(SetView::Key(field_of(fields, "key"@)->0))
    } else if sub == "set-password"@ {
        CommandView::SetOp(SetView::Password(field_of(fields, "password"@)->0))
    } else if sub == "drop"@ {
        CommandView::DropOp(DropView::Ip(ipv4_of_text(field_of(fields, "ip"@)->0)))
    } else if sub == "get-mac"@ {
        CommandView::GetOp(GetView::Mac(mac_of_text(field_of(fields, "mac"@)->0)))
    } else if sub == "get-username"@ {
        CommandView::GetOp(
            GetView::Username {
                pattern: field_of(fields, "pattern"@)->0,
                start_index: dec_val(field_of(fields, "start"@)->0) as usize,
            },
        )
    } else {
        CommandView::GetOp(
            GetView::Index {
                start_index: dec_val(field_of(fields, "start"@)->0) as usize,
                end_index: dec_val(field_of(fields, "end"@)->0) as usize,
            },
        )
    }
}

/// Finds the value of the first field with the given key.
fn field_value<'a>(fields: &'a Vec<(String, String)>, key: &str) -> (r: Option<&'a String>)
    ensures
        r is Some <==> field_of(fields@, key@) is Some,
        r is Some ==> Some(r->0@) == field_of(fields@, key@),
{
    let n = fields.len();
    let mut i: usize = 0;
    proof {
        assert(fields@.skip(0) =~= fields@);
    }
    while i < n
        invariant
            i <= n == fields@.len(),
            field_of(fields@, key@) == field_of(fields@.skip(i as int), key@),
        decreases n - i,
    {
        proof {
            assert(fields@.skip(i as int)[0] == fields@[i as int]);
            assert(fields@.skip(i as int).drop_first() =~= fields@.skip(i + 1));
        }
        if str_eq(fields[i].0.as_str(), key) {
            return Some(&fields[i].1);
        }
        i = i + 1;
    }
    proof {
        assert(fields@.skip(n as int) =~= Seq::<(String, String)>::empty());
    }
    None
}

impl BaseCommand {
    /// Builds the request for one subcommand from its textual fields, the
    /// admin password and the server address. Exactly the valid field sets
    /// of the ten subcommand names build a request; everything else builds
    /// none.
    pub fn build_request(
        subcommand: &str,
        fields: &Vec<(String, String)>,
        password: String,
        address: SocketAddressV4,
    ) -> (r: Option<BaseCommand>)
        ensures
            r is Some <==> valid_fields(subcommand@, fields@),
            r is Some ==> cmd_view(r->0.command) == built_command(subcommand@, fields@),
            r is Some ==> r->0.password@ == password@ && r->0.address == address,
            r is Some ==> cmd_wf(cmd_view(r->0.command)),
    {
        if str_eq(subcommand, "running-config") {
            Some(
                BaseCommand {
                    password,
                    address,
                    command: Command::GetOp(Get::RunningConfiguration),
                },
            )
        } else if str_eq(subcommand, "set-dropvotes") {
            match field_value(fields, "drop-votes") {
                Some(f) => match parse_dec_bounded(f.as_str(), 255) {
                    Some(v) => if v >= 1 {
                        Some(
                            BaseCommand {
                                password,
                                address,
                                command: Command::SetOp(SetCmd::DropVotes(v as u8)),
                            },
                        )
                    } else {
                        None
                    },
                    None => None,
                },
                None => None,
            }
        } else if str_eq(subcommand, "set-dropverification") {
            match field_value(fields, "state") {
                Some(f) => if str_eq(f.as_str(), "true") {
                    Some(
                        BaseCommand {
                            password,
                            address,
                            command: Command::SetOp(SetCmd::DropVerification(true)),
                        },
                    )
                } else if str_eq(f.as_str(), "false") {
                    Some(
                        BaseCommand {
                            password,
                            address,
                            command: Command::SetOp(SetCmd::DropVerification(false)),
                        },
                    )
                } else {
                    None
                },
                None => None,
            }
        } else if str_eq(subcommand, "set-listsize") {
            match field_value(fields, "list-size") {
                Some(f) => match parse_dec_bounded(f.as_str(), 65535) {
                    Some(v) => Some(
                        BaseCommand {
                            password,
                            address,
                            command: Command::SetOp(SetCmd::ListSize(v as u16)),
                        },
                    ),
                    None => None,
                },
                None => None,
            }
        } else if str_eq(subcommand, "set-capacity") {
            match field_value(fields, "capacity") {
                Some(f) => match parse_dec_bounded(f.as_str(), 65535) {
                    Some(v) => if v >= 2 {
                        Some(
                            BaseCommand {
                                password,
                                address,
                                command: Command::SetOp(SetCmd::Capacity(v as u16)),
                            },
                        )
                    } else {
                        None
                    },
                    None => None,
                },
                None => None,
            }
        } else if str_eq(subcommand, "set-key") {
            match field_value(fields, "key") {
                Some(f) => if f.is_ascii() && f.as_str().unicode_len() <= 32 {
                    Some(
                        BaseCommand {
                            password,
                            address,
                            command: Command::SetOp(SetCmd::Key(f.clone())),
                        },
                    )
                } else {
                    None
                },
                None => None,
            }
        } else if str_eq(subcommand, "set-password") {
            match field_value(fields, "password") {
                Some(f) => if f.is_ascii() && f.as_str().unicode_len() <= 32 {
                    Some(
                        BaseCommand {
                            password,
                            address,
                            command: Command::SetOp(SetCmd::Password(f.clone())),
                        },
                    )
                } else {
                    None
                },
                None => None,
            }
        } else if str_eq(subcommand, "drop") {
            match field_value(fields, "ip") {
                Some(f) => match parse_ipv4_address(f.as_str()) {
                    Some(ip) => Some(
                        BaseCommand {
                            password,
                            address,
                            command: Command::DropOp(DropCmd::Ip(ip)),
                        },
                    ),
                    None => None,
                },
                None => None,
            }
        } else if str_eq(subcommand, "get-mac") {
            match field_value(fields, "mac") {
                Some(f) => match parse_hardware_address(f.as_str()) {
                    Some(mac) => Some(
                        BaseCommand {
                            password,
                            address,
                            command: Command::GetOp(Get::Mac(mac)),
                        },
                    ),
                    None => None,
                },
                None => None,
            }
        } else if str_eq(subcommand, "get-username") {
            match field_value(fields, "pattern") {
                Some(f) => if f.is_ascii() {
                    match field_value(fields, "start") {
                        Some(st) => match parse_dec_usize(st.as_str()) {
                            Some(start_index) => Some(
                                BaseCommand {
                                    password,
                                    address,
                                    command: Command::GetOp(
                                        Get::Username { pattern: f.clone(), start_index },
                                    ),
                                },
                            ),
                            None => None,
                        },
                        None => None,
                    }
                } else {
                    None
                },
                None => None,
            }
        } else if str_eq(subcommand, "get-index") {
            match field_value(fields, "start") {
                Some(st) => match parse_dec_usize(st.as_str()) {
                    Some(start_index) => match field_value(fields, "end") {
                        Some(en) => match parse_dec_usize(en.as_str()) {
                            Some(end_index) => Some(
                                BaseCommand {
                                    password,
                                    address,
                                    command: Command::GetOp(
                                        Get::Index { start_index, end_index },
                                    ),
                                },
                            ),
                            None => None,
                        },
                        None => None,
                    },
                    None => None,
                },
                None => None,
            }
        } else {
            None
        }
    }
}

/// The method-specific part of the encoding of a `set` command.
pub open spec fn set_body_text(s: SetView) -> Seq<char> {
    match s {
        SetView::Capacity(cap) => "\"what\":\"capacity\",\"capacity\":"@ + dec_text(cap as nat),
        SetView::DropVerification(b) => "\"what\":\"drop_verification\",\"drop_verification\":"@
            + bool_text(b),
        SetView::DropVotes(d) => "\"what\":\"drop_votes\",\"drop_votes\":"@ + dec_text(d as nat),
        SetView::Key(k) => "\"what\":\"key\",\"key\":\""@ + k + "\""@,
        SetView::ListSize(l) => "\"what\":\"list_size\",\"list_size\":"@ + dec_text(l as nat),
        SetView::Password(p) => "\"what\":\"password\",\"new_password\":\""@ + p + "\""@,
    }
}

/// The method-specific part of the encoding of a `get` command.
pub open spec fn get_body_text(g: GetView) -> Seq<char> {
    match g {
        GetView::Index { start_index, end_index } => "\"how\":\"index\",\"start_index\":"@
            + dec_text(start_index as nat) + ",\"end_index\":"@ + dec_text(end_index as nat),
        GetView::Mac(m) => "\"how\":\"mac\",\"mac\":\""@ + mac_text(m) + "\""@,
        GetView::RunningConfiguration => "\"how\":\"running_configuration\""@,
        GetView::Username { pattern, start_index } => "\"how\":\"username\",\"username\":\""@
            + pattern + "\",\"start_index\":"@ + dec_text(start_index as nat),
    }
}

/// The method-specific part of the encoding of a `drop` command.
pub open spec fn drop_body_text(d: DropView) -> Seq<char> {
    match d {
        DropView::Ip(ip) => "\"ip\":\""@ + ip_text(ip) + "\""@,
    }
}

/// The method discriminator and body of a command's encoding.
pub open spec fn command_text(c: CommandView) -> Seq<char> {
    match c {
        CommandView::SetOp(s) => "\"method\":\"set\","@ + set_body_text(s),
        CommandView::GetOp(g) => "\"method\":\"get\","@ + get_body_text(g),
        CommandView::DropOp(d) => "\"method\":\"drop\","@ + drop_body_text(d),
    }
}

/// The complete JSON request: the fixed administrative user, the password,
/// the method discriminator, and the method-specific keys.
pub open spec fn request_text(password: Seq<char>, c: CommandView) -> Seq<char> {
    "{\"user\":\"admin\",\"password\":\""@ + password + "\","@ + command_text(c) + "}"@
}

impl BaseCommand {
    /// Encodes the request as the single JSON object the server expects.
    pub fn to_json_string(&self) -> (r: String)
        ensures
            r@ == request_text(self.password@, cmd_view(self.command)),
    {
        let mut s = String::from_str("{\"user\":\"admin\",\"password\":\"");
        s.append(self.password.as_str());
        s.append("\",");
        match &self.command {
            Command::SetOp(set) => {
                s.append("\"method\":\"set\",");
                match set {
                    SetCmd::Capacity(cap) => {
                        s.append("\"what\":\"capacity\",\"capacity\":");
                        let t = u128_to_dec(*cap as u128);
                        s.append(t.as_str());
                    },
                    SetCmd::DropVerification(b) => {
                        s.append("\"what\":\"drop_verification\",\"drop_verification\":");
                        if *b {
                            s.append("true");
                        } else {
                            s.append("false");
                        }
                    },
                    SetCmd::DropVotes(d) => {
                        s.append("\"what\":\"drop_votes\",\"drop_votes\":");
                        let t = u128_to_dec(*d as u128);
                        s.append(t.as_str());
                    },
                    SetCmd::Key(k) => {
                        s.append("\"what\":\"key\",\"key\":\"");
                        s.append(k.as_str());
                        s.append("\"");
                    },
                    SetCmd::ListSize(l) => {
                        s.append("\"what\":\"list_size\",\"list_size\":");
                        let t = u128_to_dec(*l as u128);
                        s.append(t.as_str());
                    },
                    SetCmd::Password(p) => {
                        s.append("\"what\":\"password\",\"new_password\":\"");
                        s.append(p.as_str());
                        s.append("\"");
                    },
                }
            },
            Command::GetOp(get) => {
                s.append("\"method\":\"get\",");
                match get {
                    Get::Index { start_index, end_index } => {
                        s.append("\"how\":\"index\",\"start_index\":");
                        let t = u128_to_dec(*start_index as u128);
                        s.append(t.as_str());
                        s.append(",\"end_index\":");
                        let t2 = u128_to_dec(*end_index as u128);
                        s.append(t2.as_str());
                    },
                    Get::Mac(m) => {
                        s.append("\"how\":\"mac\",\"mac\":\"");
                        let t = m.to_text();
                        s.append(t.as_str());
                        s.append("\"");
                    },
                    Get::RunningConfiguration => {
                        s.append("\"how\":\"running_configuration\"");
                    },
                    Get::Username { pattern, start_index } => {
                        s.append("\"how\":\"username\",\"username\":\"");
                        s.append(pattern.as_str());
                        s.append("\",\"start_index\":");
                        let t = u128_to_dec(*start_index as u128);
                        s.append(t.as_str());
                    },
                }
            },
            Command::DropOp(DropCmd::Ip(ip)) => {
                s.append("\"method\":\"drop\",");
                s.append("\"ip\":\"");
                let t = ip.to_text();
                s.append(t.as_str());
                s.append("\"");
            },
        }
        push_char(&mut s, '}');
        proof {
            assert(seq!['}'] =~= "}"@) by {
                reveal_strlit("}");
            }
            assert(s@ =~= request_text(self.password@, cmd_view(self.command)));
        }
        s
    }
}

/// Every command kind encodes to the fixed header followed by its own
/// method discriminator and exactly its own keys: one clause below per
/// subcommand, spelling the complete key set of its wire object.
pub proof fn lemma_request_text_keys(password: Seq<char>, c: CommandView)
    ensures
        c matches CommandView::SetOp(SetView::DropVotes(d)) ==> request_text(password, c)
            == "{\"user\":\"admin\",\"password\":\""@ + password + "\","@ + "\"method\":\"set\","@
            + "\"what\":\"drop_votes\",\"drop_votes\":"@ + dec_text(d as nat) + "}"@,
        c matches CommandView::SetOp(SetView::DropVerification(b)) ==> request_text(password, c)
            == "{\"user\":\"admin\",\"password\":\""@ + password + "\","@ + "\"method\":\"set\","@
            + "\"what\":\"drop_verification\",\"drop_verification\":"@ + bool_text(b) + "}"@,
        c matches CommandView::SetOp(SetView::ListSize(l)) ==> request_text(password, c)
            == "{\"user\":\"admin\",\"password\":\""@ + password + "\","@ + "\"method\":\"set\","@
            + "\"what\":\"list_size\",\"list_size\":"@ + dec_text(l as nat) + "}"@,
        c matches CommandView::SetOp(SetView::Capacity(cap)) ==> request_text(password, c)
            == "{\"user\":\"admin\",\"password\":\""@ + password + "\","@ + "\"method\":\"set\","@
            + "\"what\":\"capacity\",\"capacity\":"@ + dec_text(cap as nat) + "}"@,
        c matches CommandView::SetOp(SetView::Password(p)) ==> request_text(password, c)
            == "{\"user\":\"admin\",\"password\":\""@ + password + "\","@ + "\"method\":\"set\","@
            + "\"what\":\"password\",\"new_password\":\""@ + p + "\""@ + "}"@,
        c matches CommandView::SetOp(SetView::Key(k)) ==> request_text(password, c)
            == "{\"user\":\"admin\",\"password\":\""@ + password + "\","@ + "\"method\":\"set\","@
            + "\"what\":\"key\",\"key\":\""@ + k + "\""@ + "}"@,
        c matches CommandView::GetOp(GetView::Mac(m)) ==> request_text(password, c)
            == "{\"user\":\"admin\",\"password\":\""@ + password + "\","@ + "\"method\":\"get\","@
            + "\"how\":\"mac\",\"mac\":\""@ + mac_text(m) + "\""@ + "}"@,
        c matches CommandView::GetOp(
            GetView::Username { pattern, start_index },
        ) ==> request_text(password, c) == "{\"user\":\"admin\",\"password\":\""@ + password
            + "\","@ + "\"method\":\"get\","@ + "\"how\":\"username\",\"username\":\""@ + pattern
            + "\",\"start_index\":"@ + dec_text(start_index as nat) + "}"@,
        c matches CommandView::GetOp(
            GetView::Index { start_index, end_index },
        ) ==> request_text(password, c) == "{\"user\":\"admin\",\"password\":\""@ + password
            + "\","@ + "\"method\":\"get\","@ + "\"how\":\"index\",\"start_index\":"@ + dec_text(
            start_index as nat,
        ) + ",\"end_index\":"@ + dec_text(end_index as nat) + "}"@,
        c matches CommandView::GetOp(GetView::RunningConfiguration) ==> request_text(password, c)
            == "{\"user\":\"admin\",\"password\":\""@ + password + "\","@ + "\"method\":\"get\","@
            + "\"how\":\"running_configuration\""@ + "}"@,
        c matches CommandView::DropOp(DropView::Ip(ip)) ==> request_text(password, c)
            == "{\"user\":\"admin\",\"password\":\""@ + password + "\","@
            + "\"method\":\"drop\","@ + "\"ip\":\""@ + ip_text(ip) + "\""@ + "}"@,
{
}

} // verus!
