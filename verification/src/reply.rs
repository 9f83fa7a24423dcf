//! Reply interpretation: the plain-valued model of a server reply, the
//! fixed textual report rendered from it for each command, and the
//! decoding of raw reply text into that model, proved field by field
//! against the named results of the JSON boundary.
use vstd::prelude::*;

verus! {

use vstd::string::StringExecFns;
use crate::addr::Ipv4Address;
use crate::addr::MacAddress;
use crate::addr::SocketAddressV4;
use crate::addr::ip_text;
use crate::addr::mac_text;
use crate::addr::sockaddr_text;
use crate::addr::is_ipv4_text;
use crate::addr::ipv4_of_text;
use crate::addr::is_mac_text;
use crate::addr::mac_of_text;
use crate::addr::parse_ipv4_address;
use crate::addr::parse_hardware_address;
use crate::text::dec_text;
use crate::text::u128_to_dec;
use crate::commands::Command;
use crate::commands::SetCmd;
use crate::commands::Get;
use crate::commands::BaseCommand;
use crate::commands::CommandView;
use crate::commands::SetView;
use crate::commands::GetView;
use crate::commands::cmd_view;
use crate::jsonval::is_json_text;
use crate::jsonval::json_result_of;
use crate::jsonval::json_member_of;
use crate::jsonval::json_str_of;
use crate::jsonval::json_u64_of;
use crate::jsonval::json_array_of;
use crate::jsonval::json_text_of;
use crate::jsonval::json_parse;
use crate::jsonval::json_get;
use crate::jsonval::json_as_str;
use crate::jsonval::json_as_u64;
use crate::jsonval::json_as_array;
use crate::jsonval::json_render;

/// One connected client as the server reports it: the identifying fields
/// the report renders. Entries lacking any of them are kept as raw text.
pub struct ClientRecord {
    pub username: String,
    pub ip: Ipv4Address,
    pub mac: MacAddress,
}

/// One entry of a client list: either a structured record, or the raw JSON
/// text of an entry that does not parse as one.
pub enum EntryData {
    Parsed(ClientRecord),
    Raw(String),
}

/// A reply member expected to hold text: absent, present but no string, or
/// the string itself.
pub enum StrField {
    Absent,
    NotText,
    Text(String),
}

/// A reply member expected to hold a non-negative integer.
pub enum NumField {
    Absent,
    NotNum,
    Num(u64),
}

/// Everything the report reads out of a parsed server reply, as plain
/// values: the success or error discriminators and the command-specific
/// payload members, plus the raw reply text kept for the diagnostic
/// messages.
pub struct ReplyData {
    pub result: StrField,
    pub error: NumField,
    pub name: StrField,
    pub client: Option<EntryData>,
    pub clients: Option<Vec<EntryData>>,
    pub dropped_clients: Option<Vec<EntryData>>,
    pub running_config: Option<String>,
    pub end_index: Option<String>,
    pub raw: String,
}

/// Mathematical view of a `ClientRecord`.
pub struct ClientView {
    pub username: Seq<char>,
    pub ip: Ipv4Address,
    pub mac: MacAddress,
}

/// Mathematical view of an `EntryData`.
pub enum EntryView {
    Parsed(ClientView),
    Raw(Seq<char>),
}

/// Mathematical view of a `StrField`.
pub enum StrFieldView {
    Absent,
    NotText,
    Text(Seq<char>),
}

/// Mathematical view of a `ReplyData`.
pub struct ReplyView {
    pub result: StrFieldView,
    pub error: NumField,
    pub name: StrFieldView,
    pub client: Option<EntryView>,
    pub clients: Option<Seq<EntryView>>,
    pub dropped_clients: Option<Seq<EntryView>>,
    pub running_config: Option<Seq<char>>,
    pub end_index: Option<Seq<char>>,
    pub raw: Seq<char>,
}

pub open spec fn client_view(c: ClientRecord) -> ClientView {
    ClientView { username: c.username@, ip: c.ip, mac: c.mac }
}

pub open spec fn entry_view(e: EntryData) -> EntryView {
    match e {
        EntryData::Parsed(c) => EntryView::Parsed(client_view(c)),
        EntryData::Raw(s) => EntryView::Raw(s@),
    }
}

pub open spec fn entries_view(es: Seq<EntryData>) -> Seq<EntryView>
    decreases es.len(),
{
    if es.len() == 0 {
        Seq::<EntryView>::empty()
    } else {
        entries_view(es.drop_last()).push(entry_view(es.last()))
    }
}

pub open spec fn str_field_view(f: StrField) -> StrFieldView {
    match f {
        StrField::Absent => StrFieldView::Absent,
        StrField::NotText => StrFieldView::NotText,
        StrField::Text(s) => StrFieldView::Text(s@),
    }
}

pub open spec fn reply_view(d: ReplyData) -> ReplyView {
    ReplyView {
        result: str_field_view(d.result),
        error: d.error,
        name: str_field_view(d.name),
        client: match d.client {
            Some(e) => Some(entry_view(e)),
            None => None,
        },
        clients: match d.clients {
            Some(es) => Some(entries_view(es@)),
            None => None,
        },
        dropped_clients: match d.dropped_clients {
            Some(es) => Some(entries_view(es@)),
            None => None,
        },
        running_config: match d.running_config {
            Some(s) => Some(s@),
            None => None,
        },
        end_index: match d.end_index {
            Some(s) => Some(s@),
            None => None,
        },
        raw: d.raw@,
    }
}

proof fn lemma_entries_view_len(es: Seq<EntryData>)
    ensures
        entries_view(es).len() == es.len(),
    decreases es.len(),
{
    if es.len() > 0 {
        lemma_entries_view_len(es.drop_last());
    }
}

/// What decoding reads for a member expected to hold text.
pub open spec fn str_field_of(doc: serde_json::Value, key: Seq<char>) -> StrFieldView {
    match json_member_of(doc, key) {
        Some(m) => match json_str_of(m) {
            Some(t) => StrFieldView::Text(t),
            None => StrFieldView::NotText,
        },
        None => StrFieldView::Absent,
    }
}

/// What decoding reads for a member expected to hold an integer.
pub open spec fn num_field_of(doc: serde_json::Value, key: Seq<char>) -> NumField {
    match json_member_of(doc, key) {
        Some(m) => match json_u64_of(m) {
            Some(n) => NumField::Num(n),
            None => NumField::NotNum,
        },
        None => NumField::Absent,
    }
}

/// The structured reading of one client entry: it exists exactly when the
/// entry holds a `username` string, an `ip` string in dotted-decimal
/// notation, and a `mac` string in an accepted hardware address notation.
pub open spec fn client_of_value(m: serde_json::Value) -> Option<ClientView> {
    match json_member_of(m, "username"@) {
        Some(uv) => match json_str_of(uv) {
            Some(u) => match json_member_of(m, "ip"@) {
                Some(iv) => match json_str_of(iv) {
                    Some(it) => if is_ipv4_text(it) {
                        match json_member_of(m, "mac"@) {
                            Some(mv) => match json_str_of(mv) {
                                Some(mt) => if is_mac_text(mt) {
                                    Some(
                                        ClientView {
                                            username: u,
                                            ip: ipv4_of_text(it),
                                            mac: mac_of_text(mt),
                                        },
                                    )
                                } else {
                                    None
                                },
                                None => None,
                            },
                            None => None,
                        }
                    } else {
                        None
                    },
                    None => None,
                },
                None => None,
            },
            None => None,
        },
        None => None,
    }
}

/// The list form of one array entry: structured where it reads as a client
/// record, its raw JSON text where it does not.
pub open spec fn entry_of_value(m: serde_json::Value) -> EntryView {
    match client_of_value(m) {
        Some(c) => EntryView::Parsed(c),
        None => EntryView::Raw(json_text_of(m)),
    }
}

/// The list forms of the entries of an array.
pub open spec fn entries_of_seq(arr: Seq<serde_json::Value>) -> Seq<EntryView>
    decreases arr.len(),
{
    if arr.len() == 0 {
        Seq::<EntryView>::empty()
    } else {
        entries_of_seq(arr.drop_last()).push(entry_of_value(arr.last()))
    }
}

/// What decoding reads for a member expected to hold a client array.
pub open spec fn entries_of(doc: serde_json::Value, key: Seq<char>) -> Option<Seq<EntryView>> {
    match json_member_of(doc, key) {
        Some(av) => match json_array_of(av) {
            Some(arr) => Some(entries_of_seq(arr)),
            None => None,
        },
        None => None,
    }
}

/// Everything decoding reads out of a well-formed JSON reply text,
/// member by member, plus the raw text itself.
pub open spec fn reply_data_of(raw: Seq<char>) -> ReplyView
    recommends
        is_json_text(raw),
{
    let doc = json_result_of(raw)->0;
    ReplyView {
        result: str_field_of(doc, "result"@),
        error: num_field_of(doc, "error"@),
        name: str_field_of(doc, "name"@),
        client: match json_member_of(doc, "client"@) {
            Some(cv) => Some(entry_of_value(cv)),
            None => None,
        },
        clients: entries_of(doc, "clients"@),
        dropped_clients: entries_of(doc, "dropped_clients"@),
        running_config: match json_member_of(doc, "running_config"@) {
            Some(rv) => json_str_of(rv),
            None => None,
        },
        end_index: match json_member_of(doc, "end_index"@) {
            Some(ev) => Some(json_text_of(ev)),
            None => None,
        },
        raw: raw,
    }
}

/// The fixed line rendered for one structured client record.
pub open spec fn client_text(c: ClientView) -> Seq<char> {
    "username: "@ + c.username + ", ip: "@ + ip_text(c.ip) + ", mac: "@ + mac_text(c.mac)
}

/// The text rendered for one list entry: its record line, or its raw JSON.
pub open spec fn entry_text(e: EntryView) -> Seq<char> {
    match e {
        EntryView::Parsed(c) => client_text(c),
        EntryView::Raw(s) => s,
    }
}

/// The indexed line rendered for one list entry.
pub open spec fn entry_line(idx: nat, e: EntryView) -> Seq<char> {
    "\n["@ + dec_text(idx) + "] "@ + entry_text(e)
}

/// The lines rendered for a client list: one line per entry, indexed from
/// `base` upward, in order.
pub open spec fn entry_lines(es: Seq<EntryView>, base: nat) -> Seq<char>
    decreases es.len(),
{
    if es.len() == 0 {
        Seq::<char>::empty()
    } else {
        entry_lines(es.drop_last(), base) + entry_line((base + es.len() - 1) as nat, es.last())
    }
}

/// The count line and entry lines of a `clients` payload.
pub open spec fn clients_block(es: Seq<EntryView>, base: nat) -> Seq<char> {
    "\n"@ + dec_text(es.len()) + " client(s):"@ + entry_lines(es, base)
}

/// The count line and entry lines of a `dropped_clients` payload.
pub open spec fn dropped_block(es: Seq<EntryView>) -> Seq<char> {
    "\n"@ + dec_text(es.len()) + " dropped client(s):"@ + entry_lines(es, 0)
}

/// The command-specific addendum that follows a success result line.
pub open spec fn addendum_text(c: CommandView, d: ReplyView) -> Seq<char> {
    match c {
        CommandView::SetOp(SetView::DropVotes(_)) => match d.dropped_clients {
            Some(es) => dropped_block(es),
            None => Seq::<char>::empty(),
        },
        CommandView::SetOp(_) => Seq::<char>::empty(),
        CommandView::GetOp(GetView::Index { start_index, .. }) => match d.clients {
            Some(es) => clients_block(es, start_index as nat),
            None => Seq::<char>::empty(),
        },
        CommandView::GetOp(GetView::Mac(_)) => match d.client {
            Some(e) => "\n"@ + entry_text(e),
            None => Seq::<char>::empty(),
        },
        CommandView::GetOp(GetView::RunningConfiguration) => match d.running_config {
            Some(rc) => "\n"@ + rc,
            None => Seq::<char>::empty(),
        },
        CommandView::GetOp(GetView::Username { .. }) => (match d.clients {
            Some(es) => clients_block(es, 0),
            None => Seq::<char>::empty(),
        }) + (match d.end_index {
            Some(t) => "\nend index: "@ + t,
            None => Seq::<char>::empty(),
        }),
        CommandView::DropOp(_) => Seq::<char>::empty(),
    }
}

/// The line or lines rendered for the server-reported name of an error.
pub open spec fn name_line(n: StrFieldView) -> Seq<char> {
    match n {
        StrFieldView::Text(s) => "\nname: "@ + s,
        _ => "\nUnparsable name"@,
    }
}

/// The diagnostic for a reply that is JSON but no valid server reply,
/// echoing the raw reply text.
pub open spec fn invalid_text(addr: SocketAddressV4, raw: Seq<char>) -> Seq<char> {
    "Could not parse the reply of "@ + sockaddr_text(addr)
        + " as a valid MINT server reply, raw reply:\n"@ + raw
}

/// The report rendered for a decoded reply: the success path with its
/// command-specific addendum, the error path with code and name, or the
/// diagnostic when the reply has neither a usable result nor a usable
/// error code.
pub open spec fn parsed_reply_text(c: CommandView, addr: SocketAddressV4, d: ReplyView) -> Seq<
    char,
> {
    match d.result {
        StrFieldView::Text(res) => "result: "@ + res + addendum_text(c, d),
        StrFieldView::NotText => invalid_text(addr, d.raw),
        StrFieldView::Absent => match d.error {
            NumField::Num(e) => "error code: "@ + dec_text(e as nat) + name_line(d.name),
            _ => invalid_text(addr, d.raw),
        },
    }
}

/// The report when no reply was obtained at all.
pub open spec fn no_answer_text(addr: SocketAddressV4) -> Seq<char> {
    "No answer from "@ + sockaddr_text(addr)
}

/// The diagnostic for a reply that is not JSON, echoing the raw text.
pub open spec fn unparsed_text(addr: SocketAddressV4, raw: Seq<char>) -> Seq<char> {
    "Could not parse the reply of "@ + sockaddr_text(addr) + ", raw reply:\n"@ + raw
}

/// Appending an entry to a client list appends exactly that entry's one
/// indexed line to the rendered lines, whatever the entry holds: a
/// malformed entry degrades to its raw text but is never dropped, and the
/// lines of the entries before it are unchanged.
pub proof fn lemma_one_line_per_entry(es: Seq<EntryView>, e: EntryView, base: nat)
    ensures
        entry_lines(es.push(e), base) == entry_lines(es, base) + entry_line(
            (base + es.len()) as nat,
            e,
        ),
{
    assert(es.push(e).drop_last() =~= es);
    assert(es.push(e).last() == e);
}

/// Renders the fixed line of one structured client record.
fn render_client(c: &ClientRecord) -> (r: String)
    ensures
        r@ == client_text(client_view(*c)),
{
    let mut s = String::from_str("username: ");
    s.append(c.username.as_str());
    s.append(", ip: ");
    let ipt = c.ip.to_text();
    s.append(ipt.as_str());
    s.append(", mac: ");
    let mt = c.mac.to_text();
    s.append(mt.as_str());
    proof {
        assert(s@ =~= client_text(client_view(*c)));
    }
    s
}

/// Renders one list entry.
fn render_entry(e: &EntryData) -> (r: String)
    ensures
        r@ == entry_text(entry_view(*e)),
{
    match e {
        EntryData::Parsed(c) => render_client(c),
        EntryData::Raw(s) => s.clone(),
    }
}

/// Appends the indexed line of every entry, in order.
fn append_entry_lines(s: &mut String, es: &Vec<EntryData>, base: usize)
    ensures
        final(s)@ == old(s)@ + entry_lines(entries_view(es@), base as nat),
{
    let n = es.len();
    let mut i: usize = 0;
    proof {
        assert(entries_view(es@.take(0)) =~= Seq::<EntryView>::empty());
        assert(old(s)@ + entry_lines(entries_view(es@.take(0)), base as nat) =~= old(s)@);
    }
    while i < n
        invariant
            i <= n == es@.len(),
            s@ == old(s)@ + entry_lines(entries_view(es@.take(i as int)), base as nat),
        decreases n - i,
    {
        s.append("\n[");
        let idx = u128_to_dec(base as u128 + i as u128);
        s.append(idx.as_str());
        s.append("] ");
        let line = render_entry(&es[i]);
        s.append(line.as_str());
        proof {
            assert(es@.take(i + 1).drop_last() =~= es@.take(i as int));
            assert(es@.take(i + 1).last() == es@[i as int]);
            let ev = entries_view(es@.take(i as int));
            let le = entry_view(es@[i as int]);
            lemma_entries_view_len(es@.take(i as int));
            assert(entries_view(es@.take(i + 1)) == ev.push(le));
            assert(ev.push(le).drop_last() =~= ev);
            assert(ev.push(le).last() == le);
            assert(s@ =~= old(s)@ + entry_lines(entries_view(es@.take(i + 1)), base as nat));
        }
        i = i + 1;
    }
    proof {
        assert(es@.take(n as int) =~= es@);
    }
}

/// Appends the count line and entry lines of a `clients` payload.
fn append_clients_block(s: &mut String, es: &Vec<EntryData>, base: usize)
    ensures
        final(s)@ == old(s)@ + clients_block(entries_view(es@), base as nat),
{
    s.append("\n");
    let cnt = u128_to_dec(es.len() as u128);
    s.append(cnt.as_str());
    s.append(" client(s):");
    append_entry_lines(s, es, base);
    proof {
        lemma_entries_view_len(es@);
        assert(s@ =~= old(s)@ + clients_block(entries_view(es@), base as nat));
    }
}

/// Appends the count line and entry lines of a `dropped_clients` payload.
fn append_dropped_block(s: &mut String, es: &Vec<EntryData>)
    ensures
        final(s)@ == old(s)@ + dropped_block(entries_view(es@)),
{
    s.append("\n");
    let cnt = u128_to_dec(es.len() as u128);
    s.append(cnt.as_str());
    s.append(" dropped client(s):");
    append_entry_lines(s, es, 0);
    proof {
        lemma_entries_view_len(es@);
        assert(s@ =~= old(s)@ + dropped_block(entries_view(es@)));
    }
}

/// Renders the command-specific addendum of a success reply.
fn render_addendum(command: &Command, d: &ReplyData) -> (r: String)
    ensures
        r@ == addendum_text(cmd_view(*command), reply_view(*d)),
{
    let mut s = String::new();
    match command {
        Command::SetOp(set) => {
            match set {
                SetCmd::DropVotes(_) => {
                    match &d.dropped_clients {
                        Some(es) => {
                            append_dropped_block(&mut s, es);
                        },
                        None => {},
                    }
                },
                _ => {},
            }
        },
        Command::GetOp(get) => {
            match get {
                Get::Index { start_index, .. } => {
                    match &d.clients {
                        Some(es) => {
                            append_clients_block(&mut s, es, *start_index);
                        },
                        None => {},
                    }
                },
                Get::Mac(_) => {
                    match &d.client {
                        Some(e) => {
                            s.append("\n");
                            let t = render_entry(e);
                            s.append(t.as_str());
                        },
                        None => {},
                    }
                },
                Get::RunningConfiguration => {
                    match &d.running_config {
                        Some(rc) => {
                            s.append("\n");
                            s.append(rc.as_str());
                        },
                        None => {},
                    }
                },
                Get::Username { .. } => {
                    match &d.clients {
                        Some(es) => {
                            append_clients_block(&mut s, es, 0);
                        },
                        None => {},
                    }
                    match &d.end_index {
                        Some(t) => {
                            s.append("\nend index: ");
                            s.append(t.as_str());
                        },
                        None => {},
                    }
                },
            }
        },
        Command::DropOp(_) => {},
    }
    proof {
        assert(s@ =~= addendum_text(cmd_view(*command), reply_view(*d)));
    }
    s
}

/// Renders the diagnostic for a reply that is JSON but no valid server
/// reply.
fn render_invalid(address: &SocketAddressV4, raw: &str) -> (r: String)
    ensures
        r@ == invalid_text(*address, raw@),
{
    let mut s = String::from_str("Could not parse the reply of ");
    let at = address.to_text();
    s.append(at.as_str());
    s.append(" as a valid MINT server reply, raw reply:\n");
    s.append(raw);
    proof {
        assert(s@ =~= invalid_text(*address, raw@));
    }
    s
}

/// Renders the full report for a decoded reply to the given command.
pub fn render_reply(command: &Command, address: &SocketAddressV4, d: &ReplyData) -> (r: String)
    ensures
        r@ == parsed_reply_text(cmd_view(*command), *address, reply_view(*d)),
{
    match &d.result {
        StrField::Text(res) => {
            let mut s = String::from_str("result: ");
            s.append(res.as_str());
            let addendum = render_addendum(command, d);
            s.append(addendum.as_str());
            proof {
                assert(s@ =~= parsed_reply_text(cmd_view(*command), *address, reply_view(*d)));
            }
            s
        },
        StrField::NotText => render_invalid(address, d.raw.as_str()),
        StrField::Absent => {
            match &d.error {
                NumField::Num(e) => {
                    let mut s = String::from_str("error code: ");
                    let t = u128_to_dec(*e as u128);
                    s.append(t.as_str());
                    match &d.name {
                        StrField::Text(nm) => {
                            s.append("\nname: ");
                            s.append(nm.as_str());
                        },
                        StrField::NotText => {
                            s.append("\nUnparsable name");
                        },
                        StrField::Absent => {
                            s.append("\nUnparsable name");
                        },
                    }
                    proof {
                        assert(s@ =~= parsed_reply_text(
                            cmd_view(*command),
                            *address,
                            reply_view(*d),
                        ));
                    }
                    s
                },
                NumField::NotNum => render_invalid(address, d.raw.as_str()),
                NumField::Absent => render_invalid(address, d.raw.as_str()),
            }
        },
    }
}

/// Reads one member expected to hold text.
fn get_str_field(v: &serde_json::Value, key: &str) -> (r: StrField)
    ensures
        str_field_view(r) == str_field_of(*v, key@),
{
    match json_get(v, key) {
        Some(f) => match json_as_str(f) {
            Some(t) => StrField::Text(String::from_str(t)),
            None => StrField::NotText,
        },
        None => StrField::Absent,
    }
}

/// Reads one member expected to hold a non-negative integer.
fn get_num_field(v: &serde_json::Value, key: &str) -> (r: NumField)
    ensures
        r == num_field_of(*v, key@),
{
    match json_get(v, key) {
        Some(f) => match json_as_u64(f) {
            Some(n) => NumField::Num(n),
            None => NumField::NotNum,
        },
        None => NumField::Absent,
    }
}

/// Attempts the structured parse of one client entry.
fn client_from_json(v: &serde_json::Value) -> (r: Option<ClientRecord>)
    ensures
        r is Some <==> client_of_value(*v) is Some,
        r matches Some(c) ==> client_view(c) == client_of_value(*v)->0,
{
    let username = match json_get(v, "username") {
        Some(f) => match json_as_str(f) {
            Some(t) => String::from_str(t),
            None => {
                return None;
            },
        },
        None => {
            return None;
        },
    };
    let ip = match json_get(v, "ip") {
        Some(f) => match json_as_str(f) {
            Some(t) => match parse_ipv4_address(t) {
                Some(ip) => ip,
                None => {
                    return None;
                },
            },
            None => {
                return None;
            },
        },
        None => {
            return None;
        },
    };
    let mac = match json_get(v, "mac") {
        Some(f) => match json_as_str(f) {
            Some(t) => match parse_hardware_address(t) {
                Some(mac) => mac,
                None => {
                    return None;
                },
            },
            None => {
                return None;
            },
        },
        None => {
            return None;
        },
    };
    Some(ClientRecord { username, ip, mac })
}

/// Turns one array entry into its list form: structured where it parses as
/// a client record, its raw JSON text where it does not.
fn entry_from_value(v: &serde_json::Value) -> (r: EntryData)
    ensures
        entry_view(r) == entry_of_value(*v),
{
    match client_from_json(v) {
        Some(c) => EntryData::Parsed(c),
        None => EntryData::Raw(json_render(v)),
    }
}

/// Reads one member expected to hold an array of client entries.
fn get_entry_array(v: &serde_json::Value, key: &str) -> (r: Option<Vec<EntryData>>)
    ensures
        r is Some <==> entries_of(*v, key@) is Some,
        r matches Some(es) ==> entries_view(es@) == entries_of(*v, key@)->0,
{
    match json_get(v, key) {
        Some(av) => match json_as_array(av) {
            Some(arr) => {
                let mut out: Vec<EntryData> = Vec::new();
                let n = arr.len();
                let mut i: usize = 0;
                proof {
                    assert(entries_view(out@) =~= entries_of_seq(arr@.take(0)));
                }
                while i < n
                    invariant
                        i <= n == arr@.len(),
                        entries_view(out@) == entries_of_seq(arr@.take(i as int)),
                    decreases n - i,
                {
                    let ghost prev = out@;
                    let e = entry_from_value(&arr[i]);
                    out.push(e);
                    proof {
                        assert(arr@.take(i + 1).drop_last() =~= arr@.take(i as int));
                        assert(arr@.take(i + 1).last() == arr@[i as int]);
                        assert(out@.drop_last() =~= prev);
                        assert(out@.last() == e);
                        assert(entries_view(out@) == entries_view(prev).push(entry_view(e)));
                        assert(entries_view(out@) == entries_of_seq(arr@.take(i + 1)));
                    }
                    i = i + 1;
                }
                proof {
                    assert(arr@.take(n as int) =~= arr@);
                }
                Some(out)
            },
            None => None,
        },
        None => None,
    }
}

/// Decodes raw reply text into the plain reply model: nothing comes back
/// exactly when the text is not well-formed JSON, and what comes back is
/// the named reading of the text, member by member, with the raw text
/// kept for the diagnostics.
pub fn decode_reply(raw: &str) -> (r: Option<ReplyData>)
    ensures
        r is Some <==> is_json_text(raw@),
        r matches Some(d) ==> reply_view(d) == reply_data_of(raw@),
{
    let v = match json_parse(raw) {
        Some(v) => v,
        None => {
            return None;
        },
    };
    let result = get_str_field(&v, "result");
    let error = get_num_field(&v, "error");
    let name = get_str_field(&v, "name");
    let client = match json_get(&v, "client") {
        Some(cv) => Some(entry_from_value(cv)),
        None => None,
    };
    let clients = get_entry_array(&v, "clients");
    let dropped_clients = get_entry_array(&v, "dropped_clients");
    let running_config = match json_get(&v, "running_config") {
        Some(rv) => match json_as_str(rv) {
            Some(t) => Some(String::from_str(t)),
            None => None,
        },
        None => None,
    };
    let end_index = match json_get(&v, "end_index") {
        Some(ev) => Some(json_render(ev)),
        None => None,
    };
    let d = ReplyData {
        result,
        error,
        name,
        client,
        clients,
        dropped_clients,
        running_config,
        end_index,
        raw: String::from_str(raw),
    };
    proof {
        assert(reply_view(d) == reply_data_of(raw@));
    }
    Some(d)
}

impl BaseCommand {
    /// Interprets the raw reply, or its absence, as the printable report:
    /// the fixed no-answer line when there was no reply, the diagnostic
    /// echoing the raw text when the reply is not JSON, and otherwise
    /// exactly the rendering of the reply's named reading for this
    /// request's command.
    pub fn interpret(&self, reply: Option<String>) -> (r: String)
        ensures
            reply is None ==> r@ == no_answer_text(self.address),
            reply is Some && !is_json_text(reply->0@) ==> r@ == unparsed_text(
                self.address,
                reply->0@,
            ),
            reply is Some && is_json_text(reply->0@) ==> r@ == parsed_reply_text(
                cmd_view(self.command),
                self.address,
                reply_data_of(reply->0@),
            ),
    {
        match reply {
            None => {
                let mut s = String::from_str("No answer from ");
                let at = self.address.to_text();
                s.append(at.as_str());
                proof {
                    assert(s@ =~= no_answer_text(self.address));
                }
                s
            },
            Some(raw) => {
                match decode_reply(raw.as_str()) {
                    None => {
                        let mut s = String::from_str("Could not parse the reply of ");
                        let at = self.address.to_text();
                        s.append(at.as_str());
                        s.append(", raw reply:\n");
                        s.append(raw.as_str());
                        proof {
                            assert(s@ =~= unparsed_text(self.address, raw@));
                        }
                        s
                    },
                    Some(d) => render_reply(&self.command, &self.address, &d),
                }
            },
        }
    }
}

} // verus!

