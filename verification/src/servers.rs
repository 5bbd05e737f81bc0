//! The servers that the client knows: those the user has saved, and those found in
//! the network.
use crate::addr;
use crate::addr::normalize_server_addr;
use crate::text;
use crate::text::{
    chars_of, concat, decimal_string, parse_unsigned, split_chars, str_eq, string_of, trim,
};
use crate::time::Instant;
use vstd::prelude::*;
use vstd::string::*;

verus! {

/// How long a server that has announced itself is believed to be there.
pub const DISCOVERY_EXPIRY_NANOS: u64 = 10_000_000_000;

/// How long the listener waits for announcements before it drops expired servers.
pub const DISCOVERY_POLL_NANOS: u64 = 3_000_000_000;

/// How long what the directory has said of a server is believed.
pub const API_HOST_EXPIRY_NANOS: u64 = 30_000_000_000;

/// How long a server must have been seen nearby before a session moves there.
pub const LAN_UPGRADE_HYSTERESIS_NANOS: u64 = 2_000_000_000;

/// A server that has been saved.
#[derive(Clone, Debug)]
pub struct ServerEntry {
    pub address: String,
    pub nickname: String,
    pub peer_id: Option<String>,
    /// When it was last connected to, in seconds of Unix time; 0 if never.
    pub last_connected: u64,
    /// The user has added it.
    pub manually_added: bool,
}

pub struct EntryView {
    pub address: Seq<char>,
    pub nickname: Seq<char>,
    pub peer_id: Option<Seq<char>>,
    pub last_connected: u64,
    pub manually_added: bool,
}

pub open spec fn text_of(s: Option<String>) -> Option<Seq<char>> {
    match s {
        Some(s) => Some(s@),
        None => None,
    }
}

impl View for ServerEntry {
    type V = EntryView;

    open spec fn view(&self) -> EntryView {
        EntryView {
            address: self.address@,
            nickname: self.nickname@,
            peer_id: text_of(self.peer_id),
            last_connected: self.last_connected,
            manually_added: self.manually_added,
        }
    }
}

pub open spec fn entries(list: Seq<ServerEntry>) -> Seq<EntryView> {
    list.map_values(|e: ServerEntry| e@)
}

/// The first saved server with an address.
pub open spec fn index_of_addr(list: Seq<EntryView>, address: Seq<char>, from: nat) -> Option<nat>
    decreases list.len() - from,
{
    if from >= list.len() {
        None
    } else if list[from as int].address == address {
        Some(from)
    } else {
        index_of_addr(list, address, from + 1)
    }
}

pub fn find_addr(list: &Vec<ServerEntry>, address: &str) -> (r: Option<usize>)
    ensures
        match r {
            Some(i) => index_of_addr(entries(list@), address@, 0) == Some(i as nat) && i
                < list.len(),
            None => index_of_addr(entries(list@), address@, 0) is None,
        },
{
    let mut i: usize = 0;
    while i < list.len()
        invariant
            i <= list.len(),
            index_of_addr(entries(list@), address@, 0) == index_of_addr(
                entries(list@),
                address@,
                i as nat,
            ),
        decreases list.len() - i,
    {
        if str_eq(list[i].address.as_str(), address) {
            return Some(i);
        }
        i = i + 1;
    }
    None
}

pub fn copy_text(s: &Option<String>) -> (r: Option<String>)
    ensures
        text_of(r) == text_of(*s),
{
    match s {
        Some(s) => Some(s.clone()),
        None => None,
    }
}

pub fn copy_entry(e: &ServerEntry) -> (r: ServerEntry)
    ensures
        r@ == e@,
{
    ServerEntry {
        address: e.address.clone(),
        nickname: e.nickname.clone(),
        peer_id: copy_text(&e.peer_id),
        last_connected: e.last_connected,
        manually_added: e.manually_added,
    }
}

/// Of the saved servers, those that the user has added.
pub open spec fn manual_entries(list: Seq<EntryView>) -> Seq<EntryView> {
    list.filter(|e: EntryView| e.manually_added)
}

/// Keeps the saved servers that the user has added. Returns whether any was
/// dropped.
pub fn keep_manual_servers(list: &mut Vec<ServerEntry>) -> (changed: bool)
    ensures
        entries(final(list)@) == manual_entries(entries(old(list)@)),
        changed == (final(list)@.len() != old(list)@.len()),
{
    let ghost all = entries(list@);
    let pred = Ghost(|e: EntryView| e.manually_added);
    let mut kept: Vec<ServerEntry> = Vec::new();
    let mut i: usize = 0;
    proof {
        reveal(Seq::filter);
        assert(entries(kept@) =~= all.take(0).filter(pred@));
    }
    while i < list.len()
        invariant
            i <= list.len(),
            all == entries(list@),
            pred@ == (|e: EntryView| e.manually_added),
            entries(kept@) == all.take(i as int).filter(pred@),
            kept@.len() <= i,
        decreases list.len() - i,
    {
        proof {
            reveal(Seq::filter);
            assert(all.take(i as int + 1).drop_last() =~= all.take(i as int));
            assert(all.take(i as int + 1).last() == list@[i as int]@);
        }
        if list[i].manually_added {
            let ghost before = kept@;
            let copy = copy_entry(&list[i]);
            kept.push(copy);
            proof {
                assert(entries(kept@) =~= entries(before).push(copy@));
            }
        }
        i = i + 1;
    }
    proof {
        assert(all.take(all.len() as int) =~= all);
    }
    let changed = kept.len() != list.len();
    *list = kept;
    changed
}

pub open spec fn new_entry(address: Seq<char>) -> EntryView {
    EntryView {
        address,
        nickname: Seq::empty(),
        peer_id: None,
        last_connected: 0,
        manually_added: true,
    }
}

/// The list with a server in it as one that the user has added.
pub open spec fn with_server(list: Seq<EntryView>, input: Seq<char>) -> Seq<EntryView> {
    let address = addr::normalized(input);
    if address.len() == 0 {
        list
    } else {
        match index_of_addr(list, address, 0) {
            Some(i) => list.update(
                i as int,
                EntryView { manually_added: true, ..list[i as int] },
            ),
            None => list.push(new_entry(address)),
        }
    }
}

/// Makes sure that a server is in the list as one that the user has added.
/// Returns whether that changed the list.
pub fn ensure_server_in_list(list: &mut Vec<ServerEntry>, addr: &str) -> (changed: bool)
    ensures
        entries(final(list)@) == with_server(entries(old(list)@), addr@),
        changed == (entries(final(list)@) != entries(old(list)@)),
{
    let ghost before = entries(list@);
    let normalized = normalize_server_addr(addr);
    if normalized.as_str().is_empty() {
        return false;
    }
    match find_addr(list, normalized.as_str()) {
        Some(i) => {
            if list[i].manually_added {
                proof {
                    assert(before.update(
                        i as int,
                        EntryView { manually_added: true, ..before[i as int] },
                    ) =~= before);
                }
                return false;
            }
            let mut entry = copy_entry(&list[i]);
            entry.manually_added = true;
            list.set(i, entry);
            proof {
                assert(entries(list@) =~= before.update(i as int, entry@));
                assert(entries(list@)[i as int].manually_added);
                assert(!before[i as int].manually_added);
            }
            true
        },
        None => {
            let ghost old_list = list@;
            let entry = ServerEntry {
                address: normalized,
                nickname: String::new(),
                peer_id: None,
                last_connected: 0,
                manually_added: true,
            };
            list.push(entry);
            proof {
                assert(entry@.nickname =~= Seq::<char>::empty());
                assert(entries(list@) =~= entries(old_list).push(entry@));
                assert(entries(list@).len() != before.len());
            }
            true
        },
    }
}

/// Once a server is in the list, adding it again changes nothing.
pub proof fn adding_twice_is_adding_once(list: Seq<EntryView>, input: Seq<char>)
    ensures
        with_server(with_server(list, input), input) == with_server(list, input),
{
    let address = addr::normalized(input);
    let added = with_server(list, input);
    if address.len() > 0 {
        match index_of_addr(list, address, 0) {
            Some(i) => {
                index_is_first(list, address, 0);
                index_is_found(added, address, 0, i);
                assert(added.update(i as int, EntryView { manually_added: true, ..added[i as int] })
                    =~= added);
            },
            None => {
                index_is_first(list, address, 0);
                index_is_found(added, address, 0, list.len());
                assert(added.update(
                    list.len() as int,
                    EntryView { manually_added: true, ..added[list.len() as int] },
                ) =~= added);
            },
        }
    }
}

proof fn index_is_first(list: Seq<EntryView>, address: Seq<char>, from: nat)
    ensures
        match index_of_addr(list, address, from) {
            Some(i) => from <= i < list.len() && list[i as int].address == address && forall|j: int|
                from <= j < i ==> (#[trigger] list[j]).address != address,
            None => forall|j: int|
                from <= j < list.len() ==> (#[trigger] list[j]).address != address,
        },
    decreases list.len() - from,
{
    if from < list.len() && list[from as int].address != address {
        index_is_first(list, address, from + 1);
    }
}

proof fn index_is_found(list: Seq<EntryView>, address: Seq<char>, from: nat, at: nat)
    requires
        from <= at < list.len(),
        list[at as int].address == address,
        forall|j: int| from <= j < at ==> (#[trigger] list[j]).address != address,
    ensures
        index_of_addr(list, address, from) == Some(at),
    decreases at - from,
{
    if from < at {
        index_is_found(list, address, from + 1, at);
    }
}

/// Notes when a saved server was last connected to. Returns whether it is in the
/// list.
pub fn touch_server_connected(list: &mut Vec<ServerEntry>, addr: &str, now: u64) -> (found: bool)
    ensures
        match index_of_addr(entries(old(list)@), addr::normalized(addr@), 0) {
            Some(i) => found && entries(final(list)@) == entries(old(list)@).update(
                i as int,
                EntryView { last_connected: now, ..entries(old(list)@)[i as int] },
            ),
            None => !found && entries(final(list)@) == entries(old(list)@),
        },
{
    let ghost before = entries(list@);
    let normalized = normalize_server_addr(addr);
    match find_addr(list, normalized.as_str()) {
        Some(i) => {
            let mut entry = copy_entry(&list[i]);
            entry.last_connected = now;
            list.set(i, entry);
            proof {
                assert(entries(list@) =~= before.update(i as int, entry@));
            }
            true
        },
        None => false,
    }
}

/// How long ago something was, in words.
pub open spec fn ago_text(ts: u64, now: u64) -> Seq<char> {
    let ago: nat = if now >= ts {
        (now - ts) as nat
    } else {
        0
    };
    if ts == 0 {
        "Never connected"@
    } else if ago < 60 {
        "Just now"@
    } else if ago < 3_600 {
        text::decimal(ago / 60) + " min ago"@
    } else if ago < 86_400 {
        text::decimal(ago / 3_600) + " hours ago"@
    } else if ago < 2_592_000 {
        text::decimal(ago / 86_400) + " days ago"@
    } else {
        "Long ago"@
    }
}

pub fn format_last_connected(ts: u64, now: u64) -> (s: String)
    ensures
        s@ == ago_text(ts, now),
{
    if ts == 0 {
        return "Never connected".to_owned();
    }
    let ago: u64 = if now >= ts {
        now - ts
    } else {
        0
    };
    if ago < 60 {
        "Just now".to_owned()
    } else if ago < 3_600 {
        concat(decimal_string(ago / 60).as_str(), " min ago")
    } else if ago < 86_400 {
        concat(decimal_string(ago / 3_600).as_str(), " hours ago")
    } else if ago < 2_592_000 {
        concat(decimal_string(ago / 86_400).as_str(), " days ago")
    } else {
        "Long ago".to_owned()
    }
}

/// A server that has announced itself in the network.
#[derive(Clone, Debug)]
pub struct DiscoveredServer {
    pub hostname: String,
    pub address: String,
    pub token: String,
    pub peer_id: String,
    pub last_seen: Instant,
}

pub struct DiscoveredView {
    pub hostname: Seq<char>,
    pub address: Seq<char>,
    pub token: Seq<char>,
    pub peer_id: Seq<char>,
    pub last_seen: Instant,
}

impl View for DiscoveredServer {
    type V = DiscoveredView;

    open spec fn view(&self) -> DiscoveredView {
        DiscoveredView {
            hostname: self.hostname@,
            address: self.address@,
            token: self.token@,
            peer_id: self.peer_id@,
            last_seen: self.last_seen,
        }
    }
}

pub open spec fn found(servers: Seq<DiscoveredServer>) -> Seq<DiscoveredView> {
    servers.map_values(|d: DiscoveredServer| d@)
}

pub open spec fn fresh(last_seen: Instant, now: Instant) -> bool {
    now.since(last_seen).nanos < DISCOVERY_EXPIRY_NANOS
}

pub fn is_fresh(last_seen: Instant, now: Instant) -> (r: bool)
    ensures
        r == fresh(last_seen, now),
{
    now.saturating_duration_since(last_seen).nanos < DISCOVERY_EXPIRY_NANOS
}

/// An announcement.
#[derive(Clone, Debug)]
pub struct Beacon {
    pub hostname: String,
    pub port: u16,
    pub token: String,
    pub peer_id: String,
}

/// A line without the carriage return at its end.
pub open spec fn line(s: Seq<char>) -> Seq<char> {
    if s.len() > 0 && s.last() == '\r' {
        s.drop_last()
    } else {
        s
    }
}

/// The lines of a text. What follows the last line break is one only if there is
/// something.
pub open spec fn lines(s: Seq<char>) -> Seq<Seq<char>> {
    let parts = text::split(s, '\n');
    let all = Seq::new(
        parts.len(),
        |i: int|
            if i + 1 < parts.len() {
                line(parts[i])
            } else {
                parts[i]
            },
    );
    if parts.last().len() == 0 {
        all.drop_last()
    } else {
        all
    }
}

/// An announcement consists of a mark, the host's name, its port, its token and its
/// identity, each on a line of its own. One without an identity says too little.
pub open spec fn is_beacon(s: Seq<char>) -> bool {
    let l = lines(s);
    l.len() >= 5 && l[0] == "ST_DISCOVER"@ && text::trimmed(l[4]).len() > 0
}

pub open spec fn beacon_matches(s: Seq<char>, beacon: Beacon) -> bool {
    let l = lines(s);
    &&& beacon.hostname@ == l[1]
    &&& beacon.port == match text::unsigned(l[2], 65_535) {
        Some(port) => port as u16,
        None => addr::DEFAULT_APP_PORT,
    }
    &&& beacon.token@ == l[3]
    &&& beacon.peer_id@ == text::trimmed(l[4])
}

fn line_at(parts: &Vec<Vec<char>>, i: usize) -> (s: String)
    requires
        i < parts.len(),
    ensures
        s@ == if i + 1 < parts.len() {
            line(parts@[i as int]@)
        } else {
            parts@[i as int]@
        },
{
    let part = &parts[i];
    let n: usize = part.len();
    proof {
        assert(part@.subrange(0, n as int) =~= part@);
    }
    if i < parts.len() - 1 && n > 0 && part[n - 1] == '\r' {
        proof {
            assert(part@.subrange(0, n as int - 1) =~= part@.drop_last());
        }
        string_of(part, 0, n - 1)
    } else {
        string_of(part, 0, n)
    }
}

/// Reads an announcement.
pub fn parse_beacon(data: &str) -> (r: Option<Beacon>)
    ensures
        match r {
            Some(beacon) => is_beacon(data@) && beacon_matches(data@, beacon),
            None => !is_beacon(data@),
        },
{
    let v = chars_of(data);
    let n: usize = v.len();
    proof {
        assert(v@.subrange(0, n as int) =~= data@);
    }
    let parts = split_chars(&v, 0, n, '\n');
    let ghost texts = text::texts_of(parts@);
    let count: usize = if parts[parts.len() - 1].len() == 0 {
        parts.len() - 1
    } else {
        parts.len()
    };
    proof {
        assert(texts.last() == parts@[parts@.len() - 1]@);
        assert(lines(data@).len() == count);
    }
    if count < 5 {
        return None;
    }
    let mark = line_at(&parts, 0);
    let hostname = line_at(&parts, 1);
    let port_text = line_at(&parts, 2);
    let token = line_at(&parts, 3);
    let identity = line_at(&parts, 4);
    let peer_id = trim(identity.as_str());
    proof {
        let l = lines(data@);
        assert(texts[0] == parts@[0]@ && texts[1] == parts@[1]@ && texts[2] == parts@[2]@
            && texts[3] == parts@[3]@ && texts[4] == parts@[4]@);
        assert(l[0] == mark@ && l[1] == hostname@ && l[2] == port_text@ && l[3] == token@ && l[4]
            == identity@);
    }
    if !str_eq(mark.as_str(), "ST_DISCOVER") || peer_id.as_str().is_empty() {
        return None;
    }
    let port: u16 = match parse_unsigned(port_text.as_str(), 65_535) {
        Some(port) => port as u16,
        None => addr::DEFAULT_APP_PORT,
    };
    Some(Beacon { hostname, port, token, peer_id })
}

/// What `String::from_utf8_lossy` reads in bytes. What stands for bytes that are no
/// text, and how many of them it stands for, is not stated.
pub uninterp spec fn lossy_text(bytes: Seq<u8>) -> Seq<char>;

/// Calls `String::from_utf8_lossy`: the result depends on the bytes alone.
#[verifier::external_body]
pub(crate) fn from_utf8_lossy(bytes: &[u8]) -> (r: String)
    ensures
        r@ == lossy_text(bytes@),
{
    String::from_utf8_lossy(bytes).into_owned()
}

/// Reads an announcement as it came from the network.
pub fn read_beacon(datagram: &[u8]) -> (r: Option<Beacon>)
    ensures
        match r {
            Some(beacon) => is_beacon(lossy_text(datagram@)) && beacon_matches(
                lossy_text(datagram@),
                beacon,
            ),
            None => !is_beacon(lossy_text(datagram@)),
        },
{
    let data = from_utf8_lossy(datagram);
    parse_beacon(data.as_str())
}

/// Where a server that has announced itself is: at the address that the
/// announcement came from, and the port in it.
pub fn beacon_address(beacon: &Beacon, source_ip: &str) -> (s: String)
    ensures
        s@ == source_ip@ + ":"@ + text::decimal(beacon.port as nat),
{
    let mut s = concat(source_ip, ":");
    s.append(decimal_string(beacon.port as u64).as_str());
    s
}

pub open spec fn still_fresh(servers: Seq<DiscoveredView>, now: Instant) -> Seq<DiscoveredView> {
    servers.filter(|d: DiscoveredView| fresh(d.last_seen, now))
}

/// Drops the servers that have not been heard of lately. Returns whether there
/// were any.
pub fn drop_expired(servers: &mut Vec<DiscoveredServer>, now: Instant) -> (changed: bool)
    ensures
        found(final(servers)@) == still_fresh(found(old(servers)@), now),
        changed == (final(servers)@.len() != old(servers)@.len()),
{
    let ghost all = found(servers@);
    let pred = Ghost(|d: DiscoveredView| fresh(d.last_seen, now));
    let mut kept: Vec<DiscoveredServer> = Vec::new();
    let mut i: usize = 0;
    proof {
        reveal(Seq::filter);
        assert(found(kept@) =~= all.take(0).filter(pred@));
    }
    while i < servers.len()
        invariant
            i <= servers.len(),
            all == found(servers@),
            pred@ == (|d: DiscoveredView| fresh(d.last_seen, now)),
            found(kept@) == all.take(i as int).filter(pred@),
        decreases servers.len() - i,
    {
        proof {
            reveal(Seq::filter);
            assert(all.take(i as int + 1).drop_last() =~= all.take(i as int));
            assert(all.take(i as int + 1).last() == servers@[i as int]@);
        }
        if is_fresh(servers[i].last_seen, now) {
            let ghost before = kept@;
            let copy = copy_discovered(&servers[i]);
            kept.push(copy);
            proof {
                assert(found(kept@) =~= found(before).push(copy@));
            }
        }
        i = i + 1;
    }
    proof {
        assert(all.take(all.len() as int) =~= all);
    }
    let changed = kept.len() != servers.len();
    *servers = kept;
    changed
}

fn copy_discovered(d: &DiscoveredServer) -> (r: DiscoveredServer)
    ensures
        r@ == d@,
{
    DiscoveredServer {
        hostname: d.hostname.clone(),
        address: d.address.clone(),
        token: d.token.clone(),
        peer_id: d.peer_id.clone(),
        last_seen: d.last_seen,
    }
}

pub open spec fn index_of_found(
    servers: Seq<DiscoveredView>,
    address: Seq<char>,
    from: nat,
) -> Option<nat>
    decreases servers.len() - from,
{
    if from >= servers.len() {
        None
    } else if servers[from as int].address == address {
        Some(from)
    } else {
        index_of_found(servers, address, from + 1)
    }
}

/// The servers once one has announced itself.
pub open spec fn with_beacon(
    servers: Seq<DiscoveredView>,
    server: DiscoveredView,
    now: Instant,
) -> Seq<DiscoveredView> {
    let kept = still_fresh(servers, now);
    match index_of_found(kept, server.address, 0) {
        Some(i) => kept.update(i as int, server),
        None => kept.push(server),
    }
}

/// Notes an announcement. Returns whether the servers that are there have
/// changed.
pub fn note_beacon(
    servers: &mut Vec<DiscoveredServer>,
    beacon: Beacon,
    source_ip: &str,
    now: Instant,
) -> (changed: bool)
    ensures
        ({
            let address = source_ip@ + ":"@ + text::decimal(beacon.port as nat);
            let server = DiscoveredView {
                hostname: beacon.hostname@,
                address,
                token: beacon.token@,
                peer_id: beacon.peer_id@,
                last_seen: now,
            };
            let kept = still_fresh(found(old(servers)@), now);
            &&& found(final(servers)@) == with_beacon(found(old(servers)@), server, now)
            &&& changed == (kept.len() != old(servers)@.len() || index_of_found(
                kept,
                address,
                0,
            ) is None)
        }),
{
    let address = beacon_address(&beacon, source_ip);
    let changed = drop_expired(servers, now);
    let ghost kept = found(servers@);
    let server = DiscoveredServer {
        hostname: beacon.hostname,
        address,
        token: beacon.token,
        peer_id: beacon.peer_id,
        last_seen: now,
    };
    let mut i: usize = 0;
    while i < servers.len()
        invariant
            i <= servers.len(),
            kept == found(servers@),
            index_of_found(kept, server.address@, 0) == index_of_found(
                kept,
                server.address@,
                i as nat,
            ),
        ensures
            kept == found(servers@),
            i <= servers.len(),
            match index_of_found(kept, server.address@, 0) {
                Some(k) => i == k && i < servers.len(),
                None => i == servers.len(),
            },
        decreases servers.len() - i,
    {
        if str_eq(servers[i].address.as_str(), server.address.as_str()) {
            break;
        }
        i = i + 1;
    }
    let ghost before = servers@;
    if i < servers.len() {
        servers.set(i, server);
        proof {
            assert(found(servers@) =~= kept.update(i as int, server@));
        }
        changed
    } else {
        servers.push(server);
        proof {
            assert(found(servers@) =~= kept.push(server@));
        }
        true
    }
}

} // verus!
