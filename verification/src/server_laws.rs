//! What holds of known servers, of the ways to them, and of a connection that is lost.
use crate::addr;
use crate::addr::{IpAddr, PathClass};
use crate::cards;
use crate::cards::{CardView, Scene};
use crate::codecs;
use crate::codecs::{VideoCodecSupport, VideoCodecSupportReport};
use crate::connection;
use crate::connection::{AutoReconnect, ReconnectStep, StateView};
use crate::discovery;
use crate::discovery::{ApiHost, Discovery, LanUpgrade};
use crate::home;
use crate::protocol::VideoCodec;
use crate::servers;
use crate::servers::{DiscoveredServer, DiscoveredView, EntryView};
use crate::text;
use crate::text_laws;
use crate::time::Instant;
use vstd::prelude::*;
use vstd::string::*;

verus! {

/// The waits between attempts are half a second, one, two and four seconds, and eight from
/// then on.
pub proof fn waits_grow_from_half_a_second(attempts: u32)
    ensures
        attempts == 0 ==> connection::backoff_millis(attempts) == 500,
        0 < attempts <= 4 ==> connection::backoff_millis(attempts) == 2 * connection::backoff_millis(
            (attempts - 1) as u32,
        ),
        attempts >= 4 ==> connection::backoff_millis(attempts) == 8_000,
{
}

/// A connection that was lost is tried again: first a time is set, then it is waited for,
/// and when it has come the attempt is counted. A server that has turned up nearby ends the
/// wait.
pub proof fn lost_connections_are_tried_again(
    reconnect: AutoReconnect,
    message: Seq<char>,
    codec_excluded: bool,
    lan: bool,
    now: Instant,
)
    requires
        !connection::terminal(message),
        now.nanos + 8_000_000_000 <= u64::MAX,
    ensures
        ({
            let (step, after) = reconnect.decides(
                StateView::Error(message),
                codec_excluded,
                true,
                lan,
                now,
            );
            match reconnect.next_at {
                None => {
                    &&& step matches ReconnectStep::LookAgain(wait) && wait.nanos == 1_000_000
                        * connection::backoff_millis(reconnect.attempts)
                    &&& after.attempts == reconnect.attempts
                    &&& after.next_at matches Some(at) && at.nanos == now.nanos + 1_000_000
                        * connection::backoff_millis(reconnect.attempts)
                },
                Some(at) => if at.nanos <= now.nanos {
                    &&& step is Retry
                    &&& reconnect.attempts < u32::MAX ==> after.attempts == reconnect.attempts + 1
                    &&& reconnect.attempts == u32::MAX ==> after.attempts == u32::MAX
                } else if lan {
                    &&& step is LookAgainNow
                    &&& after.next_at == Some(now)
                    &&& after.attempts == reconnect.attempts
                } else {
                    &&& step matches ReconnectStep::LookAgain(wait) && now.nanos + wait.nanos
                        == at.nanos
                    &&& after == reconnect
                },
            }
        }),
{
}

/// Nothing is tried without an address, while a connection is being made, nor after the
/// user has disconnected, unless a codec has just been excluded.
pub proof fn nothing_is_tried_without_need(
    reconnect: AutoReconnect,
    message: Seq<char>,
    excluded: bool,
    has_address: bool,
    lan: bool,
    now: Instant,
)
    ensures
        reconnect.decides(StateView::Error(message), excluded, false, lan, now) == (
            ReconnectStep::Nothing,
            reconnect,
        ),
        reconnect.decides(StateView::Connecting, excluded, has_address, lan, now) == (
            ReconnectStep::Nothing,
            reconnect,
        ),
        reconnect.decides(StateView::Disconnected, false, has_address, lan, now) == (
            ReconnectStep::Nothing,
            reconnect,
        ),
        reconnect.decides(StateView::Disconnected, true, true, lan, now) == (
            ReconnectStep::ConnectAgain,
            reconnect,
        ),
        reconnect.decides(StateView::Disconnected, true, false, lan, now) == (
            ReconnectStep::Nothing,
            reconnect,
        ),
        reconnect.decides(StateView::Connected, excluded, has_address, lan, now).0
            == ReconnectStep::Online,
{
}

/// An error ends the attempts if it begins in one of three ways, and in no other.
pub proof fn terminal_errors_begin_so(message: Seq<char>, rest: Seq<char>)
    ensures
        connection::terminal("Authentication failed"@ + rest),
        connection::terminal("Server error:"@ + rest),
        connection::terminal("GL upload failed"@ + rest),
        connection::terminal(message) ==> text::starts_with(message, "Authentication failed"@)
            || text::starts_with(message, "Server error:"@) || text::starts_with(
            message,
            "GL upload failed"@,
        ),
{
    text::concatenation_starts_with("Authentication failed"@, rest);
    text::concatenation_starts_with("Server error:"@, rest);
    text::concatenation_starts_with("GL upload failed"@, rest);
}

/// A session that ends without a word counts as lost; one that has its error, or was ended
/// by the user, stays as it is.
pub proof fn silent_ends_are_losses(message: Seq<char>)
    ensures
        connection::after_loss(StateView::Connected) == StateView::Error("Connection lost"@),
        connection::after_loss(StateView::Connecting) == StateView::Error("Connection lost"@),
        connection::after_loss(StateView::Error(message)) == StateView::Error(message),
        connection::after_loss(StateView::Disconnected) == StateView::Disconnected,
{
}

/// A session is over when the user has disconnected or begun another.
pub proof fn sessions_are_cancelled(disconnect: bool, current: u64, own: u64)
    ensures
        connection::cancelled(true, current, own),
        current != own ==> connection::cancelled(disconnect, current, own),
        current == own ==> !connection::cancelled(false, current, own),
{
}

/// A codec is left over if it was there and has not been excluded; nothing is left over if
/// no codec is.
pub proof fn exclusions_take_codecs_away(
    support: VideoCodecSupport,
    excluded: VideoCodecSupport,
    codec: VideoCodec,
)
    ensures
        support.without(excluded).has(codec) <==> support.has(codec) && !excluded.has(codec),
        support.has(VideoCodec::H264) == support.h264,
        support.has(VideoCodec::Hevc) == support.hevc,
        support.has(VideoCodec::Av1) == support.av1,
        support.none() <==> !support.h264 && !support.hevc && !support.av1,
{
    if !support.none() {
        let some = choose|codec: VideoCodec| support.has(codec);
        assert(support.has(some));
    }
    if support.none() {
        assert(!support.has(VideoCodec::H264) && !support.has(VideoCodec::Hevc) && !support.has(
            VideoCodec::Av1,
        ));
    }
}

/// Exclusions are kept as long as some codec is left over, and forgotten otherwise.
pub proof fn exclusions_are_kept_while_they_can_be(
    supported: VideoCodecSupport,
    excluded: VideoCodecSupport,
    codec: VideoCodec,
)
    ensures
        supported.has(codec) && !excluded.has(codec) ==> codecs::kept_exclusions(supported, excluded)
            == excluded,
        (forall|other: VideoCodec| #[trigger] supported.has(other) ==> excluded.has(other))
            ==> codecs::kept_exclusions(supported, excluded).none(),
{
    let left = supported.without(excluded);
    if supported.has(codec) && !excluded.has(codec) {
        assert(left.has(codec));
    }
    if forall|other: VideoCodec| #[trigger] supported.has(other) ==> excluded.has(other) {
        assert forall|other: VideoCodec| !left.has(other) by {
            if left.has(other) {
                assert(supported.has(other));
            }
        }
        assert(left.none());
    }
}

/// What is reported to the server leaves out the excluded codecs in every respect; full
/// chroma is left out as a whole where it is not wanted.
pub proof fn reports_leave_out_what_is_excluded(
    report: VideoCodecSupportReport,
    excluded: VideoCodecSupport,
    codec: VideoCodec,
    yuv444: bool,
    hardware_yuv444: bool,
)
    ensures
        ({
            let told = codecs::report_without(report, excluded);
            &&& told.supported.has(codec) <==> report.supported.has(codec) && !excluded.has(codec)
            &&& told.hardware.has(codec) <==> report.hardware.has(codec) && !excluded.has(codec)
            &&& told.yuv444.has(codec) <==> report.yuv444.has(codec) && !excluded.has(codec)
            &&& told.hardware_yuv444.has(codec) <==> report.hardware_yuv444.has(codec)
                && !excluded.has(codec)
        }),
        ({
            let told = codecs::filtered_report(report, yuv444, hardware_yuv444);
            &&& told.supported == report.supported
            &&& told.hardware == report.hardware
            &&& told.yuv444.has(codec) <==> yuv444 && report.yuv444.has(codec)
            &&& told.hardware_yuv444.has(codec) <==> hardware_yuv444 && report.hardware_yuv444.has(
                codec,
            )
        }),
{
}

/// The names of the codecs.
pub proof fn codecs_have_names()
    ensures
        codecs::name_of(VideoCodec::H264) == "h264"@,
        codecs::name_of(VideoCodec::Hevc) == "hevc"@,
        codecs::name_of(VideoCodec::Av1) == "av1"@,
{
}

/// A server that has announced itself is believed to be there for ten seconds, one that the
/// directory lists for thirty, and a session moves to one that has been nearby for two.
pub proof fn news_get_old(seen: Instant, host: ApiHost, upgrade: LanUpgrade, now: Instant)
    requires
        seen.nanos <= now.nanos,
        host.last_seen.nanos <= now.nanos,
    ensures
        servers::fresh(seen, now) <==> now.nanos - seen.nanos < 10_000_000_000,
        discovery::listed(host, now) <==> host.candidates@.len() > 0 && now.nanos
            - host.last_seen.nanos < 30_000_000_000,
        upgrade.since matches Some(since) ==> (upgrade.moves(now) <==> now.nanos >= since.nanos
            + 2_000_000_000),
        upgrade.since matches Some(since) ==> upgrade.started(now) == since,
        upgrade.since is None ==> upgrade.started(now) == now && !upgrade.moves(now),
{
}

/// A server nearby is one of the user's own: it has announced itself lately, with the user's
/// token, and there is a token.
pub proof fn nearby_servers_are_the_users_own(
    d: DiscoveredServer,
    token: Seq<char>,
    now: Instant,
)
    ensures
        discovery::nearby(d, token, now) <==> d.token@ == token && token.len() > 0
            && servers::fresh(d.last_seen, now),
{
}

/// The first server nearby with an identity is found, and none where there is none.
pub proof fn the_first_nearby_is_found(
    found: Seq<DiscoveredServer>,
    token: Seq<char>,
    now: Instant,
    peer_id: Seq<char>,
    from: nat,
)
    requires
        from <= found.len(),
    ensures
        match discovery::first_nearby(found, token, now, peer_id, from) {
            Some(address) => exists|k: int|
                {
                    &&& from <= k < found.len()
                    &&& (#[trigger] found[k]).peer_id@ == peer_id
                    &&& discovery::nearby(found[k], token, now)
                    &&& found[k].address@ == address
                    &&& forall|j: int|
                        from <= j < k ==> (#[trigger] found[j]).peer_id@ != peer_id
                            || !discovery::nearby(found[j], token, now)
                },
            None => forall|j: int|
                from <= j < found.len() ==> (#[trigger] found[j]).peer_id@ != peer_id
                    || !discovery::nearby(found[j], token, now),
        },
    decreases found.len() - from,
{
    if from < found.len() {
        let here = found[from as int];
        if here.peer_id@ == peer_id && discovery::nearby(here, token, now) {
            assert(found[from as int].address@ == discovery::first_nearby(
                found,
                token,
                now,
                peer_id,
                from,
            )->0);
        } else {
            the_first_nearby_is_found(found, token, now, peer_id, from + 1);
        }
    }
}

/// The best address of a peer is the one nearby; where there is none, the best of those that
/// the directory lists for this very peer.
pub proof fn the_best_address_is_nearby(
    d: Discovery,
    token: Seq<char>,
    now: Instant,
    peer_id: Seq<char>,
)
    ensures
        ({
            let near = discovery::first_nearby(d.servers@, token, now, peer_id, 0);
            let best = d.best_addr(token, now, peer_id);
            &&& near is Some ==> best == near
            &&& near is None && d.api_host is None ==> best is None
            &&& near is None ==> (d.api_host matches Some(host) ==> {
                let its_own = host.peer_id matches Some(id) && id@ == peer_id;
                &&& its_own && discovery::listed(host, now) ==> best == addr::picked(
                    host.candidates@,
                )
                &&& !its_own || !discovery::listed(host, now) ==> best is None
            })
        }),
{
}

/// A session is moved to its peer's address nearby if it does not run nearby already.
pub proof fn far_sessions_are_moved(
    d: Discovery,
    token: Seq<char>,
    now: Instant,
    peer_id: Seq<char>,
    current: Seq<char>,
)
    ensures
        ({
            let near = discovery::first_nearby(d.servers@, token, now, peer_id, 0);
            near matches Some(address) ==> (addr::path_class(current) != PathClass::Lan && address
                != current ==> d.upgrade(token, now, Some(peer_id), current) == Some(address))
        }),
        discovery::first_nearby(d.servers@, token, now, peer_id, 0) is None ==> d.upgrade(
            token,
            now,
            Some(peer_id),
            current,
        ) is None,
        d.upgrade(token, now, None, current) is None,
{
}

/// A saved server is found at its first place in the list.
pub proof fn saved_servers_are_found(list: Seq<EntryView>, address: Seq<char>, from: nat)
    requires
        from <= list.len(),
    ensures
        match servers::index_of_addr(list, address, from) {
            Some(k) => from <= k < list.len() && list[k as int].address == address && forall|j: int|
                from <= j < k ==> (#[trigger] list[j]).address != address,
            None => forall|j: int| from <= j < list.len() ==> (#[trigger] list[j]).address
                != address,
        },
    decreases list.len() - from,
{
    if from < list.len() && list[from as int].address != address {
        saved_servers_are_found(list, address, from + 1);
    }
}

/// Adding a server marks the one with its address as the user's, or puts it at the end of
/// the list. No other server changes, and none is lost.
pub proof fn adding_a_server(list: Seq<EntryView>, input: Seq<char>, other: int)
    requires
        0 <= other < list.len(),
    ensures
        ({
            let address = addr::normalized(input);
            let after = servers::with_server(list, input);
            &&& address.len() == 0 ==> after == list
            &&& after.len() == list.len() || after.len() == list.len() + 1
            &&& list[other].address != address ==> after[other] == list[other]
            &&& after[other].address == list[other].address
            &&& after[other].nickname == list[other].nickname
            &&& after[other].peer_id == list[other].peer_id
            &&& after[other].last_connected == list[other].last_connected
            &&& list[other].manually_added ==> after[other].manually_added
            &&& after.len() > list.len() ==> after.last().address == address
                && after.last().manually_added && after.last().last_connected == 0
                && after.last().peer_id is None && after.last().nickname.len() == 0
        }),
{
    saved_servers_are_found(list, addr::normalized(input), 0);
}

/// An added server is in the list, as one of the user's.
pub proof fn added_servers_are_listed(list: Seq<EntryView>, input: Seq<char>)
    requires
        addr::normalized(input).len() > 0,
    ensures
        exists|i: int|
            0 <= i < servers::with_server(list, input).len() && (#[trigger] servers::with_server(
                list,
                input,
            )[i]).address == addr::normalized(input) && servers::with_server(
                list,
                input,
            )[i].manually_added,
{
    let address = addr::normalized(input);
    let after = servers::with_server(list, input);
    saved_servers_are_found(list, address, 0);
    match servers::index_of_addr(list, address, 0) {
        Some(k) => {
            assert(after[k as int].manually_added && after[k as int].address == address);
        },
        None => {
            assert(after[list.len() as int].address == address);
        },
    }
}

/// What is kept of the saved servers is what the user has added, in order.
pub proof fn manual_servers_are_kept(list: Seq<EntryView>, last: EntryView)
    ensures
        last.manually_added ==> servers::manual_entries(list.push(last)) == servers::manual_entries(
            list,
        ).push(last),
        !last.manually_added ==> servers::manual_entries(list.push(last))
            == servers::manual_entries(list),
        servers::manual_entries(Seq::empty()).len() == 0,
{
    reveal(Seq::filter);
    assert(list.push(last).drop_last() =~= list);
}

/// How long ago a server was connected to is told in the unit that fits.
pub proof fn times_are_told_in_words(ts: u64, now: u64)
    requires
        0 < ts <= now,
    ensures
        ({
            let ago = (now - ts) as nat;
            let told = servers::ago_text(ts, now);
            &&& ago < 60 ==> told == "Just now"@
            &&& 60 <= ago < 3_600 ==> told == text::decimal(ago / 60) + " min ago"@
            &&& 3_600 <= ago < 86_400 ==> told == text::decimal(ago / 3_600) + " hours ago"@
            &&& 86_400 <= ago < 2_592_000 ==> told == text::decimal(ago / 86_400) + " days ago"@
            &&& ago >= 2_592_000 ==> told == "Long ago"@
        }),
        servers::ago_text(0, now) == "Never connected"@,
{
}

/// A server that announces itself is listed with what it says, once under its address. What
/// has been heard of lately stays; what has not is dropped.
pub proof fn beacons_are_listed(
    known: Seq<DiscoveredView>,
    server: DiscoveredView,
    now: Instant,
)
    ensures
        ({
            let kept = servers::still_fresh(known, now);
            let after = servers::with_beacon(known, server, now);
            &&& exists|i: int| 0 <= i < after.len() && #[trigger] after[i] == server
            &&& kept.len() <= after.len() <= kept.len() + 1
            &&& forall|i: int|
                0 <= i < kept.len() ==> (#[trigger] kept[i]).address == server.address || after[i]
                    == kept[i]
            &&& after.len() > kept.len() ==> forall|i: int|
                0 <= i < kept.len() ==> (#[trigger] kept[i]).address != server.address
        }),
{
    let kept = servers::still_fresh(known, now);
    let after = servers::with_beacon(known, server, now);
    found_servers_are_found(kept, server.address, 0);
    match servers::index_of_found(kept, server.address, 0) {
        Some(k) => {
            assert(after[k as int] == server);
        },
        None => {
            assert(after[kept.len() as int] == server);
        },
    }
}

/// A server that has announced itself is found at its first place in the list.
pub proof fn found_servers_are_found(list: Seq<DiscoveredView>, address: Seq<char>, from: nat)
    requires
        from <= list.len(),
    ensures
        match servers::index_of_found(list, address, from) {
            Some(k) => from <= k < list.len() && list[k as int].address == address && forall|j: int|
                from <= j < k ==> (#[trigger] list[j]).address != address,
            None => forall|j: int| from <= j < list.len() ==> (#[trigger] list[j]).address
                != address,
        },
    decreases list.len() - from,
{
    if from < list.len() && list[from as int].address != address {
        found_servers_are_found(list, address, from + 1);
    }
}

/// Of the servers found, those stay that have been heard of in the last ten seconds.
pub proof fn expired_servers_are_dropped(
    known: Seq<DiscoveredView>,
    last: DiscoveredView,
    now: Instant,
)
    requires
        last.last_seen.nanos <= now.nanos,
    ensures
        now.nanos - last.last_seen.nanos < 10_000_000_000 ==> servers::still_fresh(
            known.push(last),
            now,
        ) == servers::still_fresh(known, now).push(last),
        now.nanos - last.last_seen.nanos >= 10_000_000_000 ==> servers::still_fresh(
            known.push(last),
            now,
        ) == servers::still_fresh(known, now),
        servers::still_fresh(Seq::empty(), now).len() == 0,
{
    reveal(Seq::filter);
    assert(known.push(last).drop_last() =~= known);
}

/// No sign that ends a line.
pub open spec fn one_line(s: Seq<char>) -> bool {
    forall|i: int| 0 <= i < s.len() ==> #[trigger] s[i] != '\n' && s[i] != '\r'
}

/// An announcement of five lines is read as what was put into it: the name, the port, the
/// token and the identity.
pub proof fn announcements_are_read_back(
    mark: Seq<char>,
    host: Seq<char>,
    port: Seq<char>,
    token: Seq<char>,
    identity: Seq<char>,
    beacon: servers::Beacon,
)
    requires
        mark == "ST_DISCOVER"@,
        one_line(mark),
        one_line(host),
        one_line(port),
        one_line(token),
        one_line(identity),
        text::trimmed(identity).len() > 0,
        identity.len() > 0,
    ensures
        ({
            let said = mark.push('\n') + host;
            let said = said.push('\n') + port;
            let said = said.push('\n') + token;
            let said = said.push('\n') + identity;
            &&& servers::is_beacon(said)
            &&& servers::beacon_matches(said, beacon) ==> {
                &&& beacon.hostname@ == host
                &&& beacon.token@ == token
                &&& beacon.peer_id@ == text::trimmed(identity)
                &&& text::unsigned(port, 65_535) matches Some(n) ==> beacon.port == n
                &&& text::unsigned(port, 65_535) is None ==> beacon.port == 28_480
            }
        }),
{
    let a = mark.push('\n') + host;
    let b = a.push('\n') + port;
    let c = b.push('\n') + token;
    let said = c.push('\n') + identity;
    text_laws::whole_texts_are_one_piece(mark, '\n');
    text_laws::pieces_follow_one_another(mark, '\n', host);
    text_laws::pieces_follow_one_another(a, '\n', port);
    text_laws::pieces_follow_one_another(b, '\n', token);
    text_laws::pieces_follow_one_another(c, '\n', identity);
    let parts = text::split(said, '\n');
    assert(parts =~= seq![mark, host, port, token, identity]);
    ends_of_lines_stay(mark);
    ends_of_lines_stay(host);
    ends_of_lines_stay(port);
    ends_of_lines_stay(token);
    let l = servers::lines(said);
    assert(parts.last() == identity);
    assert(l.len() == 5);
    assert(l[0] == mark && l[1] == host && l[2] == port && l[3] == token && l[4] == identity);
}

proof fn ends_of_lines_stay(s: Seq<char>)
    requires
        one_line(s),
    ensures
        servers::line(s) == s,
{
    if s.len() > 0 {
        assert(s[s.len() - 1] != '\r');
    }
}

/// The first sign after a place is found there, and nothing before it is one.
pub proof fn first_signs_are_first(s: Seq<char>, c: char, from: nat)
    requires
        from <= s.len(),
    ensures
        match addr::first_index(s, c, from) {
            Some(k) => from <= k < s.len() && s[k as int] == c && forall|j: int|
                from <= j < k ==> #[trigger] s[j] != c,
            None => forall|j: int| from <= j < s.len() ==> #[trigger] s[j] != c,
        },
    decreases s.len() - from,
{
    if from < s.len() && s[from as int] != c {
        first_signs_are_first(s, c, from + 1);
    }
}

/// The host of an address is what stands before its port.
pub proof fn hosts_stand_before_ports(host: Seq<char>, port: Seq<char>)
    requires
        host.len() > 0,
        host[0] != '[',
        forall|i: int| 0 <= i < port.len() ==> #[trigger] port[i] != ':',
    ensures
        addr::host_of(host.push(':') + port) == host,
{
    let s = host.push(':') + port;
    addr::last_index_is_last(s, ':');
    assert(s[host.len() as int] == ':');
    match addr::last_index(s, ':') {
        Some(k) => {
            if k > host.len() {
                assert(s[k as int] == port[k - host.len() - 1]);
            }
            assert(s.take(k as int) =~= host);
        },
        None => {},
    }
    assert(s[0] == host[0]);
}

/// A host in brackets is what stands in them.
pub proof fn bracketed_hosts_are_unwrapped(host: Seq<char>, rest: Seq<char>)
    requires
        forall|i: int| 0 <= i < host.len() ==> #[trigger] host[i] != ']',
    ensures
        addr::host_of((seq!['['] + host).push(']') + rest) == host,
{
    let s = (seq!['['] + host).push(']') + rest;
    first_signs_are_first(s, ']', 1);
    let at = host.len() + 1;
    assert(s[at as int] == ']');
    match addr::first_index(s, ']', 1) {
        Some(k) => {
            if k < at {
                assert(s[k as int] == host[k - 1]);
            }
            assert(s.subrange(1, k as int) =~= host);
        },
        None => {},
    }
}

/// An address without a port is its own host.
pub proof fn bare_hosts_are_hosts(host: Seq<char>)
    requires
        forall|i: int| 0 <= i < host.len() ==> #[trigger] host[i] != ':' && host[i] != '[',
    ensures
        addr::host_of(host) == host,
{
    addr::last_index_is_last(host, ':');
}

/// Addresses of the home network, of the machine itself and those that it gives itself are
/// near. Those of 10.0.0.0/8 and of carriers are taken for an overlay's. All others are
/// public.
pub proof fn addresses_have_classes(b: Seq<u8>)
    requires
        b.len() == 4,
    ensures
        b[0] == 127 ==> addr::class_v4(b) == PathClass::Lan,
        b[0] == 192 && b[1] == 168 ==> addr::class_v4(b) == PathClass::Lan,
        b[0] == 169 && b[1] == 254 ==> addr::class_v4(b) == PathClass::Lan,
        b[0] == 172 && 16 <= b[1] < 32 ==> addr::class_v4(b) == PathClass::Lan,
        b[0] == 10 ==> addr::class_v4(b) == PathClass::Vpn,
        b[0] == 100 && 64 <= b[1] < 128 ==> addr::class_v4(b) == PathClass::Vpn,
        b[0] != 127 && b[0] != 192 && b[0] != 169 && b[0] != 172 && b[0] != 10 && b[0] != 100
            ==> addr::class_v4(b) == PathClass::Public,
        b[0] == 192 && b[1] != 168 ==> addr::class_v4(b) == PathClass::Public,
        b[0] == 169 && b[1] != 254 ==> addr::class_v4(b) == PathClass::Public,
        b[0] == 172 && (b[1] < 16 || b[1] >= 32) ==> addr::class_v4(b) == PathClass::Public,
        b[0] == 100 && (b[1] < 64 || b[1] >= 128) ==> addr::class_v4(b) == PathClass::Public,
{
}

/// Of the newer addresses the machine's own and those of one link are near, and private
/// ones are taken for an overlay's.
pub proof fn newer_addresses_have_classes(g: Seq<u16>)
    requires
        g.len() == 8,
    ensures
        (forall|i: int| 0 <= i < 7 ==> #[trigger] g[i] == 0) && g[7] == 1 ==> addr::class_v6(g)
            == PathClass::Lan,
        0xfe80 <= g[0] < 0xfec0 ==> addr::class_v6(g) == PathClass::Lan,
        0xfc00 <= g[0] < 0xfe00 ==> addr::class_v6(g) == PathClass::Vpn,
        0 < g[0] < 0xfc00 || 0xfe00 <= g[0] < 0xfe80 || g[0] >= 0xfec0 ==> addr::class_v6(g)
            == PathClass::Public,
{
    if (forall|i: int| 0 <= i < 7 ==> #[trigger] g[i] == 0) && g[7] == 1 {
        assert(g =~= seq![0u16, 0u16, 0u16, 0u16, 0u16, 0u16, 0u16, 1u16]);
    }
    if addr::loopback_v6(g) {
        assert(g[0] == 0);
    }
}

/// An address is of the class of its host, whichever kind of address that is; a name is
/// taken for a public one.
pub proof fn paths_have_the_class_of_their_host(address: Seq<char>)
    ensures
        addr::ipv4(addr::host_of(address)) matches Some(b) ==> addr::path_class(address)
            == addr::class_v4(b),
        addr::ipv4(addr::host_of(address)) is None ==> (addr::ipv6(addr::host_of(address)) matches Some(
            g,
        ) ==> addr::path_class(address) == addr::class_v6(g)),
        addr::ipv4(addr::host_of(address)) is None && addr::ipv6(addr::host_of(address)) is None
            ==> addr::path_class(address) == PathClass::Public,
{
}

/// From a distance an overlay's address comes before a public one, and that before one of a
/// home network; among equals the first listed counts.
pub proof fn overlays_are_picked_first(candidates: Seq<String>, i: int, k: int)
    requires
        addr::is_pick(candidates, i),
        0 <= k < candidates.len(),
    ensures
        addr::picked(candidates) == Some(candidates[i]@),
        addr::path_class(candidates[k]@) == PathClass::Vpn ==> addr::path_class(candidates[i]@)
            == PathClass::Vpn,
        addr::path_class(candidates[k]@) == PathClass::Public ==> addr::path_class(candidates[i]@)
            != PathClass::Lan,
        addr::path_class(candidates[k]@) == addr::path_class(candidates[i]@) ==> i <= k,
{
    let j = choose|j: int| addr::is_pick(candidates, j);
    addr::picks_are_unique(candidates, i, j, k);
    assert(addr::rank_at(candidates, i) <= addr::rank_at(candidates, k));
    if k < i {
        assert(addr::rank_at(candidates, i) < addr::rank_at(candidates, k));
    }
}

/// A part of an address is a number up to 255, without a zero before it.
pub proof fn octets_are_small_numbers(n: nat)
    requires
        n <= 255,
    ensures
        addr::octet(text::decimal(n)) == Some(n as u8),
        n > 0 ==> addr::octet(seq!['0'] + text::decimal(n)) is None,
        addr::octet(Seq::empty()) is None,
{
    text::decimal_reads_back(n);
    reveal_with_fuel(text::decimal, 4);
    assert(text::decimal(n).len() <= 3);
    if text::decimal(n).len() > 1 {
        assert(text::decimal(n)[0] != '0');
    }
}

/// An address of four numbers is read back as those.
pub proof fn four_numbers_are_an_address(a: nat, b: nat, c: nat, d: nat)
    requires
        a <= 255,
        b <= 255,
        c <= 255,
        d <= 255,
    ensures
        ({
            let s = text::decimal(a).push('.') + text::decimal(b);
            let s = s.push('.') + text::decimal(c);
            let s = s.push('.') + text::decimal(d);
            addr::ipv4(s) == Some(seq![a as u8, b as u8, c as u8, d as u8])
        }),
{
    octets_are_small_numbers(a);
    octets_are_small_numbers(b);
    octets_are_small_numbers(c);
    octets_are_small_numbers(d);
    no_dots_in_numbers(a);
    no_dots_in_numbers(b);
    no_dots_in_numbers(c);
    no_dots_in_numbers(d);
    let s1 = text::decimal(a).push('.') + text::decimal(b);
    let s2 = s1.push('.') + text::decimal(c);
    let s3 = s2.push('.') + text::decimal(d);
    text_laws::whole_texts_are_one_piece(text::decimal(a), '.');
    text_laws::pieces_follow_one_another(text::decimal(a), '.', text::decimal(b));
    text_laws::pieces_follow_one_another(s1, '.', text::decimal(c));
    text_laws::pieces_follow_one_another(s2, '.', text::decimal(d));
    assert(text::split(s3, '.') =~= seq![
        text::decimal(a),
        text::decimal(b),
        text::decimal(c),
        text::decimal(d),
    ]);
}

proof fn no_dots_in_numbers(n: nat)
    ensures
        forall|i: int| 0 <= i < text::decimal(n).len() ==> #[trigger] text::decimal(n)[i] != '.',
{
    text::decimal_reads_back(n);
    assert forall|i: int| 0 <= i < text::decimal(n).len() implies #[trigger] text::decimal(n)[i]
        != '.' by {
        assert(text::is_digit(text::decimal(n)[i]));
    }
}

/// Hexadecimal digits count from 0 to 15, in either case; each further digit counts what
/// stood before it sixteenfold.
pub proof fn hexadecimal_digits_count_sixteenfold(s: Seq<char>, c: char)
    ensures
        '0' <= c <= '9' ==> addr::hex_value(c) == Some((c as u32 - '0' as u32) as nat),
        'a' <= c <= 'f' ==> addr::hex_value(c) == Some((c as u32 - 'a' as u32) as nat + 10),
        'A' <= c <= 'F' ==> addr::hex_value(c) == Some((c as u32 - 'A' as u32) as nat + 10),
        !('0' <= c <= '9') && !('a' <= c <= 'f') && !('A' <= c <= 'F') ==> addr::hex_value(c)
            is None && addr::hex_number(s.push(c)) is None,
        addr::hex_number(s) matches Some(n) ==> (addr::hex_value(c) matches Some(d)
            ==> addr::hex_number(s.push(c)) == Some(16 * n + d)),
        addr::hex_number(Seq::empty()) == Some(0nat),
{
    assert(s.push(c).drop_last() =~= s);
}

/// A name or an address without a port gets the usual one; what has a port keeps it.
pub proof fn ports_are_added_where_missing(input: Seq<char>)
    requires
        text::trimmed(input).len() > 0,
        text::trimmed(input)[0] != '[',
        forall|i: int|
            0 <= i < text::trimmed(input).len() ==> #[trigger] text::trimmed(input)[i] != ':',
        addr::ipv6(text::trimmed(input)) is None,
    ensures
        addr::normalized(input) == text::trimmed(input) + ":28480"@,
{
    addr::last_index_is_last(text::trimmed(input), ':');
}

/// What has a port that is a number keeps it; brackets get a port where they have none; an
/// address of the newer kind gets both; and nothing is made of nothing.
pub proof fn complete_addresses_are_kept(input: Seq<char>)
    ensures
        ({
            let s = text::trimmed(input);
            &&& s.len() == 0 ==> addr::normalized(input).len() == 0
            &&& s.len() >= 2 && s[0] == '[' && s.last() == ']' ==> addr::normalized(input) == s
                + ":28480"@
            &&& s.len() > 0 && s[0] != '[' && addr::ipv6(s) is Some ==> addr::normalized(input)
                == "["@ + s + "]:28480"@
            &&& s.len() > 0 && s[0] != '[' && addr::ipv6(s) is None && addr::names_port(s)
                ==> addr::normalized(input) == s
            &&& s.len() >= 2 && s[0] == '[' && s.last() != ']' && addr::closes_bracket(s, 0)
                ==> addr::normalized(input) == s
        }),
{
}

/// A text names a port if what follows its only colon is a number of a port.
pub proof fn named_ports_are_numbers(host: Seq<char>, port: Seq<char>)
    requires
        host.len() > 0,
        forall|i: int| 0 <= i < host.len() ==> #[trigger] host[i] != ':',
        forall|i: int| 0 <= i < port.len() ==> #[trigger] port[i] != ':',
    ensures
        addr::names_port(host.push(':') + port) <==> text::unsigned(port, 65_535) is Some,
{
    let s = host.push(':') + port;
    addr::last_index_is_last(s, ':');
    assert(s[host.len() as int] == ':');
    match addr::last_index(s, ':') {
        Some(k) => {
            if k > host.len() {
                assert(s[k as int] == port[k - host.len() - 1]);
            } else if k < host.len() {
                assert(s[host.len() as int] != ':');
            }
            assert(s.take(k as int) =~= host);
            assert(s.skip(k as int + 1) =~= port);
            addr::last_index_is_last(host, ':');
        },
        None => {},
    }
}

/// The texts of a list are sorted as in a dictionary: by the first character in which they
/// differ, and the shorter first where they do not.
pub proof fn texts_are_ordered_by_their_first_difference(
    common: Seq<char>,
    a: Seq<char>,
    b: Seq<char>,
)
    ensures
        cards::text_less(common + a, common + b) == cards::text_less(a, b),
        a.len() > 0 && b.len() > 0 && a[0] != b[0] ==> cards::text_less(a, b) == (a[0] < b[0]),
        a.len() == 0 && b.len() > 0 ==> cards::text_less(a, b),
        b.len() == 0 ==> !cards::text_less(a, b),
    decreases common.len(),
{
    if common.len() == 0 {
        assert(common + a =~= a);
        assert(common + b =~= b);
    } else {
        texts_are_ordered_by_their_first_difference(common.skip(1), a, b);
        assert((common + a).skip(1) =~= common.skip(1) + a);
        assert((common + b).skip(1) =~= common.skip(1) + b);
        assert((common + a)[0] == (common + b)[0]);
    }
}

/// A saved server was connected to more recently than another if its time is later, or
/// stands before it where the times are equal.
pub proof fn recency_goes_by_time_then_place(list: Seq<EntryView>, a: int, b: int)
    ensures
        list[a].last_connected > list[b].last_connected ==> cards::more_recent(list, a, b)
            && !cards::more_recent(list, b, a),
        list[a].last_connected == list[b].last_connected && a < b ==> cards::more_recent(list, a, b)
            && !cards::more_recent(list, b, a),
        !cards::more_recent(list, a, a),
{
}

/// The card of a saved server leads to where the server is seen, and to its saved address
/// otherwise. It bears the user's name for it first.
pub proof fn saved_servers_have_cards(
    entry: EntryView,
    idx: usize,
    live: Option<Seq<char>>,
    name: Option<Seq<char>>,
    now: u64,
)
    ensures
        ({
            let card = cards::saved_card(entry, idx, live, name, now);
            &&& card.saved_idx == Some(idx)
            &&& card.peer_id == entry.peer_id
            &&& entry.peer_id matches Some(id) ==> card.card_key == id
            &&& entry.peer_id is None ==> card.card_key == entry.address
            &&& live matches Some(at) ==> card.connect_addr == at && card.path == Some(
                addr::path_class(at),
            ) && card.subtitle == text::truncated(at, 24)
            &&& live is None ==> card.connect_addr == entry.address && card.path is None
            &&& live is None && entry.nickname.len() > 0 ==> card.subtitle == text::truncated(
                entry.address,
                24,
            )
            &&& live is None && entry.nickname.len() == 0 ==> card.subtitle == servers::ago_text(
                entry.last_connected,
                now,
            )
            &&& card.is_dynamic == (live is Some)
            &&& card.icon_active <==> live is Some || entry.last_connected > 0
            &&& entry.nickname.len() > 0 ==> card.display_name == entry.nickname
            &&& entry.nickname.len() == 0 && live is Some ==> (name matches Some(n) ==> (n.len() > 0
                ==> card.display_name == n))
            &&& entry.nickname.len() == 0 && (live is None || name is None) ==> card.display_name
                == entry.address
        }),
{
}

/// The card of a server that is only seen leads there, under its own name where it has one.
pub proof fn found_servers_have_cards(
    peer_id: Seq<char>,
    address: Seq<char>,
    name: Option<Seq<char>>,
)
    ensures
        ({
            let card = cards::found_card(peer_id, address, name);
            &&& card.card_key == peer_id
            &&& card.peer_id == Some(peer_id)
            &&& card.connect_addr == address
            &&& card.path == Some(addr::path_class(address))
            &&& card.saved_idx is None
            &&& card.is_dynamic && card.icon_active
            &&& name matches Some(n) ==> (n.len() > 0 ==> card.display_name == n)
            &&& name is None ==> card.display_name == address
            &&& card.subtitle == text::truncated(address, 24)
        }),
{
}

/// The cards of the saved servers come first, in the order given; those only seen follow.
pub proof fn saved_cards_come_first(
    scene: Scene,
    saved: Seq<CardView>,
    peers: Seq<String>,
    k: nat,
)
    requires
        k <= peers.len(),
    ensures
        saved.is_prefix_of(scene.all_cards(saved, peers, k)),
        forall|i: int|
            saved.len() <= i < scene.all_cards(saved, peers, k).len() ==> (
            #[trigger] scene.all_cards(saved, peers, k)[i]).saved_idx is None && scene.all_cards(
                saved,
                peers,
                k,
            )[i].is_dynamic && scene.live(Some(scene.all_cards(saved, peers, k)[i].card_key))
                == Some(scene.all_cards(saved, peers, k)[i].connect_addr),
    decreases k,
{
    if k == 0 {
        assert(saved =~= saved.subrange(0, saved.len() as int));
    } else {
        saved_cards_come_first(scene, saved, peers, (k - 1) as nat);
        let before = scene.all_cards(saved, peers, (k - 1) as nat);
        let after = scene.all_cards(saved, peers, k);
        assert(saved =~= after.subrange(0, saved.len() as int));
        assert forall|i: int| saved.len() <= i < after.len() implies (#[trigger] after[i]).saved_idx
            is None && after[i].is_dynamic && scene.live(Some(after[i].card_key)) == Some(
            after[i].connect_addr,
        ) by {
            if i < before.len() {
                assert(after[i] == before[i]);
            }
        }
    }
}

/// Each card of a saved server shows the server at its place in the list.
pub proof fn saved_cards_show_their_server(
    scene: Scene,
    list: Seq<EntryView>,
    order: Seq<usize>,
    k: nat,
    i: int,
)
    requires
        k <= order.len(),
        0 <= i < scene.saved_cards(list, order, k).len(),
    ensures
        scene.saved_cards(list, order, k)[i].saved_idx matches Some(idx) && scene.saved_cards(
            list,
            order,
            k,
        )[i] == cards::saved_card(
            list[idx as int],
            idx,
            scene.live(list[idx as int].peer_id),
            scene.name(list[idx as int].peer_id),
            scene.now_secs,
        ),
    decreases k,
{
    if k > 0 {
        let before = scene.saved_cards(list, order, (k - 1) as nat);
        if i < before.len() {
            saved_cards_show_their_server(scene, list, order, (k - 1) as nat, i);
        }
    }
}

/// A server is seen where it was heard of last nearby, and otherwise where the directory
/// lists it; its name comes from there too.
pub proof fn servers_are_seen_nearby_first(
    d: Discovery,
    token: Seq<char>,
    now: Instant,
    peer_id: Seq<char>,
)
    ensures
        ({
            let near = d.lan_addr(token, now, peer_id, d.servers@.len());
            let seen = d.live_addr(token, now, peer_id);
            &&& near is Some ==> seen == near
            &&& near is None && !d.lists(now, peer_id) ==> seen is None
            &&& near is None && d.lists(now, peer_id) ==> (d.api_host matches Some(host) && seen
                == addr::picked(host.candidates@))
            &&& d.lists(now, peer_id) <==> peer_id.len() > 0 && (d.api_host matches Some(host)
                && discovery::listed(host, now) && (host.peer_id matches Some(id) && id@
                == peer_id))
        }),
        ({
            let near = d.lan_name(token, now, peer_id, d.servers@.len());
            let name = d.live_name(token, now, peer_id);
            &&& near is Some ==> name == near
            &&& near is None && !d.lists(now, peer_id) ==> name is None
        }),
{
}

/// The address nearby is that of the last server in the list that has the identity and is
/// nearby.
pub proof fn the_last_nearby_counts(
    d: Discovery,
    token: Seq<char>,
    now: Instant,
    peer_id: Seq<char>,
    k: nat,
)
    requires
        k <= d.servers@.len(),
    ensures
        match d.lan_addr(token, now, peer_id, k) {
            Some(address) => exists|i: int|
                {
                    &&& 0 <= i < k
                    &&& (#[trigger] d.servers@[i]).peer_id@ == peer_id
                    &&& discovery::nearby(d.servers@[i], token, now)
                    &&& d.servers@[i].address@ == address
                    &&& forall|j: int|
                        i < j < k ==> (#[trigger] d.servers@[j]).peer_id@ != peer_id
                            || !discovery::nearby(d.servers@[j], token, now)
                },
            None => forall|j: int|
                0 <= j < k ==> (#[trigger] d.servers@[j]).peer_id@ != peer_id || !discovery::nearby(
                    d.servers@[j],
                    token,
                    now,
                ),
        },
    decreases k,
{
    if k > 0 {
        let last = d.servers@[k - 1];
        if discovery::nearby(last, token, now) && last.peer_id@ == peer_id {
            assert(d.servers@[k - 1].address@ == d.lan_addr(token, now, peer_id, k)->0);
        } else {
            the_last_nearby_counts(d, token, now, peer_id, (k - 1) as nat);
        }
    }
}

/// One text stands in another where the other is made of something, the text, and something.
pub proof fn texts_contain_their_parts(before: Seq<char>, part: Seq<char>, after: Seq<char>)
    ensures
        home::contains_text(before + part + after, part),
        home::contains_text(part, Seq::empty()),
{
    let s = before + part + after;
    assert(s.subrange(before.len() as int, (before.len() + part.len()) as int) =~= part);
    assert(home::stands_at(s, part, before.len() as int));
    assert(part.subrange(0, 0) =~= Seq::empty());
    assert(home::stands_at(part, Seq::empty(), 0));
}

/// A text that contains another is made of something, that text, and something.
pub proof fn parts_stand_somewhere(s: Seq<char>, part: Seq<char>)
    requires
        home::contains_text(s, part),
    ensures
        exists|at: int| 0 <= at <= s.len() - part.len() && #[trigger] s.subrange(at, at + part.len())
            == part,
{
    let at = choose|at: int| home::stands_at(s, part, at);
    assert(s.subrange(at, at + part.len()) == part);
}

/// An empty query finds every card; another finds those in whose address or name it stands,
/// in lower case.
pub proof fn queries_find_names_and_addresses(
    query: Seq<char>,
    address: Seq<char>,
    name: Seq<char>,
)
    ensures
        ({
            let wanted = home::lowercased(text::trimmed(query));
            &&& wanted.len() == 0 ==> home::query_finds(query, address, name)
            &&& home::contains_text(home::lowercased(address), wanted) ==> home::query_finds(
                query,
                address,
                name,
            )
            &&& home::contains_text(home::lowercased(name), wanted) ==> home::query_finds(
                query,
                address,
                name,
            )
            &&& home::query_finds(query, address, name) && wanted.len() > 0 ==> home::contains_text(
                home::lowercased(address),
                wanted,
            ) || home::contains_text(home::lowercased(name), wanted)
        }),
{
}

/// A card belongs to the saved server with its identity, and where there is none, to the
/// first with its address.
pub proof fn cards_belong_to_saved_servers(list: Seq<EntryView>, card: CardView)
    ensures
        card.peer_id matches Some(id) ==> (home::index_of_peer(list, id, 0) matches Some(k)
            ==> home::entry_of_card(list, card) == Some(k)),
        card.peer_id is None || home::index_of_peer(list, card.peer_id->0, 0) is None
            ==> home::entry_of_card(list, card) == servers::index_of_addr(
            list,
            card.connect_addr,
            0,
        ),
{
}

/// A saved server is found by its identity at its first place in the list.
pub proof fn peers_are_found(list: Seq<EntryView>, peer_id: Seq<char>, from: nat)
    requires
        from <= list.len(),
    ensures
        match home::index_of_peer(list, peer_id, from) {
            Some(k) => from <= k < list.len() && list[k as int].peer_id == Some(peer_id) && forall|
                j: int,
            |
                from <= j < k ==> (#[trigger] list[j]).peer_id != Some(peer_id),
            None => forall|j: int| from <= j < list.len() ==> (#[trigger] list[j]).peer_id != Some(
                peer_id,
            ),
        },
    decreases list.len() - from,
{
    if from < list.len() && list[from as int].peer_id != Some(peer_id) {
        peers_are_found(list, peer_id, from + 1);
    }
}

/// What is learned from a card fills gaps and overwrites nothing: the identity where none is
/// known, and a name where the user has given none and the card is that of a server only
/// seen.
pub proof fn cards_fill_gaps(entry: EntryView, card: CardView)
    ensures
        ({
            let after = home::with_card(entry, card);
            &&& after.address == entry.address
            &&& after.last_connected == entry.last_connected
            &&& after.manually_added == entry.manually_added
            &&& entry.peer_id is Some ==> after.peer_id == entry.peer_id
            &&& entry.peer_id is None ==> after.peer_id == card.peer_id
            &&& entry.nickname.len() > 0 || card.saved_idx is Some || card.display_name
                == card.connect_addr ==> after.nickname == entry.nickname
            &&& entry.nickname.len() == 0 && card.saved_idx is None && card.display_name
                != card.connect_addr ==> after.nickname == card.display_name
        }),
{
}

/// A bracketed host with a colon behind the bracket is complete, wherever the bracket is.
pub proof fn bracketed_ports_are_kept(input: Seq<char>, at: int)
    requires
        0 < at,
        at + 1 < text::trimmed(input).len(),
        text::trimmed(input)[0] == '[',
        text::trimmed(input)[at] == ']',
        text::trimmed(input)[at + 1] == ':',
        text::trimmed(input).last() != ']',
    ensures
        addr::normalized(input) == text::trimmed(input),
{
    closing_brackets_are_found(text::trimmed(input), 0, at);
}

proof fn closing_brackets_are_found(s: Seq<char>, from: nat, at: int)
    requires
        from <= at,
        at + 1 < s.len(),
        s[at] == ']',
        s[at + 1] == ':',
    ensures
        addr::closes_bracket(s, from),
    decreases at - from,
{
    if from < at {
        closing_brackets_are_found(s, from + 1, at);
    }
}

/// Where no bracket is followed by a colon, none closes with a port.
pub proof fn open_brackets_name_no_port(s: Seq<char>, from: nat)
    requires
        forall|i: int|
            from <= i && i + 1 < s.len() && #[trigger] s[i] == ']' ==> s[i + 1] != ':',
    ensures
        !addr::closes_bracket(s, from),
    decreases s.len() - from,
{
    if from + 1 < s.len() {
        open_brackets_name_no_port(s, from + 1);
    }
}

/// What has fewer than five lines, does not start with the mark or names nobody is no
/// announcement.
pub proof fn other_texts_announce_nothing(s: Seq<char>)
    ensures
        servers::lines(s).len() < 5 ==> !servers::is_beacon(s),
        servers::lines(s).len() >= 5 && servers::lines(s)[0] != "ST_DISCOVER"@
            ==> !servers::is_beacon(s),
        servers::lines(s).len() >= 5 && text::trimmed(servers::lines(s)[4]).len() == 0
            ==> !servers::is_beacon(s),
{
}

/// A group of an address of the newer kind has one to four digits.
pub proof fn groups_have_few_digits(s: Seq<char>)
    ensures
        addr::group(s) is Some ==> 1 <= s.len() <= 4,
        s.len() == 0 || s.len() > 4 ==> addr::group(s) is None,
{
}

/// Four bytes at the end of an address of the newer kind stand for two groups.
pub proof fn bytes_pair_into_groups(bytes: Seq<u8>)
    ensures
        addr::as_groups(bytes).len() == 2,
        addr::as_groups(bytes)[0] as int == 256 * bytes[0] + bytes[1],
        addr::as_groups(bytes)[1] as int == 256 * bytes[2] + bytes[3],
{
}

/// A text is read as an address in at most one way, and is read wherever it is one.
pub proof fn addresses_are_read_one_way(s: Seq<char>, a: Option<IpAddr>, b: Option<IpAddr>)
    requires
        addr::ip_matches(s, a),
        addr::ip_matches(s, b),
    ensures
        a is None <==> addr::ipv4(s) is None && addr::ipv6(s) is None,
        a is None <==> b is None,
        a matches Some(IpAddr::V4(x)) ==> addr::ipv4(s) == Some(x@) && (
        b matches Some(IpAddr::V4(y)) && x@ == y@),
        a matches Some(IpAddr::V6(x)) ==> addr::ipv6(s) == Some(x@) && (
        b matches Some(IpAddr::V6(y)) && x@ == y@),
{
}

/// Nothing is said of no codec but a dash, and each that is supported is named.
pub proof fn supported_codecs_are_named(support: VideoCodecSupport)
    ensures
        !support.h264 && !support.hevc && !support.av1 ==> codecs::summary_of(support) == "-"@,
        support.h264 && !support.hevc && !support.av1 ==> codecs::summary_of(support) == "h264"@,
        !support.h264 && support.hevc && !support.av1 ==> codecs::summary_of(support) == "hevc"@,
        !support.h264 && !support.hevc && support.av1 ==> codecs::summary_of(support) == "av1"@,
        support.h264 && support.hevc && !support.av1 ==> codecs::summary_of(support) == "h264"@
            + " / "@ + "hevc"@,
        support.h264 && !support.hevc && support.av1 ==> codecs::summary_of(support) == "h264"@
            + " / "@ + "av1"@,
        !support.h264 && support.hevc && support.av1 ==> codecs::summary_of(support) == "hevc"@
            + " / "@ + "av1"@,
        support.h264 && support.hevc && support.av1 ==> codecs::summary_of(support) == "h264"@
            + " / "@ + "hevc"@ + " / "@ + "av1"@,
{
    reveal_strlit("h264");
    reveal_strlit("hevc");
    reveal_strlit("av1");
}

/// In the longer list a codec stands with what decodes it, and what decodes it in full
/// colour where anything does.
pub proof fn codecs_are_told_with_their_decoders(report: VideoCodecSupportReport, codec: VideoCodec)
    ensures
        codecs::about_entry(report, codec) is Some <==> report.supported.has(codec),
        codecs::about_entry(report, codec) matches Some(entry) ==> {
            &&& text::starts_with(entry, codecs::name_of(codec))
            &&& report.hardware.has(codec) ==> home::contains_text(entry, "(hw"@)
            &&& !report.hardware.has(codec) ==> home::contains_text(entry, "(sw"@)
            &&& report.yuv444.has(codec) && report.hardware_yuv444.has(codec)
                ==> home::contains_text(entry, ",444hw)"@)
            &&& report.yuv444.has(codec) && !report.hardware_yuv444.has(codec)
                ==> home::contains_text(entry, ",444sw)"@)
            &&& !report.yuv444.has(codec) ==> entry.len() == codecs::name_of(codec).len() + 4
        },
{
    reveal_strlit("(");
    reveal_strlit(")");
    reveal_strlit("hw");
    reveal_strlit("sw");
    reveal_strlit("(hw");
    reveal_strlit("(sw");
    reveal_strlit(",444hw");
    reveal_strlit(",444sw");
    reveal_strlit(",444hw)");
    reveal_strlit(",444sw)");
    if let Some(entry) = codecs::about_entry(report, codec) {
        let name = codecs::name_of(codec);
        let n = name.len() as int;
        let plain = if report.hardware.has(codec) {
            "(hw"@
        } else {
            "(sw"@
        };
        assert(entry.take(n) =~= name);
        assert(entry =~= name + plain + entry.skip(n + 3));
        texts_contain_their_parts(name, plain, entry.skip(n + 3));
        if report.yuv444.has(codec) {
            let full = if report.hardware_yuv444.has(codec) {
                ",444hw)"@
            } else {
                ",444sw)"@
            };
            assert(entry =~= entry.take(n + 3) + full + Seq::<char>::empty());
            texts_contain_their_parts(entry.take(n + 3), full, Seq::empty());
        }
    }
}

/// The cards of a home screen differ in their keys, wherever they stand.
pub proof fn cards_differ_in_their_keys(cards: Seq<CardView>, i: int, j: int)
    requires
        home::keys_differ(cards),
        0 <= i < cards.len(),
        0 <= j < cards.len(),
        cards[i].card_key == cards[j].card_key,
    ensures
        i == j,
{
}

/// An entry that is missing adds nothing to a list; the first stands alone, and each that
/// follows is set apart.
pub proof fn lists_grow_at_the_end(so_far: Seq<char>, entry: Seq<char>)
    ensures
        codecs::listed(so_far, None) == so_far,
        codecs::listed(Seq::empty(), Some(entry)) == entry,
        so_far.len() > 0 ==> codecs::listed(so_far, Some(entry)) == so_far + " / "@ + entry,
        codecs::dash_if_empty(Seq::empty()) == "-"@,
        so_far.len() > 0 ==> codecs::dash_if_empty(so_far) == so_far,
{
}

} // verus!
