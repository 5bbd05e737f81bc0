//! The cards of the home screen: one for each server, saved or just found, with
//! the best way to it.
use crate::addr;
use crate::addr::{classify_path, pick_remote_reachable, PathClass};
use crate::discovery;
use crate::discovery::{is_nearby, Discovery};
use crate::servers;
use crate::servers::{copy_text, format_last_connected, ServerEntry};
use crate::text;
use crate::text::{chars_of, str_eq, truncate_str};
use crate::time::Instant;
use vstd::prelude::*;
use vstd::string::*;

verus! {

/// A card.
#[derive(Clone, Debug)]
pub struct MergedServer {
    /// What tells it from all others: the server's identity, or its address.
    pub card_key: String,
    pub connect_addr: String,
    pub display_name: String,
    pub subtitle: String,
    pub peer_id: Option<String>,
    /// How the server is reached, if it can be seen right now.
    pub path: Option<PathClass>,
    pub is_dynamic: bool,
    /// Its place among the saved servers.
    pub saved_idx: Option<usize>,
    pub icon_active: bool,
}

pub struct CardView {
    pub card_key: Seq<char>,
    pub connect_addr: Seq<char>,
    pub display_name: Seq<char>,
    pub subtitle: Seq<char>,
    pub peer_id: Option<Seq<char>>,
    pub path: Option<PathClass>,
    pub is_dynamic: bool,
    pub saved_idx: Option<usize>,
    pub icon_active: bool,
}

impl View for MergedServer {
    type V = CardView;

    open spec fn view(&self) -> CardView {
        CardView {
            card_key: self.card_key@,
            connect_addr: self.connect_addr@,
            display_name: self.display_name@,
            subtitle: self.subtitle@,
            peer_id: servers::text_of(self.peer_id),
            path: self.path,
            is_dynamic: self.is_dynamic,
            saved_idx: self.saved_idx,
            icon_active: self.icon_active,
        }
    }
}

pub open spec fn cards_of(cards: Seq<MergedServer>) -> Seq<CardView> {
    cards.map_values(|c: MergedServer| c@)
}

/// One saved server comes before another: it was connected to more recently, or
/// stands before it in the list.
pub open spec fn more_recent(list: Seq<servers::EntryView>, a: int, b: int) -> bool {
    list[a].last_connected > list[b].last_connected || (list[a].last_connected
        == list[b].last_connected && a < b)
}

/// The saved servers, most recent first.
pub open spec fn is_recency_order(order: Seq<usize>, list: Seq<servers::EntryView>, n: int) -> bool {
    &&& order.len() == n
    &&& forall|i: int| 0 <= i < order.len() ==> (#[trigger] order[i]) < n
    &&& forall|i: int, j: int|
        0 <= i < j < order.len() ==> more_recent(
            list,
            #[trigger] order[i] as int,
            #[trigger] order[j] as int,
        )
    &&& forall|x: int| 0 <= x < n ==> #[trigger] order.contains(x as usize)
}

proof fn inserting_keeps_order(
    order: Seq<usize>,
    list: Seq<servers::EntryView>,
    k: usize,
    at: int,
)
    requires
        is_recency_order(order, list, k as int),
        k < list.len(),
        0 <= at <= order.len(),
        forall|i: int|
            0 <= i < at ==> list[(#[trigger] order[i]) as int].last_connected
                >= list[k as int].last_connected,
        at < order.len() ==> list[order[at] as int].last_connected < list[k as int].last_connected,
    ensures
        is_recency_order(order.insert(at, k), list, k + 1),
{
    let next = order.insert(at, k);
    assert forall|i: int, j: int| 0 <= i < j < next.len() implies more_recent(
        list,
        #[trigger] next[i] as int,
        #[trigger] next[j] as int,
    ) by {
        if j < at {
        } else if j == at {
            assert(next[i] == order[i]);
        } else if i < at {
            assert(next[i] == order[i] && next[j] == order[j - 1]);
        } else if i == at {
            assert(next[j] == order[j - 1]);
            if j - 1 > at {
                assert(more_recent(list, order[at] as int, order[j - 1] as int));
            }
        } else {
            assert(next[i] == order[i - 1] && next[j] == order[j - 1]);
        }
    }
    assert forall|x: int| 0 <= x < k + 1 implies #[trigger] next.contains(x as usize) by {
        if x == k {
            assert(next[at] == k);
        } else {
            assert(order.contains(x as usize));
            let i = choose|i: int| 0 <= i < order.len() && order[i] == x as usize;
            if i < at {
                assert(next[i] == x as usize);
            } else {
                assert(next[i + 1] == x as usize);
            }
        }
    }
}

/// The order in which saved servers are shown.
pub fn recency_order(list: &Vec<ServerEntry>) -> (order: Vec<usize>)
    ensures
        is_recency_order(order@, servers::entries(list@), list@.len() as int),
{
    let ghost views = servers::entries(list@);
    let mut order: Vec<usize> = Vec::new();
    let mut k: usize = 0;
    while k < list.len()
        invariant
            k <= list.len(),
            views == servers::entries(list@),
            is_recency_order(order@, views, k as int),
        decreases list.len() - k,
    {
        let mut at: usize = 0;
        while at < order.len() && list[order[at]].last_connected >= list[k].last_connected
            invariant
                at <= order.len(),
                k < list.len(),
                views == servers::entries(list@),
                is_recency_order(order@, views, k as int),
                forall|i: int|
                    0 <= i < at ==> views[(#[trigger] order@[i]) as int].last_connected
                        >= views[k as int].last_connected,
            decreases order.len() - at,
        {
            at = at + 1;
        }
        proof {
            inserting_keeps_order(order@, views, k, at as int);
        }
        order.insert(at, k);
        k = k + 1;
    }
    order
}

/// The order of texts: by their first difference.
pub open spec fn text_less(a: Seq<char>, b: Seq<char>) -> bool
    decreases a.len(),
{
    if b.len() == 0 {
        false
    } else if a.len() == 0 {
        true
    } else if a[0] == b[0] {
        text_less(a.skip(1), b.skip(1))
    } else {
        a[0] < b[0]
    }
}

proof fn text_order_is_total(a: Seq<char>, b: Seq<char>)
    ensures
        a == b || text_less(a, b) || text_less(b, a),
        !(text_less(a, b) && text_less(b, a)),
        a == b ==> !text_less(a, b),
    decreases a.len(),
{
    if a.len() > 0 && b.len() > 0 && a[0] == b[0] {
        text_order_is_total(a.skip(1), b.skip(1));
        if a.skip(1) == b.skip(1) {
            assert(a =~= seq![a[0]] + a.skip(1));
            assert(b =~= seq![b[0]] + b.skip(1));
        }
    } else if a.len() == 0 && b.len() == 0 {
        assert(a =~= b);
    }
}

proof fn text_order_is_transitive(a: Seq<char>, b: Seq<char>, c: Seq<char>)
    requires
        text_less(a, b),
        text_less(b, c),
    ensures
        text_less(a, c),
    decreases a.len(),
{
    if a.len() > 0 && b.len() > 0 && c.len() > 0 && a[0] == b[0] && b[0] == c[0] {
        text_order_is_transitive(a.skip(1), b.skip(1), c.skip(1));
    }
}

pub fn is_text_less(a: &str, b: &str) -> (r: bool)
    ensures
        r == text_less(a@, b@),
{
    let x = chars_of(a);
    let y = chars_of(b);
    let mut i: usize = 0;
    proof {
        assert(x@.skip(0) =~= a@);
        assert(y@.skip(0) =~= b@);
    }
    while i < x.len() && i < y.len() && x[i] == y[i]
        invariant
            i <= x.len(),
            i <= y.len(),
            text_less(a@, b@) == text_less(x@.skip(i as int), y@.skip(i as int)),
        decreases x.len() - i,
    {
        proof {
            assert(x@.skip(i as int).skip(1) =~= x@.skip(i as int + 1));
            assert(y@.skip(i as int).skip(1) =~= y@.skip(i as int + 1));
        }
        i = i + 1;
    }
    if i >= y.len() {
        false
    } else if i >= x.len() {
        true
    } else {
        x[i] < y[i]
    }
}

impl Discovery {
    /// Where a server was last seen nearby, among the first `k` that were found.
    pub open spec fn lan_addr(
        self,
        token: Seq<char>,
        now: Instant,
        peer_id: Seq<char>,
        k: nat,
    ) -> Option<Seq<char>>
        decreases k,
    {
        if k == 0 || k > self.servers@.len() {
            None
        } else {
            let d = self.servers@[k - 1];
            if discovery::nearby(d, token, now) && d.peer_id@ == peer_id {
                Some(d.address@)
            } else {
                self.lan_addr(token, now, peer_id, (k - 1) as nat)
            }
        }
    }

    /// The name that a server nearby gives itself.
    pub open spec fn lan_name(
        self,
        token: Seq<char>,
        now: Instant,
        peer_id: Seq<char>,
        k: nat,
    ) -> Option<Seq<char>>
        decreases k,
    {
        if k == 0 || k > self.servers@.len() {
            None
        } else {
            let d = self.servers@[k - 1];
            match self.lan_name(token, now, peer_id, (k - 1) as nat) {
                Some(name) => Some(name),
                None => if discovery::nearby(d, token, now) && d.peer_id@ == peer_id
                    && d.hostname@.len() > 0 {
                    Some(d.hostname@)
                } else {
                    None
                },
            }
        }
    }

    /// The directory lists a server with this identity.
    pub open spec fn lists(self, now: Instant, peer_id: Seq<char>) -> bool {
        match self.api_host {
            Some(host) => discovery::listed(host, now) && discovery::is_peer(host.peer_id, peer_id)
                && peer_id.len() > 0,
            None => false,
        }
    }

    /// Where a server can be reached right now: nearby, or as the directory says.
    pub open spec fn live_addr(
        self,
        token: Seq<char>,
        now: Instant,
        peer_id: Seq<char>,
    ) -> Option<Seq<char>> {
        match self.lan_addr(token, now, peer_id, self.servers@.len()) {
            Some(address) => Some(address),
            None => if self.lists(now, peer_id) {
                addr::picked(self.api_host->0.candidates@)
            } else {
                None
            },
        }
    }

    pub open spec fn live_name(
        self,
        token: Seq<char>,
        now: Instant,
        peer_id: Seq<char>,
    ) -> Option<Seq<char>> {
        match self.lan_name(token, now, peer_id, self.servers@.len()) {
            Some(name) => Some(name),
            None => if self.lists(now, peer_id) {
                servers::text_of(self.api_host->0.hostname)
            } else {
                None
            },
        }
    }

    fn find_lan_addr(&self, token: &str, now: Instant, peer_id: &str) -> (r: Option<String>)
        ensures
            servers::text_of(r) == self.lan_addr(token@, now, peer_id@, self.servers@.len()),
    {
        let mut k: usize = self.servers.len();
        while k > 0
            invariant
                k <= self.servers.len(),
                self.lan_addr(token@, now, peer_id@, self.servers@.len()) == self.lan_addr(
                    token@,
                    now,
                    peer_id@,
                    k as nat,
                ),
            decreases k,
        {
            let d = &self.servers[k - 1];
            if is_nearby(d, token, now) && str_eq(d.peer_id.as_str(), peer_id) {
                return Some(d.address.clone());
            }
            k = k - 1;
        }
        None
    }

    fn find_lan_name(&self, token: &str, now: Instant, peer_id: &str) -> (r: Option<String>)
        ensures
            servers::text_of(r) == self.lan_name(token@, now, peer_id@, self.servers@.len()),
    {
        let mut k: usize = 0;
        while k < self.servers.len()
            invariant
                k <= self.servers.len(),
                self.lan_name(token@, now, peer_id@, k as nat) is None,
            decreases self.servers.len() - k,
        {
            let d = &self.servers[k];
            if is_nearby(d, token, now) && str_eq(d.peer_id.as_str(), peer_id)
                && !d.hostname.as_str().is_empty() {
                proof {
                    self.first_name_stays(token@, now, peer_id@, k as nat + 1, self.servers@.len());
                }
                return Some(d.hostname.clone());
            }
            k = k + 1;
        }
        None
    }

    proof fn first_name_stays(
        self,
        token: Seq<char>,
        now: Instant,
        peer_id: Seq<char>,
        k: nat,
        n: nat,
    )
        requires
            k <= n <= self.servers@.len(),
            self.lan_name(token, now, peer_id, k) is Some,
        ensures
            self.lan_name(token, now, peer_id, n) == self.lan_name(token, now, peer_id, k),
        decreases n - k,
    {
        if k < n {
            self.first_name_stays(token, now, peer_id, k, (n - 1) as nat);
        }
    }

    fn is_listed(&self, now: Instant, peer_id: &str) -> (r: bool)
        ensures
            r == self.lists(now, peer_id@),
    {
        match &self.api_host {
            Some(host) => match &host.peer_id {
                Some(id) => host.candidates.len() > 0 && now.saturating_duration_since(
                    host.last_seen,
                ).nanos < servers::API_HOST_EXPIRY_NANOS && str_eq(id.as_str(), peer_id)
                    && !peer_id.is_empty(),
                None => false,
            },
            None => false,
        }
    }

    /// Whether the directory lists any server now.
    pub fn lists_any(&self, now: Instant) -> (r: bool)
        ensures
            r == exists|peer_id: Seq<char>| self.lists(now, peer_id),
    {
        match &self.api_host {
            Some(host) => match &host.peer_id {
                Some(id) => self.is_listed(now, id.as_str()),
                None => false,
            },
            None => false,
        }
    }

    /// Where a server can be reached right now, and the name it gives itself.
    fn live(&self, token: &str, now: Instant, peer_id: &str) -> (r: (Option<String>, Option<String>))
        ensures
            servers::text_of(r.0) == self.live_addr(token@, now, peer_id@),
            servers::text_of(r.1) == self.live_name(token@, now, peer_id@),
    {
        let lan = self.find_lan_addr(token, now, peer_id);
        let lan_name = self.find_lan_name(token, now, peer_id);
        let listed = self.is_listed(now, peer_id);
        let mut address = lan;
        let mut name = lan_name;
        if listed {
            if let Some(host) = &self.api_host {
                if address.is_none() {
                    address = pick_remote_reachable(&host.candidates);
                }
                if name.is_none() {
                    name = match &host.hostname {
                        Some(hostname) => Some(hostname.clone()),
                        None => None,
                    };
                }
            }
        }
        (address, name)
    }
}

/// A list of texts, each once, in order.
pub open spec fn strictly_sorted(texts: Seq<String>) -> bool {
    forall|i: int, j: int|
        0 <= i < j < texts.len() ==> text_less(#[trigger] texts[i]@, #[trigger] texts[j]@)
}

pub open spec fn holds_text(texts: Seq<String>, wanted: Seq<char>) -> bool {
    exists|i: int| 0 <= i < texts.len() && (#[trigger] texts[i])@ == wanted
}

fn insert_sorted(texts: &mut Vec<String>, wanted: &str)
    requires
        strictly_sorted(old(texts)@),
    ensures
        strictly_sorted(final(texts)@),
        forall|t: Seq<char>|
            holds_text(final(texts)@, t) == (holds_text(old(texts)@, t) || t == wanted@),
{
    let ghost before = texts@;
    let mut at: usize = 0;
    while at < texts.len() && is_text_less(texts[at].as_str(), wanted)
        invariant
            at <= texts.len(),
            texts@ == before,
            forall|i: int| 0 <= i < at ==> text_less((#[trigger] texts@[i])@, wanted@),
        decreases texts.len() - at,
    {
        at = at + 1;
    }
    if at < texts.len() && str_eq(texts[at].as_str(), wanted) {
        proof {
            assert(texts@[at as int]@ == wanted@);
        }
        return;
    }
    let copy = wanted.to_owned();
    texts.insert(at, copy);
    proof {
        let after = texts@;
        assert forall|i: int, j: int| 0 <= i < j < after.len() implies text_less(
            #[trigger] after[i]@,
            #[trigger] after[j]@,
        ) by {
            if at < before.len() {
                text_order_is_total(before[at as int]@, wanted@);
            }
            if i == at {
                assert(after[j] == before[j - 1]);
                if j - 1 > at {
                    assert(text_less(before[at as int]@, before[j - 1]@));
                    text_order_is_transitive(wanted@, before[at as int]@, before[j - 1]@);
                }
            } else if j == at {
                assert(after[i] == before[i]);
            } else {
                let x = if i < at {
                    i
                } else {
                    i - 1
                };
                let y = if j < at {
                    j
                } else {
                    j - 1
                };
                assert(after[i] == before[x] && after[j] == before[y]);
            }
        }
        assert forall|t: Seq<char>|
            holds_text(after, t) == (holds_text(before, t) || t == wanted@) by {
            if holds_text(before, t) {
                let i = choose|i: int| 0 <= i < before.len() && (#[trigger] before[i])@ == t;
                if i < at {
                    assert(after[i]@ == t);
                } else {
                    assert(after[i + 1]@ == t);
                }
            }
            if t == wanted@ {
                assert(after[at as int]@ == t);
            }
            if holds_text(after, t) {
                let i = choose|i: int| 0 <= i < after.len() && (#[trigger] after[i])@ == t;
                if i < at {
                    assert(before[i]@ == t);
                } else if i > at {
                    assert(before[i - 1]@ == t);
                }
            }
        }
    }
}

proof fn lan_addr_is_of_a_server(
    d: Discovery,
    token: Seq<char>,
    now: Instant,
    peer_id: Seq<char>,
    k: nat,
)
    requires
        k <= d.servers@.len(),
    ensures
        d.lan_addr(token, now, peer_id, k) is Some <==> exists|i: int|
            0 <= i < k && discovery::nearby(#[trigger] d.servers@[i], token, now)
                && d.servers@[i].peer_id@ == peer_id,
    decreases k,
{
    if k > 0 {
        lan_addr_is_of_a_server(d, token, now, peer_id, (k - 1) as nat);
        let last = d.servers@[k - 1];
        if discovery::nearby(last, token, now) && last.peer_id@ == peer_id {
            assert(discovery::nearby(d.servers@[k - 1], token, now));
        }
    }
}

impl Discovery {
    /// The identities of the servers that can be seen right now.
    fn live_peers(&self, token: &str, now: Instant) -> (peers: Vec<String>)
        ensures
            strictly_sorted(peers@),
            forall|t: Seq<char>|
                holds_text(peers@, t) == (self.live_addr(token@, now, t) is Some),
    {
        let mut peers: Vec<String> = Vec::new();
        let mut i: usize = 0;
        while i < self.servers.len()
            invariant
                i <= self.servers.len(),
                strictly_sorted(peers@),
                forall|t: Seq<char>|
                    holds_text(peers@, t) == exists|k: int|
                        0 <= k < i && discovery::nearby(#[trigger] self.servers@[k], token@, now)
                            && self.servers@[k].peer_id@ == t,
            decreases self.servers.len() - i,
        {
            let d = &self.servers[i];
            let ghost before = peers@;
            if is_nearby(d, token, now) {
                insert_sorted(&mut peers, d.peer_id.as_str());
            }
            proof {
                assert forall|t: Seq<char>|
                    holds_text(peers@, t) == exists|k: int|
                        0 <= k < i + 1 && discovery::nearby(
                            #[trigger] self.servers@[k],
                            token@,
                            now,
                        ) && self.servers@[k].peer_id@ == t by {
                    if discovery::nearby(self.servers@[i as int], token@, now)
                        && self.servers@[i as int].peer_id@ == t {
                        assert(holds_text(peers@, t));
                    }
                    if holds_text(before, t) {
                        assert(holds_text(peers@, t));
                    }
                }
            }
            i = i + 1;
        }
        let ghost near = peers@;
        if let Some(host) = &self.api_host {
            if let Some(id) = &host.peer_id {
                if self.is_listed(now, id.as_str()) {
                    insert_sorted(&mut peers, id.as_str());
                }
            }
        }
        proof {
            assert forall|t: Seq<char>|
                holds_text(peers@, t) == (self.live_addr(token@, now, t) is Some) by {
                lan_addr_is_of_a_server(*self, token@, now, t, self.servers@.len());
                assert(holds_text(near, t) == (self.lan_addr(
                    token@,
                    now,
                    t,
                    self.servers@.len(),
                ) is Some));
            }
        }
        peers
    }
}

/// What tells a saved server from all others.
pub open spec fn key_of(entry: servers::EntryView) -> Seq<char> {
    match entry.peer_id {
        Some(id) => id,
        None => entry.address,
    }
}

pub open spec fn non_empty_or(text: Option<Seq<char>>, other: Seq<char>) -> Seq<char> {
    match text {
        Some(text) => if text.len() > 0 {
            text
        } else {
            other
        },
        None => other,
    }
}

/// The card of a saved server. `live` is where it can be reached right now.
pub open spec fn saved_card(
    entry: servers::EntryView,
    idx: usize,
    live: Option<Seq<char>>,
    name: Option<Seq<char>>,
    now_secs: u64,
) -> CardView {
    CardView {
        card_key: key_of(entry),
        connect_addr: match live {
            Some(address) => address,
            None => entry.address,
        },
        display_name: if entry.nickname.len() > 0 {
            entry.nickname
        } else if live is Some {
            non_empty_or(name, entry.address)
        } else {
            entry.address
        },
        subtitle: match live {
            Some(address) => text::truncated(address, 24),
            None => if entry.nickname.len() > 0 {
                text::truncated(entry.address, 24)
            } else {
                servers::ago_text(entry.last_connected, now_secs)
            },
        },
        peer_id: entry.peer_id,
        path: match live {
            Some(address) => Some(addr::path_class(address)),
            None => None,
        },
        is_dynamic: live is Some,
        saved_idx: Some(idx),
        icon_active: entry.last_connected > 0 || live is Some,
    }
}

/// The card of a server that has just been found.
pub open spec fn found_card(
    peer_id: Seq<char>,
    address: Seq<char>,
    name: Option<Seq<char>>,
) -> CardView {
    CardView {
        card_key: peer_id,
        connect_addr: address,
        display_name: non_empty_or(name, address),
        subtitle: text::truncated(address, 24),
        peer_id: Some(peer_id),
        path: Some(addr::path_class(address)),
        is_dynamic: true,
        saved_idx: None,
        icon_active: true,
    }
}

pub open spec fn has_key(cards: Seq<CardView>, key: Seq<char>) -> bool {
    exists|i: int| 0 <= i < cards.len() && (#[trigger] cards[i]).card_key == key
}

/// What the home screen shows at a moment.
pub struct Scene {
    pub discovery: Discovery,
    pub token: Seq<char>,
    pub now: Instant,
    pub now_secs: u64,
}

impl Scene {
    pub open spec fn live(self, peer_id: Option<Seq<char>>) -> Option<Seq<char>> {
        match peer_id {
            Some(id) => self.discovery.live_addr(self.token, self.now, id),
            None => None,
        }
    }

    pub open spec fn name(self, peer_id: Option<Seq<char>>) -> Option<Seq<char>> {
        match peer_id {
            Some(id) => self.discovery.live_name(self.token, self.now, id),
            None => None,
        }
    }

    /// The cards of the first `k` saved servers: one for each, without those that
    /// are the same machine.
    pub open spec fn saved_cards(
        self,
        list: Seq<servers::EntryView>,
        order: Seq<usize>,
        k: nat,
    ) -> Seq<CardView>
        decreases k,
    {
        if k == 0 || k > order.len() {
            Seq::empty()
        } else {
            let before = self.saved_cards(list, order, (k - 1) as nat);
            let idx = order[k - 1];
            let entry = list[idx as int];
            if has_key(before, key_of(entry)) {
                before
            } else {
                before.push(
                    saved_card(
                        entry,
                        idx,
                        self.live(entry.peer_id),
                        self.name(entry.peer_id),
                        self.now_secs,
                    ),
                )
            }
        }
    }

    /// The cards, with those of the first `k` servers that can be seen right now
    /// and are not saved.
    pub open spec fn all_cards(
        self,
        saved: Seq<CardView>,
        peers: Seq<String>,
        k: nat,
    ) -> Seq<CardView>
        decreases k,
    {
        if k == 0 || k > peers.len() {
            saved
        } else {
            let before = self.all_cards(saved, peers, (k - 1) as nat);
            let peer_id = peers[k - 1]@;
            if has_key(before, peer_id) || self.live(Some(peer_id)) is None {
                before
            } else {
                before.push(
                    found_card(peer_id, self.live(Some(peer_id))->0, self.name(Some(peer_id))),
                )
            }
        }
    }

    /// The cards that the home screen shows: the saved servers, most recent
    /// first, then those that have just been found, by identity.
    pub open spec fn shows(self, list: Seq<servers::EntryView>, cards: Seq<CardView>) -> bool {
        exists|order: Seq<usize>, peers: Seq<String>|
            {
                &&& is_recency_order(order, list, list.len() as int)
                &&& strictly_sorted(peers)
                &&& forall|t: Seq<char>|
                    #[trigger] holds_text(peers, t) == (self.live(Some(t)) is Some)
                &&& cards == #[trigger] self.all_cards(
                    self.saved_cards(list, order, order.len()),
                    peers,
                    peers.len(),
                )
            }
    }
}

fn key_is_taken(cards: &Vec<MergedServer>, key: &str) -> (r: bool)
    ensures
        r == has_key(cards_of(cards@), key@),
{
    let mut i: usize = 0;
    while i < cards.len()
        invariant
            i <= cards.len(),
            forall|k: int| 0 <= k < i ==> (#[trigger] cards_of(cards@)[k]).card_key != key@,
        decreases cards.len() - i,
    {
        if str_eq(cards[i].card_key.as_str(), key) {
            assert(cards_of(cards@)[i as int].card_key == key@);
            return true;
        }
        i = i + 1;
    }
    false
}

fn name_or(name: Option<String>, other: &str) -> (r: String)
    ensures
        r@ == non_empty_or(servers::text_of(name), other@),
{
    match name {
        Some(name) => if name.as_str().is_empty() {
            other.to_owned()
        } else {
            name
        },
        None => other.to_owned(),
    }
}

fn make_saved_card(
    entry: &ServerEntry,
    idx: usize,
    live: Option<String>,
    name: Option<String>,
    now_secs: u64,
) -> (card: MergedServer)
    ensures
        card@ == saved_card(
            entry@,
            idx,
            servers::text_of(live),
            servers::text_of(name),
            now_secs,
        ),
{
    let card_key = match &entry.peer_id {
        Some(id) => id.clone(),
        None => entry.address.clone(),
    };
    let nicknamed = !entry.nickname.as_str().is_empty();
    let online = live.is_some();
    let display_name = if nicknamed {
        entry.nickname.clone()
    } else if online {
        name_or(name, entry.address.as_str())
    } else {
        entry.address.clone()
    };
    let (connect_addr, path, subtitle) = match live {
        Some(address) => {
            let path = classify_path(address.as_str());
            let subtitle = truncate_str(address.as_str(), 24);
            (address, Some(path), subtitle)
        },
        None => {
            let subtitle = if nicknamed {
                truncate_str(entry.address.as_str(), 24)
            } else {
                format_last_connected(entry.last_connected, now_secs)
            };
            (entry.address.clone(), None, subtitle)
        },
    };
    MergedServer {
        card_key,
        connect_addr,
        display_name,
        subtitle,
        peer_id: copy_text(&entry.peer_id),
        path,
        is_dynamic: online,
        saved_idx: Some(idx),
        icon_active: entry.last_connected > 0 || online,
    }
}

fn make_found_card(peer_id: &str, address: String, name: Option<String>) -> (card: MergedServer)
    ensures
        card@ == found_card(peer_id@, address@, servers::text_of(name)),
{
    let display_name = name_or(name, address.as_str());
    let subtitle = truncate_str(address.as_str(), 24);
    let path = classify_path(address.as_str());
    MergedServer {
        card_key: peer_id.to_owned(),
        connect_addr: address,
        display_name,
        subtitle,
        peer_id: Some(peer_id.to_owned()),
        path: Some(path),
        is_dynamic: true,
        saved_idx: None,
        icon_active: true,
    }
}

/// Makes up the cards of the home screen.
pub fn merge_servers(
    list: &Vec<ServerEntry>,
    discovery: &Discovery,
    token: &str,
    now: Instant,
    now_secs: u64,
) -> (cards: Vec<MergedServer>)
    ensures
        (Scene { discovery: *discovery, token: token@, now, now_secs }).shows(
            servers::entries(list@),
            cards_of(cards@),
        ),
{
    let ghost scene = Scene { discovery: *discovery, token: token@, now, now_secs };
    let ghost views = servers::entries(list@);
    let order = recency_order(list);
    let mut cards: Vec<MergedServer> = Vec::new();
    let mut k: usize = 0;
    proof {
        assert(cards_of(cards@) =~= scene.saved_cards(views, order@, 0));
    }
    while k < order.len()
        invariant
            k <= order.len(),
            scene == (Scene { discovery: *discovery, token: token@, now, now_secs }),
            views == servers::entries(list@),
            is_recency_order(order@, views, list@.len() as int),
            cards_of(cards@) == scene.saved_cards(views, order@, k as nat),
        decreases order.len() - k,
    {
        let idx: usize = order[k];
        let entry = &list[idx];
        let key = match &entry.peer_id {
            Some(id) => id.clone(),
            None => entry.address.clone(),
        };
        if !key_is_taken(&cards, key.as_str()) {
            let (live, name) = match &entry.peer_id {
                Some(id) => discovery.live(token, now, id.as_str()),
                None => (None, None),
            };
            let ghost before = cards@;
            let card = make_saved_card(entry, idx, live, name, now_secs);
            cards.push(card);
            proof {
                assert(cards_of(cards@) =~= cards_of(before).push(card@));
            }
        }
        k = k + 1;
    }
    let ghost saved = cards_of(cards@);
    let peers = discovery.live_peers(token, now);
    let mut i: usize = 0;
    while i < peers.len()
        invariant
            i <= peers.len(),
            scene == (Scene { discovery: *discovery, token: token@, now, now_secs }),
            cards_of(cards@) == scene.all_cards(saved, peers@, i as nat),
        decreases peers.len() - i,
    {
        let peer_id = peers[i].as_str();
        if !key_is_taken(&cards, peer_id) {
            let (live, name) = discovery.live(token, now, peer_id);
            if let Some(address) = live {
                let ghost before = cards@;
                let card = make_found_card(peer_id, address, name);
                cards.push(card);
                proof {
                    assert(cards_of(cards@) =~= cards_of(before).push(card@));
                }
            }
        }
        i = i + 1;
    }
    proof {
        assert(cards_of(cards@) == scene.all_cards(
            scene.saved_cards(views, order@, order@.len()),
            peers@,
            peers@.len(),
        ));
    }
    cards
}

} // verus!
