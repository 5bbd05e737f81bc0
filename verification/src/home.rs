//! What the home screen lets the user do with its cards: search them, connect to
//! a server, and forget one.
use crate::addr::PathClass;
use crate::cards;
use crate::cards::{MergedServer, Scene};
use crate::servers;
use crate::servers::{copy_text, ServerEntry};
use crate::text;
use crate::text::{chars_of, str_eq, trim};
use vstd::prelude::*;
use vstd::string::*;

verus! {

/// What `str::to_lowercase` makes of a text, by the Unicode tables. What becomes of
/// a character is not stated. It may depend on the characters around it, as a sigma
/// at the end of a word does, and may be more than one character.
pub uninterp spec fn lowercased(s: Seq<char>) -> Seq<char>;

/// Calls `str::to_lowercase`: the result depends on the text alone.
#[verifier::external_body]
pub(crate) fn to_lowercase(s: &str) -> (r: String)
    ensures
        r@ == lowercased(s@),
{
    s.to_lowercase()
}

/// One text stands in another at a place.
pub open spec fn stands_at(s: Seq<char>, part: Seq<char>, at: int) -> bool {
    0 <= at && at + part.len() <= s.len() && s.subrange(at, at + part.len()) == part
}

pub open spec fn contains_text(s: Seq<char>, part: Seq<char>) -> bool {
    exists|at: int| stands_at(s, part, at)
}

fn is_at(s: &Vec<char>, part: &Vec<char>, at: usize) -> (r: bool)
    requires
        at + part.len() <= s.len(),
    ensures
        r == stands_at(s@, part@, at as int),
{
    let mut i: usize = 0;
    while i < part.len()
        invariant
            i <= part.len(),
            at + part.len() <= s.len(),
            forall|k: int| 0 <= k < i ==> s@[at + k] == #[trigger] part@[k],
        decreases part.len() - i,
    {
        if s[at + i] != part[i] {
            proof {
                assert(s@.subrange(at as int, at + part@.len())[i as int] != part@[i as int]);
            }
            return false;
        }
        i = i + 1;
    }
    proof {
        assert(s@.subrange(at as int, at + part@.len()) =~= part@);
    }
    true
}

/// Whether one text stands in another.
pub fn text_contains(s: &str, part: &str) -> (r: bool)
    ensures
        r == contains_text(s@, part@),
{
    let whole = chars_of(s);
    let wanted = chars_of(part);
    if wanted.len() > whole.len() {
        return false;
    }
    let last: usize = whole.len() - wanted.len();
    let mut at: usize = 0;
    loop
        invariant
            at <= last,
            whole@ == s@,
            wanted@ == part@,
            last + wanted.len() == whole.len(),
            forall|k: int| 0 <= k < at ==> !#[trigger] stands_at(s@, part@, k),
        decreases last - at,
    {
        if is_at(&whole, &wanted, at) {
            assert(stands_at(s@, part@, at as int));
            return true;
        }
        if at == last {
            assert forall|k: int| !#[trigger] stands_at(s@, part@, k) by {
                if k > at {
                    assert(!(k + part@.len() <= s@.len()));
                }
            }
            return false;
        }
        at = at + 1;
    }
}

/// Whether a card is found by a query, all in lower case.
pub fn matches_query(connect_addr: &str, display_name: &str, query: &str) -> (r: bool)
    ensures
        r == (query@.len() == 0 || contains_text(connect_addr@, query@) || contains_text(
            display_name@,
            query@,
        )),
{
    query.is_empty() || text_contains(connect_addr, query) || text_contains(display_name, query)
}

/// The user's query finds a card: the query is empty, or stands in the card's
/// address or name, in upper or lower case.
pub open spec fn query_finds(query: Seq<char>, connect_addr: Seq<char>, name: Seq<char>) -> bool {
    let query = lowercased(text::trimmed(query));
    query.len() == 0 || contains_text(lowercased(connect_addr), query) || contains_text(
        lowercased(name),
        query,
    )
}

/// Whether the user's query finds a card.
pub fn search_finds(query: &str, card: &MergedServer) -> (r: bool)
    ensures
        r == query_finds(query@, card@.connect_addr, card@.display_name),
{
    let trimmed = trim(query);
    let query = to_lowercase(trimmed.as_str());
    let connect_addr = to_lowercase(card.connect_addr.as_str());
    let name = to_lowercase(card.display_name.as_str());
    matches_query(connect_addr.as_str(), name.as_str(), query.as_str())
}

/// The user's query finds a card of the list.
pub open spec fn query_shows(query: Seq<char>) -> spec_fn(cards::CardView) -> bool {
    |card: cards::CardView| query_finds(query, card.connect_addr, card.display_name)
}

/// The cards that the user's query finds, in their order.
pub fn search(cards: Vec<MergedServer>, query: &str) -> (found: Vec<MergedServer>)
    ensures
        cards::cards_of(found@) == cards::cards_of(cards@).filter(query_shows(query@)),
{
    let ghost all = cards@;
    let ghost views = cards::cards_of(all);
    let ghost shown = query_shows(query@);
    let mut found: Vec<MergedServer> = Vec::new();
    proof {
        reveal(Seq::filter);
        assert(cards::cards_of(found@) =~= views.take(0).filter(shown));
    }
    for card in it: cards
        invariant
            it.seq() == all,
            views == cards::cards_of(all),
            shown == query_shows(query@),
            cards::cards_of(found@) == views.take(it.index() as int).filter(shown),
    {
        let ghost before = found@;
        let ghost k = it.index() as int;
        proof {
            reveal(Seq::filter);
            assert(views.take(k + 1).drop_last() =~= views.take(k));
            assert(views.take(k + 1).last() == card@);
        }
        if search_finds(query, &card) {
            found.push(card);
            proof {
                assert(cards::cards_of(found@) =~= cards::cards_of(before).push(card@));
            }
        }
    }
    proof {
        assert(views.take(all.len() as int) =~= views);
    }
    found
}

/// What is said when there is no card.
pub fn empty_list_text(nothing_saved: bool, nothing_nearby: bool, nothing_listed: bool) -> (s:
    &'static str)
    ensures
        s@ == if nothing_saved && nothing_nearby && nothing_listed {
            "No computers\nAdd a server address using the bar below."@
        } else {
            "No matches"@
        },
{
    if nothing_saved && nothing_nearby && nothing_listed {
        "No computers\nAdd a server address using the bar below."
    } else {
        "No matches"
    }
}

/// The badge that says how a server is reached.
pub fn path_label(path: PathClass) -> (s: &'static str)
    ensures
        s@ == match path {
            PathClass::Lan => "LAN"@,
            PathClass::Vpn => "VPN"@,
            PathClass::Public => "WAN"@,
        },
{
    match path {
        PathClass::Lan => "LAN",
        PathClass::Vpn => "VPN",
        PathClass::Public => "WAN",
    }
}

/// The first saved server with an identity, from `from` on.
pub open spec fn index_of_peer(
    list: Seq<servers::EntryView>,
    peer_id: Seq<char>,
    from: nat,
) -> Option<nat>
    decreases list.len() - from,
{
    if from >= list.len() {
        None
    } else if list[from as int].peer_id == Some(peer_id) {
        Some(from)
    } else {
        index_of_peer(list, peer_id, from + 1)
    }
}

/// The saved server that a card stands for.
pub open spec fn entry_of_card(
    list: Seq<servers::EntryView>,
    card: cards::CardView,
) -> Option<nat> {
    let by_peer = match card.peer_id {
        Some(peer_id) => index_of_peer(list, peer_id, 0),
        None => None,
    };
    match by_peer {
        Some(i) => Some(i),
        None => servers::index_of_addr(list, card.connect_addr, 0),
    }
}

/// A saved server with what a card knows of it: a name and an identity, where it
/// has none.
pub open spec fn with_card(
    entry: servers::EntryView,
    card: cards::CardView,
) -> servers::EntryView {
    servers::EntryView {
        nickname: if card.saved_idx is None && entry.nickname.len() == 0 && card.display_name
            != card.connect_addr {
            card.display_name
        } else {
            entry.nickname
        },
        peer_id: if entry.peer_id is None {
            card.peer_id
        } else {
            entry.peer_id
        },
        ..entry
    }
}

fn find_peer(list: &Vec<ServerEntry>, peer_id: &str) -> (r: Option<usize>)
    ensures
        match r {
            Some(i) => index_of_peer(servers::entries(list@), peer_id@, 0) == Some(i as nat) && i
                < list.len(),
            None => index_of_peer(servers::entries(list@), peer_id@, 0) is None,
        },
{
    let mut i: usize = 0;
    while i < list.len()
        invariant
            i <= list.len(),
            index_of_peer(servers::entries(list@), peer_id@, 0) == index_of_peer(
                servers::entries(list@),
                peer_id@,
                i as nat,
            ),
        decreases list.len() - i,
    {
        if let Some(id) = &list[i].peer_id {
            if str_eq(id.as_str(), peer_id) {
                return Some(i);
            }
        }
        i = i + 1;
    }
    None
}

/// Completes the saved server that a card stands for when the user connects to
/// it. Returns whether the list has to be saved.
pub fn backfill_saved_server(list: &mut Vec<ServerEntry>, card: &MergedServer) -> (changed: bool)
    ensures
        match entry_of_card(servers::entries(old(list)@), card@) {
            Some(i) => {
                let before = servers::entries(old(list)@);
                &&& servers::entries(final(list)@) == before.update(
                    i as int,
                    with_card(before[i as int], card@),
                )
                &&& changed == (before[i as int].peer_id is None || (card@.saved_idx is None
                    && before[i as int].nickname.len() == 0 && card@.display_name
                    != card@.connect_addr))
            },
            None => !changed && servers::entries(final(list)@) == servers::entries(old(list)@),
        },
{
    let ghost before = servers::entries(list@);
    let by_peer = match &card.peer_id {
        Some(id) => find_peer(list, id.as_str()),
        None => None,
    };
    let at = match by_peer {
        Some(i) => Some(i),
        None => servers::find_addr(list, card.connect_addr.as_str()),
    };
    match at {
        Some(i) => {
            let mut changed = false;
            let mut entry = servers::copy_entry(&list[i]);
            if card.saved_idx.is_none() && entry.nickname.as_str().is_empty() && !str_eq(
                card.display_name.as_str(),
                card.connect_addr.as_str(),
            ) {
                entry.nickname = card.display_name.clone();
                changed = true;
            }
            if entry.peer_id.is_none() {
                entry.peer_id = copy_text(&card.peer_id);
                changed = true;
            }
            list.set(i, entry);
            proof {
                assert(servers::entries(list@) =~= before.update(i as int, entry@));
            }
            changed
        },
        None => false,
    }
}

/// The saved server that the user can forget at a card: one that cannot be seen
/// right now.
pub fn deletable(card: &MergedServer) -> (idx: Option<usize>)
    ensures
        idx == if card.is_dynamic {
            None
        } else {
            card.saved_idx
        },
{
    if card.is_dynamic {
        None
    } else {
        card.saved_idx
    }
}

/// Forgets a saved server.
pub fn forget_server(list: &mut Vec<ServerEntry>, idx: usize)
    requires
        idx < old(list)@.len(),
    ensures
        servers::entries(final(list)@) == servers::entries(old(list)@).remove(idx as int),
{
    let ghost before = list@;
    let _ = list.remove(idx);
    proof {
        assert(servers::entries(list@) =~= servers::entries(before).remove(idx as int));
    }
}

pub open spec fn keys_differ(cards: Seq<cards::CardView>) -> bool {
    forall|i: int, j: int|
        0 <= i < j < cards.len() ==> (#[trigger] cards[i]).card_key != (
        #[trigger] cards[j]).card_key
}

proof fn pushing_keeps_keys_apart(cards: Seq<cards::CardView>, card: cards::CardView)
    requires
        keys_differ(cards),
        !cards::has_key(cards, card.card_key),
    ensures
        keys_differ(cards.push(card)),
        forall|key: Seq<char>|
            cards::has_key(cards, key) ==> #[trigger] cards::has_key(cards.push(card), key),
        cards::has_key(cards.push(card), card.card_key),
{
    let next = cards.push(card);
    assert(next[cards.len() as int].card_key == card.card_key);
    assert forall|key: Seq<char>| cards::has_key(cards, key) implies #[trigger] cards::has_key(
        next,
        key,
    ) by {
        let i = choose|i: int| 0 <= i < cards.len() && (#[trigger] cards[i]).card_key == key;
        assert(next[i].card_key == key);
    }
}

proof fn saved_keys(scene: Scene, list: Seq<servers::EntryView>, order: Seq<usize>, k: nat)
    requires
        k <= order.len(),
    ensures
        keys_differ(scene.saved_cards(list, order, k)),
        forall|i: int|
            0 <= i < k ==> cards::has_key(
                scene.saved_cards(list, order, k),
                cards::key_of(list[(#[trigger] order[i]) as int]),
            ),
    decreases k,
{
    if k > 0 {
        saved_keys(scene, list, order, (k - 1) as nat);
        let before = scene.saved_cards(list, order, (k - 1) as nat);
        let idx = order[k - 1];
        let entry = list[idx as int];
        let card = cards::saved_card(
            entry,
            idx,
            scene.live(entry.peer_id),
            scene.name(entry.peer_id),
            scene.now_secs,
        );
        if !cards::has_key(before, cards::key_of(entry)) {
            pushing_keeps_keys_apart(before, card);
        }
    }
}

proof fn found_keys(scene: Scene, saved: Seq<cards::CardView>, peers: Seq<String>, k: nat)
    requires
        keys_differ(saved),
        k <= peers.len(),
    ensures
        keys_differ(scene.all_cards(saved, peers, k)),
        forall|key: Seq<char>|
            cards::has_key(saved, key) ==> #[trigger] cards::has_key(
                scene.all_cards(saved, peers, k),
                key,
            ),
        forall|i: int|
            0 <= i < k && scene.live(Some((#[trigger] peers[i])@)) is Some ==> cards::has_key(
                scene.all_cards(saved, peers, k),
                peers[i]@,
            ),
    decreases k,
{
    if k > 0 {
        found_keys(scene, saved, peers, (k - 1) as nat);
        let before = scene.all_cards(saved, peers, (k - 1) as nat);
        let peer_id = peers[k - 1]@;
        if !cards::has_key(before, peer_id) && scene.live(Some(peer_id)) is Some {
            pushing_keeps_keys_apart(
                before,
                cards::found_card(
                    peer_id,
                    scene.live(Some(peer_id))->0,
                    scene.name(Some(peer_id)),
                ),
            );
        }
    }
}

/// No two cards are for the same machine.
pub proof fn cards_are_distinct(
    scene: Scene,
    list: Seq<servers::EntryView>,
    cards: Seq<cards::CardView>,
)
    requires
        scene.shows(list, cards),
    ensures
        keys_differ(cards),
{
    let (order, peers) = choose|order: Seq<usize>, peers: Seq<String>|
        {
            &&& cards::is_recency_order(order, list, list.len() as int)
            &&& cards::strictly_sorted(peers)
            &&& forall|t: Seq<char>|
                #[trigger] cards::holds_text(peers, t) == (scene.live(Some(t)) is Some)
            &&& cards == #[trigger] scene.all_cards(
                scene.saved_cards(list, order, order.len()),
                peers,
                peers.len(),
            )
        };
    saved_keys(scene, list, order, order.len());
    found_keys(scene, scene.saved_cards(list, order, order.len()), peers, peers.len());
}

/// Every saved server, and every server that can be seen right now, has a card.
pub proof fn no_server_is_missing(
    scene: Scene,
    list: Seq<servers::EntryView>,
    cards: Seq<cards::CardView>,
    i: int,
    peer_id: Seq<char>,
)
    requires
        scene.shows(list, cards),
        list.len() <= usize::MAX,
    ensures
        0 <= i < list.len() ==> cards::has_key(cards, cards::key_of(list[i])),
        scene.live(Some(peer_id)) is Some ==> cards::has_key(cards, peer_id),
{
    let (order, peers) = choose|order: Seq<usize>, peers: Seq<String>|
        {
            &&& cards::is_recency_order(order, list, list.len() as int)
            &&& cards::strictly_sorted(peers)
            &&& forall|t: Seq<char>|
                #[trigger] cards::holds_text(peers, t) == (scene.live(Some(t)) is Some)
            &&& cards == #[trigger] scene.all_cards(
                scene.saved_cards(list, order, order.len()),
                peers,
                peers.len(),
            )
        };
    saved_keys(scene, list, order, order.len());
    found_keys(scene, scene.saved_cards(list, order, order.len()), peers, peers.len());
    if 0 <= i < list.len() {
        assert(order.contains(i as usize));
        let k = choose|k: int| 0 <= k < order.len() && order[k] == i as usize;
        assert(cards::has_key(
            scene.saved_cards(list, order, order.len()),
            cards::key_of(list[order[k] as int]),
        ));
    }
    if scene.live(Some(peer_id)) is Some {
        assert(cards::holds_text(peers, peer_id));
        let k = choose|k: int| 0 <= k < peers.len() && (#[trigger] peers[k])@ == peer_id;
        assert(scene.live(Some(peers[k]@)) is Some);
    }
}

} // verus!
