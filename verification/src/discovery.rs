//! Where a server can be reached right now, and when a running session moves to a
//! better path.
use crate::addr;
use crate::addr::{classify_path, pick_remote_reachable, PathClass};
use crate::servers;
use crate::servers::{is_fresh, DiscoveredServer};
use crate::text::str_eq;
use crate::time::Instant;
use vstd::prelude::*;
use vstd::string::*;

verus! {

/// What the directory says of a server.
#[derive(Clone, Debug)]
pub struct ApiHost {
    pub peer_id: Option<String>,
    pub hostname: Option<String>,
    pub candidates: Vec<String>,
    pub last_seen: Instant,
}

/// The servers that can be seen at a moment.
#[derive(Clone, Debug)]
pub struct Discovery {
    pub servers: Vec<DiscoveredServer>,
    pub api_host: Option<ApiHost>,
}

/// A server nearby that is one of the user's, and has been heard of lately.
pub open spec fn nearby(d: DiscoveredServer, token: Seq<char>, now: Instant) -> bool {
    d.token@ == token && token.len() > 0 && servers::fresh(d.last_seen, now)
}

pub fn is_nearby(d: &DiscoveredServer, token: &str, now: Instant) -> (r: bool)
    ensures
        r == nearby(*d, token@, now),
{
    str_eq(d.token.as_str(), token) && !token.is_empty() && is_fresh(d.last_seen, now)
}

/// The first server nearby with an identity, from `from` on.
pub open spec fn first_nearby(
    found: Seq<DiscoveredServer>,
    token: Seq<char>,
    now: Instant,
    peer_id: Seq<char>,
    from: nat,
) -> Option<Seq<char>>
    decreases found.len() - from,
{
    if from >= found.len() {
        None
    } else if found[from as int].peer_id@ == peer_id && nearby(found[from as int], token, now) {
        Some(found[from as int].address@)
    } else {
        first_nearby(found, token, now, peer_id, from + 1)
    }
}

/// What the directory says counts for half a minute.
pub open spec fn listed(host: ApiHost, now: Instant) -> bool {
    host.candidates@.len() > 0 && now.since(host.last_seen).nanos < servers::API_HOST_EXPIRY_NANOS
}

pub open spec fn is_peer(peer_id: Option<String>, wanted: Seq<char>) -> bool {
    peer_id matches Some(id) && id@ == wanted
}

impl Discovery {
    pub open spec fn best_addr(
        self,
        token: Seq<char>,
        now: Instant,
        peer_id: Seq<char>,
    ) -> Option<Seq<char>> {
        match first_nearby(self.servers@, token, now, peer_id, 0) {
            Some(address) => Some(address),
            None => match self.api_host {
                Some(host) => if listed(host, now) && is_peer(host.peer_id, peer_id) {
                    addr::picked(host.candidates@)
                } else {
                    None
                },
                None => None,
            },
        }
    }

    fn find_nearby(&self, token: &str, now: Instant, peer_id: &str) -> (r: Option<String>)
        ensures
            servers::text_of(r) == first_nearby(self.servers@, token@, now, peer_id@, 0),
    {
        let mut i: usize = 0;
        while i < self.servers.len()
            invariant
                i <= self.servers.len(),
                first_nearby(self.servers@, token@, now, peer_id@, 0) == first_nearby(
                    self.servers@,
                    token@,
                    now,
                    peer_id@,
                    i as nat,
                ),
            decreases self.servers.len() - i,
        {
            let d = &self.servers[i];
            if str_eq(d.peer_id.as_str(), peer_id) && is_nearby(d, token, now) {
                return Some(d.address.clone());
            }
            i = i + 1;
        }
        None
    }

    /// The best way to a server right now: nearby if it is there, and otherwise as
    /// the directory says.
    pub fn best_addr_for_peer(&self, token: &str, now: Instant, peer_id: &str) -> (r: Option<String>)
        ensures
            servers::text_of(r) == self.best_addr(token@, now, peer_id@),
    {
        let near = self.find_nearby(token, now, peer_id);
        if near.is_some() {
            return near;
        }
        match &self.api_host {
            Some(host) => {
                let is_peer = match &host.peer_id {
                    Some(id) => str_eq(id.as_str(), peer_id),
                    None => false,
                };
                if is_peer && host.candidates.len() > 0 && now.saturating_duration_since(
                    host.last_seen,
                ).nanos < servers::API_HOST_EXPIRY_NANOS {
                    pick_remote_reachable(&host.candidates)
                } else {
                    None
                }
            },
            None => None,
        }
    }

    /// The address nearby that a session should move to.
    pub open spec fn upgrade(
        self,
        token: Seq<char>,
        now: Instant,
        peer_id: Option<Seq<char>>,
        current: Seq<char>,
    ) -> Option<Seq<char>> {
        match peer_id {
            Some(peer_id) => match first_nearby(self.servers@, token, now, peer_id, 0) {
                Some(address) => if addr::path_class(current) != PathClass::Lan && address
                    != current {
                    Some(address)
                } else {
                    None
                },
                None => None,
            },
            None => None,
        }
    }

    pub fn pending_lan_upgrade(
        &self,
        token: &str,
        now: Instant,
        peer_id: &Option<String>,
        current: &str,
    ) -> (r: Option<String>)
        ensures
            servers::text_of(r) == self.upgrade(token@, now, servers::text_of(*peer_id), current@),
    {
        match peer_id {
            Some(id) => {
                if classify_path(current) == PathClass::Lan {
                    return None;
                }
                match self.find_nearby(token, now, id.as_str()) {
                    Some(address) => if str_eq(address.as_str(), current) {
                        None
                    } else {
                        Some(address)
                    },
                    None => None,
                }
            },
            None => None,
        }
    }
}

/// What a running session does about a better path.
#[derive(Clone, Debug)]
pub enum UpgradeStep {
    Stay,
    /// Look again before long.
    Wait,
    /// Connect to this address instead.
    Move(String),
}

/// Waits until a server has been seen nearby for a while before a session moves
/// there.
#[derive(Clone, Copy, Debug, PartialEq, Eq, Structural)]
pub struct LanUpgrade {
    pub since: Option<Instant>,
}

impl LanUpgrade {
    pub open spec fn started(self, now: Instant) -> Instant {
        match self.since {
            Some(since) => since,
            None => now,
        }
    }

    pub open spec fn moves(self, now: Instant) -> bool {
        now.since(self.started(now)).nanos >= servers::LAN_UPGRADE_HYSTERESIS_NANOS
    }

    /// Takes in the address nearby, if there is one.
    pub fn maybe_upgrade_to_lan(&mut self, pending: Option<String>, now: Instant) -> (step:
        UpgradeStep)
        ensures
            match pending {
                None => step is Stay && final(self).since is None,
                Some(address) => if old(self).moves(now) {
                    &&& step matches UpgradeStep::Move(to)
                    &&& to@ == address@
                    &&& final(self).since is None
                } else {
                    step is Wait && final(self).since == Some(old(self).started(now))
                },
            },
    {
        match pending {
            None => {
                self.since = None;
                UpgradeStep::Stay
            },
            Some(address) => {
                let since = match self.since {
                    Some(since) => since,
                    None => now,
                };
                if now.saturating_duration_since(since).nanos >= servers::LAN_UPGRADE_HYSTERESIS_NANOS {
                    self.since = None;
                    UpgradeStep::Move(address)
                } else {
                    self.since = Some(since);
                    UpgradeStep::Wait
                }
            },
        }
    }
}

/// A single announcement moves no session: at least two seconds pass between the
/// first and the move.
pub proof fn stray_beacons_move_nothing(upgrade: LanUpgrade, now: Instant)
    ensures
        upgrade.since is None ==> !upgrade.moves(now),
        upgrade.since matches Some(since) ==> (upgrade.moves(now) ==> now.nanos >= since.nanos
            + servers::LAN_UPGRADE_HYSTERESIS_NANOS),
{
}

/// A session that runs nearby is never moved, and none is moved to where it is.
pub proof fn near_sessions_stay(
    discovery: Discovery,
    token: Seq<char>,
    now: Instant,
    peer_id: Option<Seq<char>>,
    current: Seq<char>,
)
    ensures
        addr::path_class(current) == PathClass::Lan ==> discovery.upgrade(
            token,
            now,
            peer_id,
            current,
        ) is None,
        discovery.upgrade(token, now, peer_id, current) != Some(current),
{
}

/// A server that is nearby is reached there, whatever the directory says.
pub proof fn nearby_is_preferred(
    discovery: Discovery,
    token: Seq<char>,
    now: Instant,
    i: int,
)
    requires
        0 <= i < discovery.servers@.len(),
        nearby(discovery.servers@[i], token, now),
    ensures
        exists|j: int|
            0 <= j < discovery.servers@.len() && nearby(
                #[trigger] discovery.servers@[j],
                token,
                now,
            ) && discovery.servers@[j].peer_id@ == discovery.servers@[i].peer_id@
                && discovery.best_addr(token, now, discovery.servers@[i].peer_id@) == Some(
                discovery.servers@[j].address@,
            ),
{
    first_is_nearby(discovery.servers@, token, now, i, 0);
}

proof fn first_is_nearby(
    found: Seq<DiscoveredServer>,
    token: Seq<char>,
    now: Instant,
    i: int,
    from: nat,
)
    requires
        from <= i < found.len(),
        nearby(found[i], token, now),
    ensures
        exists|j: int|
            0 <= j < found.len() && nearby(#[trigger] found[j], token, now) && found[j].peer_id@
                == found[i].peer_id@ && first_nearby(found, token, now, found[i].peer_id@, from)
                == Some(found[j].address@),
    decreases i - from,
{
    if found[from as int].peer_id@ == found[i].peer_id@ && nearby(
        found[from as int],
        token,
        now,
    ) {
    } else {
        first_is_nearby(found, token, now, i, from + 1);
    }
}

} // verus!
