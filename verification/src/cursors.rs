//! The shapes of the server's cursor that are kept for drawing.
use std::collections::BTreeMap;
use vstd::prelude::*;

verus! {

/// How many shapes are kept.
pub const MAX_REMOTE_CURSOR_TEXTURES: usize = 8;

/// The shapes that are kept, by their number.
#[derive(Debug)]
pub struct RemoteCursors<T> {
    pub textures: BTreeMap<u64, T>,
    pub latest: Option<u64>,
    pub seen_version: u64,
}

/// The smallest number among some shapes.
pub open spec fn is_smallest<T>(shapes: Map<u64, T>, serial: u64) -> bool {
    shapes.contains_key(serial) && forall|other: u64|
        #[trigger] shapes.contains_key(other) ==> serial <= other
}

pub open spec fn smallest<T>(shapes: Map<u64, T>) -> u64 {
    choose|serial: u64| is_smallest(shapes, serial)
}

/// The shapes with one more. If that is one too many, the one with the smallest
/// number goes.
pub open spec fn with_shape<T>(shapes: Map<u64, T>, serial: u64, shape: T) -> Map<u64, T> {
    let all = shapes.insert(serial, shape);
    if all.dom().len() > 8 {
        all.remove(smallest(all))
    } else {
        all
    }
}

fn find_smallest<T>(shapes: &BTreeMap<u64, T>) -> (serial: u64)
    requires
        shapes@.dom().len() > 0,
        shapes@.dom().finite(),
    ensures
        serial == smallest(shapes@),
        is_smallest(shapes@, serial),
{
    broadcast use vstd::std_specs::btree::group_btree_axioms;

    let mut least: Option<u64> = None;
    for key in it: shapes.keys()
        invariant
            it.seq().unref().to_set() == shapes@.dom(),
            match least {
                Some(serial) => {
                    &&& shapes@.contains_key(serial)
                    &&& forall|i: int| 0 <= i < it.index() ==> serial <= *#[trigger] it.seq()[i]
                },
                None => it.index() == 0,
            },
    {
        proof {
            let all = it.seq().unref();
            assert(all[it.index() as int] == *key);
            assert(all.to_set().contains(*key));
        }
        least = match least {
            Some(serial) => if serial <= *key {
                Some(serial)
            } else {
                Some(*key)
            },
            None => Some(*key),
        };
    }
    proof {
        let some = shapes@.dom().choose();
        assert(shapes@.contains_key(some));
    }
    match least {
        Some(serial) => {
            proof {
                assert(is_smallest(shapes@, serial));
                let chosen = smallest(shapes@);
                assert(is_smallest(shapes@, chosen));
                assert(shapes@.contains_key(chosen) && shapes@.contains_key(serial));
            }
            serial
        },
        None => 0,
    }
}

impl<T> RemoteCursors<T> {
    pub open spec fn consistent(self) -> bool {
        self.textures@.dom().finite() && self.textures@.dom().len() <= 8
    }

    pub fn new() -> (cursors: RemoteCursors<T>)
        ensures
            cursors.consistent(),
            cursors.textures@ == Map::<u64, T>::empty(),
            cursors.latest is None,
            cursors.seen_version == 0,
    {
        RemoteCursors { textures: BTreeMap::new(), latest: None, seen_version: 0 }
    }

    /// Whether the server has sent a shape that has not been taken in.
    pub fn has_news(&self, version: u64) -> (r: bool)
        ensures
            r == (version != self.seen_version),
    {
        version != self.seen_version
    }

    /// Takes in the server's shape, or that there is none any more.
    pub fn sync_remote_cursor_texture(&mut self, version: u64, shape: Option<(u64, T)>)
        requires
            old(self).consistent(),
        ensures
            final(self).consistent(),
            version == old(self).seen_version ==> *final(self) == *old(self),
            version != old(self).seen_version ==> {
                &&& final(self).seen_version == version
                &&& match shape {
                    Some(shape) => {
                        &&& final(self).latest == Some(shape.0)
                        &&& final(self).textures@ == with_shape(
                            old(self).textures@,
                            shape.0,
                            shape.1,
                        )
                    },
                    None => {
                        &&& final(self).latest is None
                        &&& final(self).textures@ == Map::<u64, T>::empty()
                    },
                }
            },
    {
        broadcast use vstd::std_specs::btree::group_btree_axioms;

        if version == self.seen_version {
            return;
        }
        self.seen_version = version;
        match shape {
            Some((serial, texture)) => {
                self.latest = Some(serial);
                self.textures.insert(serial, texture);
                if self.textures.len() > MAX_REMOTE_CURSOR_TEXTURES {
                    let oldest: u64 = find_smallest(&self.textures);
                    self.textures.remove(&oldest);
                }
            },
            None => {
                self.textures.clear();
                self.latest = None;
            },
        }
    }

    /// The shape to draw for a number: that one if it is kept, or the last that
    /// came.
    pub open spec fn drawn(self, serial: u64) -> Option<T> {
        if serial != 0 && self.textures@.contains_key(serial) {
            Some(self.textures@[serial])
        } else {
            match self.latest {
                Some(latest) => if self.textures@.contains_key(latest) {
                    Some(self.textures@[latest])
                } else {
                    None
                },
                None => None,
            }
        }
    }

    pub fn remote_cursor_texture_for_serial(&self, serial: u64) -> (r: Option<&T>)
        ensures
            match r {
                Some(texture) => self.drawn(serial) == Some(*texture),
                None => self.drawn(serial) is None,
            },
    {
        broadcast use vstd::std_specs::btree::group_btree_axioms;

        if serial != 0 {
            if let Some(texture) = self.textures.get(&serial) {
                return Some(texture);
            }
        }
        match self.latest {
            Some(latest) => self.textures.get(&latest),
            None => None,
        }
    }

    /// Forgets everything, as when a session ends.
    pub fn clear(&mut self)
        ensures
            final(self).consistent(),
            final(self).textures@ == Map::<u64, T>::empty(),
            final(self).latest is None,
            final(self).seen_version == 0,
    {
        self.textures.clear();
        self.latest = None;
        self.seen_version = 0;
    }
}

/// A shape that comes with a number greater than all others is kept, and is the
/// one that is drawn for its number.
pub proof fn newer_shapes_are_kept<T>(shapes: Map<u64, T>, serial: u64, shape: T, other: u64)
    requires
        shapes.dom().finite(),
        shapes.contains_key(other),
        other < serial,
    ensures
        with_shape(shapes, serial, shape).contains_key(serial),
        with_shape(shapes, serial, shape)[serial] == shape,
{
    let all = shapes.insert(serial, shape);
    assert(all.contains_key(other));
    if all.dom().len() > 8 {
        least_exists(all, all.dom());
        assert(is_smallest(all, smallest(all)));
        assert(smallest(all) <= other);
    }
}

proof fn least_exists<T>(shapes: Map<u64, T>, keys: Set<u64>)
    requires
        keys.finite(),
        keys.len() > 0,
        forall|k: u64| #[trigger] keys.contains(k) ==> shapes.contains_key(k),
    ensures
        exists|k: u64|
            keys.contains(k) && forall|other: u64| #[trigger] keys.contains(other) ==> k <= other,
        keys == shapes.dom() ==> exists|k: u64| is_smallest(shapes, k),
    decreases keys.len(),
{
    let one = keys.choose();
    let rest = keys.remove(one);
    if rest.len() == 0 {
        assert(forall|other: u64| #[trigger] keys.contains(other) ==> other == one) by {
            assert forall|other: u64| #[trigger] keys.contains(other) implies other == one by {
                if other != one {
                    assert(rest.contains(other));
                }
            }
        }
        assert(keys.contains(one));
    } else {
        least_exists(shapes, rest);
        let k = choose|k: u64|
            rest.contains(k) && forall|other: u64| #[trigger] rest.contains(other) ==> k <= other;
        let least = if one <= k {
            one
        } else {
            k
        };
        assert(keys.contains(least));
        assert forall|other: u64| #[trigger] keys.contains(other) implies least <= other by {
            if other != one {
                assert(rest.contains(other));
            }
        }
    }
    if keys == shapes.dom() {
        let k = choose|k: u64|
            keys.contains(k) && forall|other: u64| #[trigger] keys.contains(other) ==> k <= other;
        assert forall|other: u64| #[trigger] shapes.contains_key(other) implies k <= other by {
            assert(keys.contains(other));
        }
        assert(is_smallest(shapes, k));
    }
}

} // verus!
