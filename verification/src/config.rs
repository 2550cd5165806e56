//! The device-to-gesture-to-action tables.  Discovery and parsing of
//! configuration files stay with the caller; what is verified here is the
//! table itself: unique keys, exact lookup, and the merge of freshly parsed
//! bindings into a configuration.

use vstd::prelude::*;
use crate::events::Gesture;

verus! {

/// What to do when a gesture is recognized: nothing, or run a shell command.
pub enum Action {
    NoOp,
    Execute(String),
}

/// The association list behind a gesture table, searched front to back
/// starting at index `i`.  The table's invariant keeps keys unique, so the
/// first match is the only one.
pub open spec fn map_lookup_from(entries: Seq<(Gesture, Action)>, g: Gesture, i: int) -> Option<
    Action,
>
    decreases entries.len() - i,
{
    if i < 0 || i >= entries.len() {
        None
    } else if entries[i].0 == g {
        Some(entries[i].1)
    } else {
        map_lookup_from(entries, g, i + 1)
    }
}

/// The action a gesture table associates with `g`, if any.
pub open spec fn map_lookup(entries: Seq<(Gesture, Action)>, g: Gesture) -> Option<Action> {
    map_lookup_from(entries, g, 0)
}

/// A gesture table's keys are unique.
pub open spec fn gm_wf(entries: Seq<(Gesture, Action)>) -> bool {
    forall|i: int, j: int|
        0 <= i < j < entries.len() ==> (#[trigger] entries[i]).0 != (#[trigger] entries[j]).0
}

/// Replacing the entry at a key's index changes that key's lookup and no
/// other, from any starting point at or before the index.
proof fn lemma_lookup_update(
    entries: Seq<(Gesture, Action)>,
    g: Gesture,
    a: Action,
    idx: int,
    j: int,
)
    requires
        gm_wf(entries),
        0 <= idx < entries.len(),
        entries[idx].0 == g,
        0 <= j <= entries.len(),
    ensures
        j <= idx ==> map_lookup_from(entries.update(idx, (g, a)), g, j) == Some(a),
        forall|g2: Gesture|
            g2 != g ==> map_lookup_from(entries.update(idx, (g, a)), g2, j) == map_lookup_from(
                entries,
                g2,
                j,
            ),
    decreases entries.len() - j,
{
    let updated = entries.update(idx, (g, a));
    if j == entries.len() {
        assert forall|g2: Gesture| g2 != g implies map_lookup_from(updated, g2, j)
            == map_lookup_from(entries, g2, j) by {
            assert(map_lookup_from(updated, g2, j) is None);
            assert(map_lookup_from(entries, g2, j) is None);
        }
    } else {
        lemma_lookup_update(entries, g, a, idx, j + 1);
        if j <= idx {
            if j == idx {
                assert(updated[j].0 == g);
                assert(map_lookup_from(updated, g, j) == Some(a));
            } else {
                assert(entries[j].0 != entries[idx].0);
                assert(updated[j].0 != g);
                assert(map_lookup_from(updated, g, j) == map_lookup_from(updated, g, j + 1));
            }
        }
        assert forall|g2: Gesture| g2 != g implies map_lookup_from(updated, g2, j)
            == map_lookup_from(entries, g2, j) by {
            if updated[j].0 == g2 {
                assert(entries[j] == updated[j]);
            } else {
                assert(map_lookup_from(updated, g2, j) == map_lookup_from(updated, g2, j + 1));
                assert(map_lookup_from(entries, g2, j) == map_lookup_from(entries, g2, j + 1));
            }
        }
    }
}

/// Appending an entry under a fresh key adds that key's lookup and changes
/// no other.
proof fn lemma_lookup_push(entries: Seq<(Gesture, Action)>, g: Gesture, a: Action, j: int)
    requires
        0 <= j <= entries.len(),
        forall|i: int| 0 <= i < entries.len() ==> (#[trigger] entries[i]).0 != g,
    ensures
        map_lookup_from(entries.push((g, a)), g, j) == Some(a),
        forall|g2: Gesture|
            g2 != g ==> map_lookup_from(entries.push((g, a)), g2, j) == map_lookup_from(
                entries,
                g2,
                j,
            ),
    decreases entries.len() - j,
{
    let pushed = entries.push((g, a));
    if j == entries.len() {
        assert(pushed[j].0 == g);
        assert(map_lookup_from(pushed, g, j) == Some(a));
        assert forall|g2: Gesture| g2 != g implies map_lookup_from(pushed, g2, j)
            == map_lookup_from(entries, g2, j) by {
            assert(map_lookup_from(pushed, g2, j) == map_lookup_from(pushed, g2, j + 1));
            assert(map_lookup_from(pushed, g2, j + 1) is None);
            assert(map_lookup_from(entries, g2, j) is None);
        }
    } else {
        lemma_lookup_push(entries, g, a, j + 1);
        assert(pushed[j] == entries[j]);
        assert(entries[j].0 != g);
        assert(map_lookup_from(pushed, g, j) == map_lookup_from(pushed, g, j + 1));
        assert forall|g2: Gesture| g2 != g implies map_lookup_from(pushed, g2, j)
            == map_lookup_from(entries, g2, j) by {
            if entries[j].0 == g2 {
            } else {
                assert(map_lookup_from(pushed, g2, j) == map_lookup_from(pushed, g2, j + 1));
                assert(map_lookup_from(entries, g2, j) == map_lookup_from(entries, g2, j + 1));
            }
        }
    }
}

/// A gesture-to-action table with unique gesture keys; the lookup key into
/// it is the recognized gesture value itself.
pub struct GestureMap {
    pub entries: Vec<(Gesture, Action)>,
}

impl GestureMap {
    /// The table's invariant: unique keys.
    pub open spec fn wf(self) -> bool {
        gm_wf(self.entries@)
    }

    /// An empty table.
    pub fn new() -> (m: GestureMap)
        ensures
            m.entries@.len() == 0,
            m.wf(),
    {
        GestureMap { entries: Vec::new() }
    }

    /// Looks up the exact gesture; no match is `None`.
    pub fn get<'a>(&'a self, g: &Gesture) -> (r: Option<&'a Action>)
        ensures
            match r {
                Some(a) => map_lookup(self.entries@, *g) == Some(*a),
                None => map_lookup(self.entries@, *g) is None,
            },
    {
        let len = self.entries.len();
        let mut i: usize = 0;
        while i < len
            invariant
                i <= len,
                len == self.entries@.len(),
                map_lookup(self.entries@, *g) == map_lookup_from(self.entries@, *g, i as int),
            decreases len - i,
        {
            if self.entries[i].0 == *g {
                return Some(&self.entries[i].1);
            }
            i += 1;
        }
        None
    }

    /// Associates `g` with `a`, replacing any earlier association.
    pub fn insert(&mut self, g: Gesture, a: Action)
        requires
            old(self).wf(),
        ensures
            final(self).wf(),
            map_lookup(final(self).entries@, g) == Some(a),
            forall|g2: Gesture|
                g2 != g ==> map_lookup(final(self).entries@, g2) == map_lookup(
                    old(self).entries@,
                    g2,
                ),
    {
        let ghost pre = self.entries@;
        let len = self.entries.len();
        let mut i: usize = 0;
        while i < len
            invariant
                i <= len,
                len == self.entries@.len(),
                self.entries@ == pre,
                pre == old(self).entries@,
                gm_wf(pre),
                forall|k: int| 0 <= k < i ==> (#[trigger] pre[k]).0 != g,
            decreases len - i,
        {
            if self.entries[i].0 == g {
                self.entries[i] = (g, a);
                proof {
                    assert(gm_wf(pre));
                    lemma_lookup_update(pre, g, a, i as int, 0);
                    assert(self.entries@ == pre.update(i as int, (g, a)));
                    assert forall|g2: Gesture| g2 != g implies map_lookup(self.entries@, g2)
                        == map_lookup(pre, g2) by {
                        assert(map_lookup_from(pre.update(i as int, (g, a)), g2, 0)
                            == map_lookup_from(pre, g2, 0));
                    }
                    assert forall|x: int, y: int|
                        0 <= x < y < self.entries@.len() implies (#[trigger] self.entries@[x]).0
                        != (#[trigger] self.entries@[y]).0 by {
                        assert(pre[x].0 != pre[y].0);
                    }
                }
                return;
            }
            i += 1;
        }
        self.entries.push((g, a));
        proof {
            lemma_lookup_push(pre, g, a, 0);
            assert forall|x: int, y: int|
                0 <= x < y < self.entries@.len() implies (#[trigger] self.entries@[x]).0
                != (#[trigger] self.entries@[y]).0 by {
                if y < pre.len() {
                    assert(pre[x].0 != pre[y].0);
                } else {
                    assert(self.entries@[y].0 == g);
                    assert(pre[x].0 != g);
                }
            }
        }
    }
}

/// The index of the first device entry whose name reads `name`, searching
/// from index `i`.
pub open spec fn find_device_from(
    devices: Seq<(String, GestureMap)>,
    name: Seq<char>,
    i: int,
) -> Option<int>
    decreases devices.len() - i,
{
    if i < 0 || i >= devices.len() {
        None
    } else if devices[i].0@ == name {
        Some(i)
    } else {
        find_device_from(devices, name, i + 1)
    }
}

/// The action a configuration associates with `gesture` on the device named
/// `name`, if any.
pub open spec fn config_lookup(
    devices: Seq<(String, GestureMap)>,
    name: Seq<char>,
    gesture: Gesture,
) -> Option<Action> {
    match find_device_from(devices, name, 0) {
        Some(i) => map_lookup(devices[i].1.entries@, gesture),
        None => None,
    }
}

/// Below an index where every name differs from `n`, a match at `i` is the
/// first match.
proof fn lemma_find_device_at(devices: Seq<(String, GestureMap)>, n: Seq<char>, j: int, i: int)
    requires
        0 <= j <= i < devices.len(),
        forall|k: int| j <= k < i ==> (#[trigger] devices[k]).0@ != n,
        devices[i].0@ == n,
    ensures
        find_device_from(devices, n, j) == Some(i),
    decreases i - j,
{
    if j < i {
        lemma_find_device_at(devices, n, j + 1, i);
    }
}

/// When every name from `j` on differs from `n`, there is no match.
proof fn lemma_find_device_none(devices: Seq<(String, GestureMap)>, n: Seq<char>, j: int)
    requires
        0 <= j,
        forall|k: int| j <= k < devices.len() ==> (#[trigger] devices[k]).0@ != n,
    ensures
        find_device_from(devices, n, j) is None,
    decreases devices.len() - j,
{
    if j < devices.len() {
        lemma_find_device_none(devices, n, j + 1);
    }
}

/// A found device index is in range and carries the searched name.
proof fn lemma_find_device_props(devices: Seq<(String, GestureMap)>, n: Seq<char>, j: int)
    requires
        0 <= j,
    ensures
        find_device_from(devices, n, j) matches Some(k) ==> j <= k < devices.len() && devices[k].0@
            == n,
    decreases devices.len() - j,
{
    if j < devices.len() && devices[j].0@ != n {
        lemma_find_device_props(devices, n, j + 1);
    }
}

/// Two device lists with the same names agree on every name's index.
proof fn lemma_find_device_same_names(
    d1: Seq<(String, GestureMap)>,
    d2: Seq<(String, GestureMap)>,
    n: Seq<char>,
    j: int,
)
    requires
        0 <= j,
        d1.len() == d2.len(),
        forall|k: int| 0 <= k < d1.len() ==> (#[trigger] d1[k]).0@ == (#[trigger] d2[k]).0@,
    ensures
        find_device_from(d1, n, j) == find_device_from(d2, n, j),
    decreases d1.len() - j,
{
    if j < d1.len() {
        lemma_find_device_same_names(d1, d2, n, j + 1);
    }
}

/// Appending a device entry changes no existing name's index; a name found
/// nowhere before is found at the end iff it is the new entry's.
proof fn lemma_find_device_push(
    devices: Seq<(String, GestureMap)>,
    entry: (String, GestureMap),
    n: Seq<char>,
    j: int,
)
    requires
        0 <= j <= devices.len(),
    ensures
        find_device_from(devices.push(entry), n, j) == (match find_device_from(devices, n, j) {
            Some(i) => Some(i),
            None => if entry.0@ == n {
                Some(devices.len() as int)
            } else {
                None
            },
        }),
    decreases devices.len() - j,
{
    let pushed = devices.push(entry);
    if j == devices.len() {
        assert(pushed[j] == entry);
        if entry.0@ != n {
            assert(find_device_from(pushed, n, j) == find_device_from(pushed, n, j + 1));
            assert(find_device_from(pushed, n, j + 1) is None);
        }
        assert(find_device_from(devices, n, j) is None);
    } else {
        lemma_find_device_push(devices, entry, n, j + 1);
        assert(pushed[j] == devices[j]);
    }
}

/// The full device-to-gesture-to-action mapping a session generation runs
/// with.
pub struct Configuration {
    pub devices: Vec<(String, GestureMap)>,
}

impl Configuration {
    /// The configuration's invariant: device names unique, each table
    /// well-formed.
    pub open spec fn wf(self) -> bool {
        &&& forall|i: int, j: int|
            0 <= i < j < self.devices@.len() ==> (#[trigger] self.devices@[i]).0@ != (
            #[trigger] self.devices@[j]).0@
        &&& forall|i: int| 0 <= i < self.devices@.len() ==> (#[trigger] self.devices@[i]).1.wf()
    }

    /// An empty configuration.
    pub fn new() -> (c: Configuration)
        ensures
            c.devices@.len() == 0,
            c.wf(),
    {
        Configuration { devices: Vec::new() }
    }

    /// Whether any device is configured.  An empty configuration is fatal
    /// to the orchestrator.
    pub fn is_empty(&self) -> (r: bool)
        ensures
            r == (self.devices@.len() == 0),
    {
        self.devices.len() == 0
    }

    /// Merges one freshly parsed binding into the configuration: the device's
    /// existing table gains (or replaces) the association of `g` with `a`; a
    /// device seen for the first time gets a fresh table holding only it.
    /// Later bindings thus win over earlier ones, file order deciding.
    pub fn add_binding(&mut self, device: &String, g: Gesture, a: Action)
        requires
            old(self).wf(),
        ensures
            final(self).wf(),
            config_lookup(final(self).devices@, device@, g) == Some(a),
            forall|g2: Gesture|
                g2 != g ==> config_lookup(final(self).devices@, device@, g2) == config_lookup(
                    old(self).devices@,
                    device@,
                    g2,
                ),
            forall|n: Seq<char>, g2: Gesture|
                n != device@ ==> config_lookup(final(self).devices@, n, g2) == config_lookup(
                    old(self).devices@,
                    n,
                    g2,
                ),
    {
        let ghost pre = self.devices@;
        let len = self.devices.len();
        let mut i: usize = 0;
        while i < len
            invariant
                i <= len,
                len == self.devices@.len(),
                self.devices@ == pre,
                pre == old(self).devices@,
                old(self).wf(),
                forall|k: int| 0 <= k < i ==> (#[trigger] pre[k]).0@ != device@,
            decreases len - i,
        {
            if self.devices[i].0.eq(device) {
                proof {
                    lemma_find_device_at(pre, device@, 0, i as int);
                }
                let entry = &mut self.devices[i];
                entry.1.insert(g, a);
                proof {
                    assert(self.devices@ == pre.update(i as int, *entry));
                    assert(self.devices@[i as int].0@ == device@);
                    assert forall|k: int| 0 <= k < self.devices@.len() implies (
                    #[trigger] self.devices@[k]).0@ == pre[k].0@ by {
                        if k != i {
                            assert(self.devices@[k] == pre[k]);
                        }
                    }
                    assert forall|n: Seq<char>| true implies find_device_from(self.devices@, n, 0)
                        == find_device_from(pre, n, 0) by {
                        lemma_find_device_same_names(self.devices@, pre, n, 0);
                    }
                    assert forall|n: Seq<char>, g2: Gesture| n != device@ implies config_lookup(
                        self.devices@,
                        n,
                        g2,
                    ) == config_lookup(pre, n, g2) by {
                        lemma_find_device_props(pre, n, 0);
                        match find_device_from(pre, n, 0) {
                            Some(k) => {
                                assert(pre[k].0@ == n);
                                assert(k != i as int);
                                assert(self.devices@[k] == pre[k]);
                            },
                            None => {},
                        }
                    }
                }
                return;
            }
            i += 1;
        }
        proof {
            lemma_find_device_none(pre, device@, 0);
        }
        let mut fresh = GestureMap::new();
        fresh.insert(g, a);
        let name = device.clone();
        proof {
            assert(name@ == device@);
        }
        self.devices.push((name, fresh));
        proof {
            assert forall|n: Seq<char>| true implies find_device_from(self.devices@, n, 0)
                == (match find_device_from(pre, n, 0) {
                Some(idx) => Some(idx),
                None => if n == device@ {
                    Some(pre.len() as int)
                } else {
                    None
                },
            }) by {
                lemma_find_device_push(pre, self.devices@[pre.len() as int], n, 0);
            }
            assert forall|n: Seq<char>, g2: Gesture| n != device@ implies config_lookup(
                self.devices@,
                n,
                g2,
            ) == config_lookup(pre, n, g2) by {
                lemma_find_device_props(pre, n, 0);
                match find_device_from(pre, n, 0) {
                    Some(k) => {
                        assert(self.devices@[k] == pre[k]);
                    },
                    None => {},
                }
            }
        }
    }

    /// The gesture table of the device named `name`, if one is configured.
    pub fn device_map<'a>(&'a self, name: &String) -> (r: Option<&'a GestureMap>)
        ensures
            match r {
                Some(m) => find_device_from(self.devices@, name@, 0) matches Some(i) && *m
                    == self.devices@[i].1,
                None => find_device_from(self.devices@, name@, 0) is None,
            },
    {
        let len = self.devices.len();
        let mut i: usize = 0;
        while i < len
            invariant
                i <= len,
                len == self.devices@.len(),
                find_device_from(self.devices@, name@, 0) == find_device_from(
                    self.devices@,
                    name@,
                    i as int,
                ),
            decreases len - i,
        {
            if self.devices[i].0.eq(name) {
                return Some(&self.devices[i].1);
            }
            i += 1;
        }
        None
    }
}

} // verus!
