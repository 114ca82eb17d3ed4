//! The conversation router: a keyed registry from (team, channel) to the
//! conversation instance that serves it. It creates an instance on the
//! first event for a key and sends every later event for that key to the
//! same instance.

use vstd::prelude::*;

verus! {

/// Identifies one conversation slot: a team and a channel in it.
pub struct ConversationKey {
    pub team: String,
    pub channel: String,
}

/// The abstract value of a key.
pub open spec fn key_of(k: &ConversationKey) -> (Seq<char>, Seq<char>) {
    (k.team@, k.channel@)
}

/// One slot of the router.
pub struct RouteEntry {
    pub key: ConversationKey,
    pub instance: u64,
}

/// Where an event goes.
#[derive(Clone, Copy, Debug, PartialEq, Eq, Structural)]
pub struct Routed {
    /// The instance that serves the key.
    pub instance: u64,
    /// Whether the instance was created for this event.
    pub created: bool,
}

/// Why an event could not be routed.
#[derive(Clone, Copy, Debug, PartialEq, Eq, Structural)]
pub enum RouterError {
    /// Every instance identifier has been used.
    Exhausted,
}

/// The abstract state of the router.
pub struct RouterModel {
    pub instances: Map<(Seq<char>, Seq<char>), u64>,
    pub next_instance: u64,
}

/// The map that a list of slots stands for.
pub open spec fn entries_map(s: Seq<RouteEntry>) -> Map<(Seq<char>, Seq<char>), u64>
    decreases s.len(),
{
    if s.len() == 0 {
        Map::empty()
    } else {
        entries_map(s.drop_last()).insert(key_of(&s.last().key), s.last().instance)
    }
}

/// No key occurs twice, and every instance identifier was issued.
pub open spec fn entries_wf(s: Seq<RouteEntry>, next_instance: u64) -> bool {
    &&& forall|i: int, j: int|
        0 <= i < j < s.len() ==> key_of(&(#[trigger] s[i]).key) != key_of(&(#[trigger] s[j]).key)
    &&& forall|i: int| 0 <= i < s.len() ==> (#[trigger] s[i]).instance < next_instance
}

/// Routing an event for `key`: its instance, created if there is none.
pub open spec fn route_step(m: RouterModel, key: (Seq<char>, Seq<char>)) -> (RouterModel, Result<
    Routed,
    RouterError,
>) {
    if m.instances.contains_key(key) {
        (m, Ok(Routed { instance: m.instances[key], created: false }))
    } else if m.next_instance == u64::MAX {
        (m, Err(RouterError::Exhausted))
    } else {
        (
            RouterModel {
                instances: m.instances.insert(key, m.next_instance),
                next_instance: (m.next_instance + 1) as u64,
            },
            Ok(Routed { instance: m.next_instance, created: true }),
        )
    }
}

proof fn lemma_entries_lookup(s: Seq<RouteEntry>, i: int)
    requires
        forall|a: int, b: int|
            0 <= a < b < s.len() ==> key_of(&(#[trigger] s[a]).key) != key_of(
                &(#[trigger] s[b]).key,
            ),
        0 <= i < s.len(),
    ensures
        entries_map(s).contains_key(key_of(&s[i].key)),
        entries_map(s)[key_of(&s[i].key)] == s[i].instance,
    decreases s.len(),
{
    if i < s.len() - 1 {
        let p = s.drop_last();
        assert(p[i] == s[i]);
        lemma_entries_lookup(p, i);
        assert(key_of(&s[i].key) != key_of(&s[s.len() - 1].key));
    }
}

proof fn lemma_entries_absent(s: Seq<RouteEntry>, k: (Seq<char>, Seq<char>))
    requires
        forall|i: int| 0 <= i < s.len() ==> key_of(&(#[trigger] s[i]).key) != k,
    ensures
        !entries_map(s).contains_key(k),
    decreases s.len(),
{
    if s.len() > 0 {
        let p = s.drop_last();
        assert forall|i: int| 0 <= i < p.len() implies key_of(&(#[trigger] p[i]).key) != k by {
            assert(p[i] == s[i]);
        }
        lemma_entries_absent(p, k);
        assert(key_of(&s[s.len() - 1].key) != k);
    }
}

proof fn lemma_entries_remove(s: Seq<RouteEntry>, i: int)
    requires
        forall|a: int, b: int|
            0 <= a < b < s.len() ==> key_of(&(#[trigger] s[a]).key) != key_of(
                &(#[trigger] s[b]).key,
            ),
        0 <= i < s.len(),
    ensures
        entries_map(s.remove(i)) == entries_map(s).remove(key_of(&s[i].key)),
    decreases s.len(),
{
    let k = key_of(&s[i].key);
    if i == s.len() - 1 {
        assert(s.remove(i) == s.drop_last());
        assert forall|j: int| 0 <= j < s.drop_last().len() implies key_of(
            &(#[trigger] s.drop_last()[j]).key,
        ) != k by {
            assert(s.drop_last()[j] == s[j]);
        }
        lemma_entries_absent(s.drop_last(), k);
        assert(entries_map(s.drop_last()) =~= entries_map(s).remove(k));
    } else {
        let p = s.drop_last();
        assert(p[i] == s[i]);
        lemma_entries_remove(p, i);
        assert(s.remove(i) == p.remove(i).push(s.last()));
        assert(s.remove(i).drop_last() == p.remove(i));
        assert(key_of(&s.last().key) != k);
        assert(entries_map(s.remove(i)) =~= entries_map(s).remove(k));
    }
}

/// The router.
pub struct SlackConversationServer {
    entries: Vec<RouteEntry>,
    next_instance: u64,
}

impl View for SlackConversationServer {
    type V = RouterModel;

    closed spec fn view(&self) -> RouterModel {
        RouterModel { instances: entries_map(self.entries@), next_instance: self.next_instance }
    }
}

impl SlackConversationServer {
    pub closed spec fn wf(&self) -> bool {
        entries_wf(self.entries@, self.next_instance)
    }

    /// A router with no instances.
    pub fn new() -> (r: SlackConversationServer)
        ensures
            r.wf(),
            r@.instances == Map::<(Seq<char>, Seq<char>), u64>::empty(),
            r@.next_instance == 0,
    {
        SlackConversationServer { entries: Vec::new(), next_instance: 0 }
    }

    fn find(&self, key: &ConversationKey) -> (r: Option<usize>)
        requires
            self.wf(),
        ensures
            match r {
                Some(i) => i < self.entries@.len() && key_of(&self.entries@[i as int].key)
                    == key_of(key),
                None => !self@.instances.contains_key(key_of(key)),
            },
    {
        let mut i: usize = 0;
        while i < self.entries.len()
            invariant
                i <= self.entries@.len(),
                forall|j: int| 0 <= j < i ==> key_of(&(#[trigger] self.entries@[j]).key) != key_of(key),
            decreases self.entries@.len() - i,
        {
            let e = &self.entries[i];
            if e.key.team == key.team && e.key.channel == key.channel {
                return Some(i);
            }
            i = i + 1;
        }
        proof {
            lemma_entries_absent(self.entries@, key_of(key));
        }
        None
    }

    /// The instance serving `key`, if any.
    pub fn get(&self, key: &ConversationKey) -> (r: Option<u64>)
        requires
            self.wf(),
        ensures
            r == (if self@.instances.contains_key(key_of(key)) {
                Some(self@.instances[key_of(key)])
            } else {
                None::<u64>
            }),
    {
        match self.find(key) {
            Some(i) => {
                proof {
                    lemma_entries_lookup(self.entries@, i as int);
                }
                Some(self.entries[i].instance)
            },
            None => None,
        }
    }

    /// Routes an event for `key`: to the instance that serves it, or to a
    /// new instance that serves it from now on.
    pub fn route(&mut self, key: &ConversationKey) -> (r: Result<Routed, RouterError>)
        requires
            old(self).wf(),
        ensures
            final(self).wf(),
            (final(self)@, r) == route_step(old(self)@, key_of(key)),
    {
        match self.find(key) {
            Some(i) => {
                proof {
                    lemma_entries_lookup(self.entries@, i as int);
                }
                Ok(Routed { instance: self.entries[i].instance, created: false })
            },
            None => {
                if self.next_instance == u64::MAX {
                    return Err(RouterError::Exhausted);
                }
                let id = self.next_instance;
                let entry = RouteEntry {
                    key: ConversationKey { team: key.team.clone(), channel: key.channel.clone() },
                    instance: id,
                };
                self.entries.push(entry);
                self.next_instance = id + 1;
                proof {
                    let s = self.entries@;
                    assert(s.drop_last() == old(self).entries@);
                    assert forall|a: int, b: int|
                        0 <= a < b < s.len() implies key_of(&(#[trigger] s[a]).key) != key_of(
                        &(#[trigger] s[b]).key,
                    ) by {
                        if b == s.len() - 1 {
                            assert(old(self).entries@[a] == s[a]);
                            if key_of(&s[a].key) == key_of(key) {
                                lemma_entries_lookup(old(self).entries@, a);
                            }
                        } else {
                            assert(old(self).entries@[a] == s[a]);
                            assert(old(self).entries@[b] == s[b]);
                        }
                    }
                    assert forall|a: int| 0 <= a < s.len() implies (#[trigger] s[a]).instance
                        < self.next_instance by {
                        if a < s.len() - 1 {
                            assert(old(self).entries@[a] == s[a]);
                        }
                    }
                }
                Ok(Routed { instance: id, created: true })
            },
        }
    }

    /// Forgets the instance serving `key` and returns it, so that it can
    /// be told to stop. Does nothing when no instance serves `key`.
    pub fn stop(&mut self, key: &ConversationKey) -> (r: Option<u64>)
        requires
            old(self).wf(),
        ensures
            final(self).wf(),
            final(self)@.instances == old(self)@.instances.remove(key_of(key)),
            final(self)@.next_instance == old(self)@.next_instance,
            r == (if old(self)@.instances.contains_key(key_of(key)) {
                Some(old(self)@.instances[key_of(key)])
            } else {
                None::<u64>
            }),
    {
        match self.find(key) {
            Some(i) => {
                proof {
                    lemma_entries_lookup(self.entries@, i as int);
                    lemma_entries_remove(self.entries@, i as int);
                }
                let e = self.entries.remove(i);
                proof {
                    let s = self.entries@;
                    let o = old(self).entries@;
                    assert(s == o.remove(i as int));
                    assert forall|a: int, b: int|
                        0 <= a < b < s.len() implies key_of(&(#[trigger] s[a]).key) != key_of(
                        &(#[trigger] s[b]).key,
                    ) by {
                        let a2 = if a < i { a } else { a + 1 };
                        let b2 = if b < i { b } else { b + 1 };
                        assert(s[a] == o[a2]);
                        assert(s[b] == o[b2]);
                    }
                    assert forall|a: int| 0 <= a < s.len() implies (#[trigger] s[a]).instance
                        < self.next_instance by {
                        let a2 = if a < i { a } else { a + 1 };
                        assert(s[a] == o[a2]);
                    }
                }
                Some(e.instance)
            },
            None => {
                assert(old(self)@.instances.remove(key_of(key)) =~= old(self)@.instances);
                None
            },
        }
    }
}

/// One instance per key: two first events for the same key, handled one
/// after the other as the router handles all events, create exactly one
/// instance, and both go to it.
pub proof fn lemma_single_instance_per_key(m: RouterModel, key: (Seq<char>, Seq<char>))
    requires
        !m.instances.contains_key(key),
        m.next_instance < u64::MAX,
    ensures
        ({
            let (m1, r1) = route_step(m, key);
            let (m2, r2) = route_step(m1, key);
            &&& r1 matches Ok(first)
            &&& r2 matches Ok(second)
            &&& first.created
            &&& !second.created
            &&& first.instance == second.instance
            &&& m2.instances.dom() == m.instances.dom().insert(key)
        }),
{
    let (m1, r1) = route_step(m, key);
    assert(m1.instances.dom() =~= m.instances.dom().insert(key));
}

} // verus!
