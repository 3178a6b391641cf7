use vstd::prelude::*;

use crate::client::{EguiMessage, TopicUpdate};

verus! {

/// The last-value map after `msg` is folded in: a topic update overwrites the
/// value of its topic; every other event leaves the map as it is.
pub open spec fn apply_event(
    m: Map<Seq<char>, Seq<char>>,
    msg: EguiMessage,
) -> Map<Seq<char>, Seq<char>> {
    match msg {
        EguiMessage::Message(u) => m.insert(u.topic_name@, u.data@),
        _ => m,
    }
}

/// The last value received for each topic, keyed by topic name.
pub struct Topics {
    entries: Vec<TopicUpdate>,
    map: Ghost<Map<Seq<char>, Seq<char>>>,
}

impl View for Topics {
    type V = Map<Seq<char>, Seq<char>>;

    closed spec fn view(&self) -> Map<Seq<char>, Seq<char>> {
        self.map@
    }
}

impl Topics {
    /// Each topic has one entry, and the entries are exactly the map.
    pub closed spec fn wf(&self) -> bool {
        &&& forall|i: int, j: int|
            0 <= i < j < self.entries@.len() ==> #[trigger] self.entries@[i].topic_name@
                != #[trigger] self.entries@[j].topic_name@
        &&& forall|i: int|
            0 <= i < self.entries@.len() ==> self.map@.contains_key(
                #[trigger] self.entries@[i].topic_name@,
            ) && self.map@[self.entries@[i].topic_name@] == self.entries@[i].data@
        &&& forall|k: Seq<char>|
            #[trigger] self.map@.contains_key(k) ==> exists|i: int|
                0 <= i < self.entries@.len() && #[trigger] self.entries@[i].topic_name@ == k
    }

    pub closed spec fn spec_len(&self) -> nat {
        self.entries@.len()
    }

    pub fn new() -> (r: Self)
        ensures
            r.wf(),
            r@ == Map::<Seq<char>, Seq<char>>::empty(),
    {
        Topics { entries: Vec::new(), map: Ghost(Map::empty()) }
    }

    /// The number of topics held.
    pub fn len(&self) -> (r: usize)
        requires
            self.wf(),
        ensures
            r == self.spec_len(),
            r == self@.dom().len(),
    {
        proof {
            self.lemma_len_is_dom_len();
        }
        self.entries.len()
    }

    proof fn lemma_len_is_dom_len(&self)
        requires
            self.wf(),
        ensures
            self.entries@.len() == self@.dom().len(),
        decreases self.entries@.len(),
    {
        let keys = self.entries@.map_values(|u: TopicUpdate| u.topic_name@);
        assert forall|i: int, j: int| 0 <= i < keys.len() && 0 <= j < keys.len() && i != j implies keys[i]
            != keys[j] by {
            if i < j {
                assert(self.entries@[i].topic_name@ != self.entries@[j].topic_name@);
            } else {
                assert(self.entries@[j].topic_name@ != self.entries@[i].topic_name@);
            }
        }
        assert(keys.no_duplicates());
        assert forall|k: Seq<char>| #[trigger] self@.dom().contains(k) <==> keys.to_set().contains(k) by {
            if self@.dom().contains(k) {
                let i = choose|i: int|
                    0 <= i < self.entries@.len() && #[trigger] self.entries@[i].topic_name@ == k;
                assert(keys[i] == k);
            }
            if keys.to_set().contains(k) {
                let i = choose|i: int| 0 <= i < keys.len() && keys[i] == k;
                assert(self.map@.contains_key(self.entries@[i].topic_name@));
            }
        }
        assert(self@.dom() =~= keys.to_set());
        keys.unique_seq_to_set();
    }

    /// The entry at position `i`, in no particular order of topics.
    pub fn entry(&self, i: usize) -> (r: &TopicUpdate)
        requires
            self.wf(),
            i < self.spec_len(),
        ensures
            self@.contains_key(r.topic_name@),
            self@[r.topic_name@] == r.data@,
    {
        &self.entries[i]
    }

    /// The last value received for `topic_name`, if any.
    pub fn get(&self, topic_name: &String) -> (r: Option<&String>)
        requires
            self.wf(),
        ensures
            match r {
                Some(v) => self@.contains_key(topic_name@) && self@[topic_name@] == v@,
                None => !self@.contains_key(topic_name@),
            },
    {
        let mut i: usize = 0;
        while i < self.entries.len()
            invariant
                self.wf(),
                i <= self.entries@.len(),
                forall|j: int| 0 <= j < i ==> #[trigger] self.entries@[j].topic_name@ != topic_name@,
            decreases self.entries@.len() - i,
        {
            if self.entries[i].topic_name == *topic_name {
                return Some(&self.entries[i].data);
            }
            i = i + 1;
        }
        None
    }

    /// Records `update` as the last value of its topic, overwriting any
    /// earlier one.
    pub fn insert(&mut self, update: TopicUpdate)
        requires
            old(self).wf(),
        ensures
            final(self).wf(),
            final(self)@ == old(self)@.insert(update.topic_name@, update.data@),
    {
        let ghost key = update.topic_name@;
        let ghost val = update.data@;
        let mut i: usize = 0;
        while i < self.entries.len()
            invariant
                self.wf(),
                self@ == old(self)@,
                i <= self.entries@.len(),
                key == update.topic_name@,
                val == update.data@,
                forall|j: int| 0 <= j < i ==> #[trigger] self.entries@[j].topic_name@ != key,
            decreases self.entries@.len() - i,
        {
            if self.entries[i].topic_name == update.topic_name {
                let ghost before = self.entries@;
                let ghost before_map = self.map@;
                self.entries.set(i, update);
                self.map = Ghost(self.map@.insert(key, val));
                proof {
                    assert forall|a: int, b: int|
                        0 <= a < b < self.entries@.len() implies #[trigger] self.entries@[a].topic_name@
                        != #[trigger] self.entries@[b].topic_name@ by {
                        assert(before[a].topic_name@ != before[b].topic_name@);
                    }
                    assert forall|k: Seq<char>| #[trigger] self.map@.contains_key(k) implies exists|
                        j: int,
                    |
                        0 <= j < self.entries@.len() && #[trigger] self.entries@[j].topic_name@
                            == k by {
                        if k != key {
                            let j = choose|j: int|
                                0 <= j < before.len() && #[trigger] before[j].topic_name@ == k;
                            assert(self.entries@[j].topic_name@ == k);
                        } else {
                            assert(self.entries@[i as int].topic_name@ == k);
                        }
                    }
                    assert forall|j: int| 0 <= j < self.entries@.len() implies self.map@.contains_key(
                        #[trigger] self.entries@[j].topic_name@,
                    ) && self.map@[self.entries@[j].topic_name@] == self.entries@[j].data@ by {
                        if j != i {
                            assert(before[j].topic_name@ != before[i as int].topic_name@);
                            assert(before_map.contains_key(before[j].topic_name@));
                            assert(self.entries@[j] == before[j]);
                        } else {
                            assert(self.entries@[j].topic_name@ == key);
                            assert(self.entries@[j].data@ == val);
                        }
                    }
                }
                return;
            }
            i = i + 1;
        }
        let ghost before = self.entries@;
        self.entries.push(update);
        self.map = Ghost(self.map@.insert(key, val));
        proof {
            let n = before.len() as int;
            assert(self.entries@[n].topic_name@ == key);
            assert forall|a: int, b: int|
                0 <= a < b < self.entries@.len() implies #[trigger] self.entries@[a].topic_name@
                != #[trigger] self.entries@[b].topic_name@ by {
                if b < n {
                    assert(before[a].topic_name@ != before[b].topic_name@);
                }
            }
            assert forall|k: Seq<char>| #[trigger] self.map@.contains_key(k) implies exists|j: int|
                0 <= j < self.entries@.len() && #[trigger] self.entries@[j].topic_name@ == k by {
                if k != key {
                    let j = choose|j: int| 0 <= j < before.len() && #[trigger] before[j].topic_name@ == k;
                    assert(self.entries@[j].topic_name@ == k);
                } else {
                    assert(self.entries@[n].topic_name@ == k);
                }
            }
            assert forall|j: int| 0 <= j < self.entries@.len() implies self.map@.contains_key(
                #[trigger] self.entries@[j].topic_name@,
            ) && self.map@[self.entries@[j].topic_name@] == self.entries@[j].data@ by {
                if j < n {
                    assert(before[j].topic_name@ != key);
                }
            }
        }
    }

    /// Folds one event into the map: a topic update is recorded, every other
    /// event changes nothing.
    pub fn apply(&mut self, msg: EguiMessage)
        requires
            old(self).wf(),
        ensures
            final(self).wf(),
            final(self)@ == apply_event(old(self)@, msg),
    {
        match msg {
            EguiMessage::Message(update) => self.insert(update),
            _ => {},
        }
    }
}

/// Folding the same topic update twice gives the same map as folding it
/// once; on an empty map that is the map holding just that topic and value.
pub proof fn lemma_update_idempotent(m: Map<Seq<char>, Seq<char>>, u: TopicUpdate)
    ensures
        apply_event(apply_event(m, EguiMessage::Message(u)), EguiMessage::Message(u)) == apply_event(
            m,
            EguiMessage::Message(u),
        ),
        apply_event(Map::empty(), EguiMessage::Message(u)) == map![u.topic_name@ => u.data@],
{
    assert(apply_event(apply_event(m, EguiMessage::Message(u)), EguiMessage::Message(u)) =~= apply_event(
        m,
        EguiMessage::Message(u),
    ));
    assert(apply_event(Map::empty(), EguiMessage::Message(u)) =~= map![u.topic_name@ => u.data@]);
}

/// Of two updates of the same topic the one folded last is the value that
/// stays: the earlier one leaves no trace.
pub proof fn lemma_last_write_wins(m: Map<Seq<char>, Seq<char>>, first: TopicUpdate, second: TopicUpdate)
    requires
        first.topic_name@ == second.topic_name@,
    ensures
        apply_event(apply_event(m, EguiMessage::Message(first)), EguiMessage::Message(second))
            == apply_event(m, EguiMessage::Message(second)),
        apply_event(apply_event(m, EguiMessage::Message(first)), EguiMessage::Message(second))[second.topic_name@]
            == second.data@,
{
    assert(apply_event(apply_event(m, EguiMessage::Message(first)), EguiMessage::Message(second))
        =~= apply_event(m, EguiMessage::Message(second)));
}

/// Updates of two different topics give the same map in either order, and
/// both topics are present afterwards.
pub proof fn lemma_distinct_topics_commute(m: Map<Seq<char>, Seq<char>>, a: TopicUpdate, b: TopicUpdate)
    requires
        a.topic_name@ != b.topic_name@,
    ensures
        apply_event(apply_event(m, EguiMessage::Message(a)), EguiMessage::Message(b)) == apply_event(
            apply_event(m, EguiMessage::Message(b)),
            EguiMessage::Message(a),
        ),
        apply_event(apply_event(m, EguiMessage::Message(a)), EguiMessage::Message(b))[a.topic_name@]
            == a.data@,
        apply_event(apply_event(m, EguiMessage::Message(a)), EguiMessage::Message(b))[b.topic_name@]
            == b.data@,
        apply_event(apply_event(m, EguiMessage::Message(a)), EguiMessage::Message(b)).contains_key(
            a.topic_name@,
        ),
        apply_event(apply_event(m, EguiMessage::Message(a)), EguiMessage::Message(b)).contains_key(
            b.topic_name@,
        ),
{
    assert(apply_event(apply_event(m, EguiMessage::Message(a)), EguiMessage::Message(b)) =~= apply_event(
        apply_event(m, EguiMessage::Message(b)),
        EguiMessage::Message(a),
    ));
}

} // verus!
