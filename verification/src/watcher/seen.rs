//! The screenshots that have been pushed lately.
use crate::path;
use crate::path::{FilePath, PathView};
use vstd::prelude::*;

verus! {

/// How many screenshots are remembered.
pub const SEEN_CAP: usize = 256;

/// What tells one state of a file from another: when it was last modified, in
/// nanoseconds since the epoch, and how many bytes it has.
#[derive(Clone, Copy, Debug, PartialEq, Eq, Structural)]
pub struct Fingerprint {
    pub modified: i128,
    pub len: u64,
}

impl DeepView for Fingerprint {
    type V = Fingerprint;

    open spec fn deep_view(&self) -> Fingerprint {
        *self
    }
}

/// The screenshots that have been pushed lately, each with the state it was in.
#[derive(Debug)]
pub struct Seen {
    pub entries: Vec<(FilePath, Fingerprint)>,
}

/// Which state of which path `entries` hold.
pub open spec fn remembered(entries: Seq<(PathView, Fingerprint)>) -> Map<
    Seq<Seq<u8>>,
    Fingerprint,
>
    decreases entries.len(),
{
    if entries.len() == 0 {
        Map::empty()
    } else {
        remembered(entries.drop_last()).insert(entries.last().0.parts, entries.last().1)
    }
}

impl View for Seen {
    type V = Map<Seq<Seq<u8>>, Fingerprint>;

    open spec fn view(&self) -> Map<Seq<Seq<u8>>, Fingerprint> {
        remembered(self.entries.deep_view())
    }
}

/// Whether no path has two entries.
pub open spec fn distinct_keys(entries: Seq<(PathView, Fingerprint)>) -> bool {
    forall|i: int, j: int|
        0 <= i < j < entries.len() ==> #[trigger] entries[i].0.parts
            != #[trigger] entries[j].0.parts
}

/// Whether `memory` holds the path with the components `path` in the state
/// `now`, or one of the same name: two files of one name that were modified at
/// the same time and have the same size are one screenshot in two folders.
pub open spec fn known(
    memory: Map<Seq<Seq<u8>>, Fingerprint>,
    path: Seq<Seq<u8>>,
    now: Fingerprint,
) -> bool {
    exists|k: Seq<Seq<u8>>| #[trigger]
        memory.contains_key(k) && memory[k] == now && (k == path || path::same_last_part(k, path))
}

/// Whether `after` is `before` with `path` in the state `now`. A full memory
/// forgets one path, whichever, to make room for a new one.
pub open spec fn memorised(
    before: Map<Seq<Seq<u8>>, Fingerprint>,
    path: Seq<Seq<u8>>,
    now: Fingerprint,
    after: Map<Seq<Seq<u8>>, Fingerprint>,
) -> bool {
    if before.contains_key(path) || before.len() < SEEN_CAP {
        after == before.insert(path, now)
    } else {
        exists|gone: Seq<Seq<u8>>| #[trigger]
            before.contains_key(gone) && after == before.remove(gone).insert(path, now)
    }
}

proof fn lemma_remembered_has(entries: Seq<(PathView, Fingerprint)>, k: Seq<Seq<u8>>)
    requires
        distinct_keys(entries),
    ensures
        remembered(entries).contains_key(k) <==> exists|i: int|
            0 <= i < entries.len() && #[trigger] entries[i].0.parts == k,
        forall|i: int|
            0 <= i < entries.len() && #[trigger] entries[i].0.parts == k ==> remembered(entries)[k]
                == entries[i].1,
    decreases entries.len(),
{
    if entries.len() > 0 {
        let front = entries.drop_last();
        assert(distinct_keys(front)) by {
            assert forall|i: int, j: int| 0 <= i < j < front.len() implies #[trigger] front[i].0.parts
                != #[trigger] front[j].0.parts by {
                assert(entries[i].0.parts != entries[j].0.parts);
            }
        }
        lemma_remembered_has(front, k);
        if remembered(front).contains_key(k) {
            let i = choose|i: int| 0 <= i < front.len() && #[trigger] front[i].0.parts == k;
            assert(entries[i].0.parts == k);
        }
        assert forall|i: int|
            0 <= i < entries.len() && #[trigger] entries[i].0.parts == k implies remembered(
            entries,
        ).contains_key(k) && remembered(entries)[k] == entries[i].1 by {
            if i < front.len() {
                assert(front[i].0.parts == k);
                assert(entries[i].0.parts != entries[entries.len() - 1].0.parts);
            }
        }
        if remembered(entries).contains_key(k) && !remembered(front).contains_key(k) {
            assert(entries[entries.len() - 1].0.parts == k);
        }
    }
}

proof fn lemma_remembered_len(entries: Seq<(PathView, Fingerprint)>)
    requires
        distinct_keys(entries),
    ensures
        remembered(entries).dom().finite(),
        remembered(entries).len() == entries.len(),
    decreases entries.len(),
{
    if entries.len() > 0 {
        let front = entries.drop_last();
        assert(distinct_keys(front)) by {
            assert forall|i: int, j: int| 0 <= i < j < front.len() implies #[trigger] front[i].0.parts
                != #[trigger] front[j].0.parts by {
                assert(entries[i].0.parts != entries[j].0.parts);
            }
        }
        lemma_remembered_len(front);
        lemma_remembered_has(front, entries.last().0.parts);
        if remembered(front).contains_key(entries.last().0.parts) {
            let i = choose|i: int|
                0 <= i < front.len() && #[trigger] front[i].0.parts == entries.last().0.parts;
            assert(entries[i].0.parts != entries[entries.len() - 1].0.parts);
        }
    }
}

/// Two sequences of entries that hold the same pairs remember the same.
proof fn lemma_remembered_eq(
    a: Seq<(PathView, Fingerprint)>,
    m: Map<Seq<Seq<u8>>, Fingerprint>,
)
    requires
        distinct_keys(a),
        forall|i: int|
            0 <= i < a.len() ==> m.contains_key(#[trigger] a[i].0.parts) && m[a[i].0.parts]
                == a[i].1,
        forall|k: Seq<Seq<u8>>| #[trigger]
            m.contains_key(k) ==> exists|i: int| 0 <= i < a.len() && #[trigger] a[i].0.parts == k,
    ensures
        remembered(a) == m,
{
    assert forall|k: Seq<Seq<u8>>|
        #![trigger remembered(a).dom().contains(k)]
        #![trigger m.dom().contains(k)]
        remembered(a).dom().contains(k) == m.dom().contains(k) && (m.dom().contains(k)
            ==> remembered(a)[k] == m[k]) by {
        lemma_remembered_has(a, k);
        if m.contains_key(k) {
            let i = choose|i: int| 0 <= i < a.len() && #[trigger] a[i].0.parts == k;
            assert(a[i].0.parts == k);
        }
    }
    assert(remembered(a) =~= m);
}

impl Seen {
    /// Each path is remembered in one state, and not too many paths are.
    pub open spec fn wf(&self) -> bool {
        &&& distinct_keys(self.entries.deep_view())
        &&& self.entries@.len() <= SEEN_CAP
    }

    /// An empty memory.
    pub fn new() -> (r: Seen)
        ensures
            r.wf(),
            r@ == Map::<Seq<Seq<u8>>, Fingerprint>::empty(),
    {
        let r = Seen { entries: Vec::new() };
        assert(r.entries.deep_view() =~= Seq::<(PathView, Fingerprint)>::empty());
        r
    }

    /// Where `path` stands among the entries.
    fn position(&self, path: &FilePath) -> (r: Option<usize>)
        requires
            self.wf(),
        ensures
            (match r {
                Some(i) => i < self.entries@.len() && self.entries.deep_view()[i as int].0.parts
                    == path@.parts,
                None => forall|i: int|
                    0 <= i < self.entries@.len() ==> #[trigger] self.entries.deep_view()[i].0.parts
                        != path@.parts,
            }),
    {
        let mut i: usize = 0;
        while i < self.entries.len()
            invariant
                0 <= i <= self.entries@.len(),
                forall|j: int|
                    0 <= j < i ==> #[trigger] self.entries.deep_view()[j].0.parts != path@.parts,
            decreases self.entries@.len() - i,
        {
            assert(self.entries.deep_view()[i as int].0 == self.entries@[i as int].0@);
            if self.entries[i].0.same(path) {
                return Some(i);
            }
            i += 1;
        }
        None
    }

    /// Whether `path`, or a copy of it in another folder, was pushed in the state `now`.
    pub fn knows(&self, path: &FilePath, now: Fingerprint) -> (r: bool)
        requires
            self.wf(),
        ensures
            r == known(self@, path@.parts, now),
    {
        let ghost all = self.entries.deep_view();
        let mut i: usize = 0;
        while i < self.entries.len()
            invariant
                0 <= i <= self.entries@.len(),
                self.wf(),
                all == self.entries.deep_view(),
                forall|j: int|
                    #![trigger all[j]]
                    0 <= j < i ==> !(all[j].1 == now && (all[j].0.parts == path@.parts
                        || path::same_last_part(all[j].0.parts, path@.parts))),
            decreases self.entries@.len() - i,
        {
            assert(all[i as int].0 == self.entries@[i as int].0@);
            assert(all[i as int].1 == self.entries@[i as int].1);
            if self.entries[i].1 == now && (self.entries[i].0.same(path)
                || self.entries[i].0.same_name(path)) {
                proof {
                    lemma_remembered_has(all, all[i as int].0.parts);
                    assert(self@.contains_key(all[i as int].0.parts));
                }
                return true;
            }
            i += 1;
        }
        proof {
            if known(self@, path@.parts, now) {
                let k = choose|k: Seq<Seq<u8>>| #[trigger]
                    self@.contains_key(k) && self@[k] == now && (k == path@.parts
                        || path::same_last_part(k, path@.parts));
                lemma_remembered_has(all, k);
                let j = choose|j: int| 0 <= j < all.len() && #[trigger] all[j].0.parts == k;
                assert(all[j].1 == now);
            }
        }
        false
    }

    /// Remembers that `path` was pushed in the state `now`.
    pub fn record(&mut self, path: FilePath, now: Fingerprint)
        requires
            old(self).wf(),
        ensures
            final(self).wf(),
            memorised(old(self)@, path@.parts, now, final(self)@),
    {
        let ghost before = self.entries.deep_view();
        let ghost key = path@.parts;
        proof {
            lemma_remembered_has(before, key);
            lemma_remembered_len(before);
        }
        match self.position(&path) {
            Some(i) => {
                assert(before[i as int].0.parts == key);
                self.entries.set(i, (path, now));
                let ghost after = self.entries.deep_view();
                proof {
                    assert(after =~= before.update(i as int, (path@, now)));
                    assert forall|a: int, b: int| 0 <= a < b < after.len() implies #[trigger] after[a].0.parts
                        != #[trigger] after[b].0.parts by {
                        assert(before[a].0.parts != before[b].0.parts);
                    }
                    Self::lemma_replaced(before, after, i as int, key, now);
                }
            },
            None => {
                if self.entries.len() >= SEEN_CAP {
                    self.entries.remove(0);
                    let ghost rest = self.entries.deep_view();
                    self.entries.push((path, now));
                    let ghost after = self.entries.deep_view();
                    proof {
                        assert(rest =~= before.remove(0));
                        assert(after =~= rest.push((path@, now)));
                        assert forall|a: int, b: int| 0 <= a < b < after.len() implies #[trigger] after[a].0.parts
                            != #[trigger] after[b].0.parts by {
                            assert(after[a] == before[a + 1]);
                            if b < rest.len() {
                                assert(after[b] == before[b + 1]);
                                assert(before[a + 1].0.parts != before[b + 1].0.parts);
                            } else {
                                assert(before[a + 1].0.parts != key);
                            }
                        }
                        let gone = before[0].0.parts;
                        let m = remembered(before).remove(gone).insert(key, now);
                        assert forall|j: int| 0 <= j < after.len() implies m.contains_key(
                            #[trigger] after[j].0.parts,
                        ) && m[after[j].0.parts] == after[j].1 by {
                            if j < rest.len() {
                                assert(after[j] == before[j + 1]);
                                lemma_remembered_has(before, before[j + 1].0.parts);
                                assert(before[0].0.parts != before[j + 1].0.parts);
                                assert(before[j + 1].0.parts != key);
                            }
                        }
                        assert forall|k: Seq<Seq<u8>>| #[trigger] m.contains_key(k) implies exists|
                            i: int,
                        | 0 <= i < after.len() && #[trigger] after[i].0.parts == k by {
                            lemma_remembered_has(before, k);
                            if k == key {
                                assert(after[after.len() - 1].0.parts == k);
                            } else {
                                let i = choose|i: int|
                                    0 <= i < before.len() && #[trigger] before[i].0.parts == k;
                                assert(i != 0);
                                assert(after[i - 1].0.parts == k);
                            }
                        }
                        lemma_remembered_eq(after, m);
                        lemma_remembered_has(before, gone);
                        assert(before[0].0.parts == gone);
                        assert(remembered(before).contains_key(gone));
                    }
                } else {
                    self.entries.push((path, now));
                    let ghost after = self.entries.deep_view();
                    proof {
                        assert(after =~= before.push((path@, now)));
                        assert forall|a: int, b: int| 0 <= a < b < after.len() implies #[trigger] after[a].0.parts
                            != #[trigger] after[b].0.parts by {
                            assert(after[a] == before[a]);
                            if b < before.len() {
                                assert(before[a].0.parts != before[b].0.parts);
                            } else {
                                assert(before[a].0.parts != key);
                            }
                        }
                        assert(after.drop_last() =~= before);
                    }
                }
            },
        }
    }

    proof fn lemma_replaced(
        before: Seq<(PathView, Fingerprint)>,
        after: Seq<(PathView, Fingerprint)>,
        i: int,
        key: Seq<Seq<u8>>,
        now: Fingerprint,
    )
        requires
            distinct_keys(before),
            distinct_keys(after),
            0 <= i < before.len() == after.len(),
            before[i].0.parts == key,
            after[i].0.parts == key,
            after[i].1 == now,
            forall|j: int| 0 <= j < before.len() && j != i ==> after[j] == before[j],
        ensures
            remembered(after) == remembered(before).insert(key, now),
            remembered(before).contains_key(key),
    {
        lemma_remembered_has(before, key);
        assert(before[i].0.parts == key);
        let m = remembered(before).insert(key, now);
        assert forall|j: int| 0 <= j < after.len() implies m.contains_key(
            #[trigger] after[j].0.parts,
        ) && m[after[j].0.parts] == after[j].1 by {
            lemma_remembered_has(before, after[j].0.parts);
            if j != i {
                assert(before[j].0.parts == after[j].0.parts);
                if i < j {
                    assert(after[i].0.parts != after[j].0.parts);
                } else {
                    assert(after[j].0.parts != after[i].0.parts);
                }
            }
        }
        assert forall|k: Seq<Seq<u8>>| #[trigger] m.contains_key(k) implies exists|j: int|
            0 <= j < after.len() && #[trigger] after[j].0.parts == k by {
            lemma_remembered_has(before, k);
            if k == key {
                assert(after[i].0.parts == k);
            } else {
                let j = choose|j: int| 0 <= j < before.len() && #[trigger] before[j].0.parts == k;
                assert(after[j].0.parts == k);
            }
        }
        lemma_remembered_eq(after, m);
    }
}

} // verus!
