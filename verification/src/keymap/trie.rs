use vstd::prelude::*;

use crate::keymap::action::KeymapAction;
use crate::keymap::error::KeymapError;
use crate::keymap::key::{text_view, KeySequence, KeyStroke};

verus! {

/// One binding of a compiled table as a value: key strokes, action, description.
pub type EntryView = (Seq<KeyStroke>, KeymapAction, Option<Seq<char>>);

/// Whether `a` is a prefix of `b`, possibly `b` itself.
pub open spec fn is_prefix(a: Seq<KeyStroke>, b: Seq<KeyStroke>) -> bool {
    a.len() <= b.len() && b.take(a.len() as int) == a
}

/// Whether `a` is a prefix of `b` and shorter than `b`.
pub open spec fn is_proper_prefix(a: Seq<KeyStroke>, b: Seq<KeyStroke>) -> bool {
    a.len() < b.len() && b.take(a.len() as int) == a
}

/// A table is well formed when no binding is empty and no binding's keys begin
/// another binding's keys: each key sequence leads to at most one binding.
pub open spec fn table_wf(e: Seq<EntryView>) -> bool {
    &&& forall|i: int| 0 <= i < e.len() ==> (#[trigger] e[i]).0.len() > 0
    &&& forall|i: int, j: int|
        0 <= i < e.len() && 0 <= j < e.len() && i != j ==> !is_prefix(#[trigger] e[i].0, #[trigger] e[j].0)
}

/// The position of the binding on exactly `keys`, if any.
pub open spec fn entry_position(e: Seq<EntryView>, keys: Seq<KeyStroke>) -> Option<nat>
    decreases e.len(),
{
    if e.len() == 0 {
        None
    } else {
        match entry_position(e.drop_last(), keys) {
            Some(i) => Some(i),
            None => if e.last().0 == keys {
                Some((e.len() - 1) as nat)
            } else {
                None
            },
        }
    }
}

/// Whether some binding's keys continue after `keys`.
pub open spec fn has_continuation(e: Seq<EntryView>, keys: Seq<KeyStroke>) -> bool {
    exists|i: int| 0 <= i < e.len() && is_proper_prefix(keys, #[trigger] e[i].0)
}

/// Whether `k` is a key that continues `keys` towards some binding.
pub open spec fn is_next_key(e: Seq<EntryView>, keys: Seq<KeyStroke>, k: KeyStroke) -> bool {
    exists|i: int| 0 <= i < e.len() && is_proper_prefix(keys, #[trigger] e[i].0) && e[i].0[keys.len() as int] == k
}

/// The position of the first binding that conflicts with new keys by being a proper prefix of them.
pub open spec fn shorter_conflict(e: Seq<EntryView>, keys: Seq<KeyStroke>) -> Option<nat>
    decreases e.len(),
{
    if e.len() == 0 {
        None
    } else {
        match shorter_conflict(e.drop_last(), keys) {
            Some(i) => Some(i),
            None => if is_proper_prefix(e.last().0, keys) {
                Some((e.len() - 1) as nat)
            } else {
                None
            },
        }
    }
}

/// Adding a binding to a table: refused with the keys in conflict when a binding's
/// keys begin the new keys (the new keys up to one stroke past that binding) or
/// continue them (the new keys); otherwise the binding on the same keys is replaced,
/// or the new binding is appended.
pub open spec fn table_insert(e: Seq<EntryView>, entry: EntryView) -> Result<Seq<EntryView>, Seq<KeyStroke>> {
    match shorter_conflict(e, entry.0) {
        Some(i) => Err(entry.0.take(e[i as int].0.len() + 1 as int)),
        None => if has_continuation(e, entry.0) {
            Err(entry.0)
        } else {
            match entry_position(e, entry.0) {
                Some(i) => Ok(e.update(i as int, entry)),
                None => Ok(e.push(entry)),
            }
        },
    }
}

/// A binding found at the end of a key sequence.
#[derive(Debug)]
pub struct CompiledBinding {
    pub action: KeymapAction,
    pub desc: Option<String>,
}

/// A key that may follow the keys typed so far, with the binding it completes if any.
#[derive(Debug, PartialEq, Eq)]
pub struct KeymapCandidate {
    pub key: KeyStroke,
    pub action: Option<KeymapAction>,
    pub desc: Option<String>,
}

/// Outcome of looking up typed keys in a table.
#[derive(Debug)]
pub enum TrieSearch {
    Matched(CompiledBinding),
    Pending(Vec<KeymapCandidate>),
    NotFound,
}

/// Whether `c` lists exactly the keys that may follow `keys`, once each, with the binding each completes.
pub open spec fn candidates_for(e: Seq<EntryView>, keys: Seq<KeyStroke>, c: Seq<KeymapCandidate>) -> bool {
    &&& forall|i: int, j: int| 0 <= i < j < c.len() ==> (#[trigger] c[i]).key != (#[trigger] c[j]).key
    &&& forall|k: KeyStroke| is_next_key(e, keys, k) <==> exists|i: int| 0 <= i < c.len() && (#[trigger] c[i]).key == k
    &&& forall|i: int| 0 <= i < c.len() ==> match entry_position(e, keys.push((#[trigger] c[i]).key)) {
        Some(p) => c[i].action == Some(e[p as int].1) && text_view(c[i].desc) == e[p as int].2,
        None => c[i].action is None && c[i].desc is None,
    }
}

/// What looking up `keys` in a table gives: the binding on exactly those keys, the keys
/// that may follow them, or nothing.
pub open spec fn search_outcome(e: Seq<EntryView>, keys: Seq<KeyStroke>, r: TrieSearch) -> bool {
    if keys.len() == 0 {
        r is NotFound
    } else {
        match entry_position(e, keys) {
            Some(p) => r matches TrieSearch::Matched(b) && b.action == e[p as int].1 && text_view(b.desc) == e[p as int].2,
            None => if has_continuation(e, keys) {
                r matches TrieSearch::Pending(c) && candidates_for(e, keys, c@)
            } else {
                r is NotFound
            },
        }
    }
}

/// One binding of a compiled table.
#[derive(Debug)]
pub struct TrieEntry {
    pub keys: Vec<KeyStroke>,
    pub action: KeymapAction,
    pub desc: Option<String>,
}

impl View for TrieEntry {
    type V = EntryView;

    open spec fn view(&self) -> EntryView {
        (self.keys@, self.action, text_view(self.desc))
    }
}

/// A table of bindings in which each key sequence leads to at most one binding.
#[derive(Debug, Default)]
pub struct KeyTrie {
    entries: Vec<TrieEntry>,
}

impl View for KeyTrie {
    type V = Seq<EntryView>;

    open spec fn view(&self) -> Seq<EntryView> {
        self.entries_view()
    }
}

pub proof fn lemma_entry_position_found(e: Seq<EntryView>, keys: Seq<KeyStroke>)
    ensures
        entry_position(e, keys) matches Some(i) ==> i < e.len() && e[i as int].0 == keys,
        entry_position(e, keys) is None ==> forall|i: int| 0 <= i < e.len() ==> (#[trigger] e[i]).0 != keys,
    decreases e.len(),
{
    if e.len() > 0 {
        lemma_entry_position_found(e.drop_last(), keys);
        assert forall|i: int| 0 <= i < e.len() - 1 implies e[i] == e.drop_last()[i] by {}
    }
}

pub proof fn lemma_shorter_conflict_found(e: Seq<EntryView>, keys: Seq<KeyStroke>)
    ensures
        shorter_conflict(e, keys) matches Some(i) ==> i < e.len() && is_proper_prefix(e[i as int].0, keys),
        shorter_conflict(e, keys) is None ==> forall|i: int| 0 <= i < e.len() ==> !is_proper_prefix((#[trigger] e[i]).0, keys),
    decreases e.len(),
{
    if e.len() > 0 {
        lemma_shorter_conflict_found(e.drop_last(), keys);
        assert forall|i: int| 0 <= i < e.len() - 1 implies e[i] == e.drop_last()[i] by {}
    }
}

/// In a well formed table the binding on some keys is the only one on them.
pub proof fn lemma_unique_position(e: Seq<EntryView>, keys: Seq<KeyStroke>, i: int)
    requires
        table_wf(e),
        0 <= i < e.len(),
        e[i].0 == keys,
    ensures
        entry_position(e, keys) == Some(i as nat),
{
    lemma_entry_position_found(e, keys);
    match entry_position(e, keys) {
        Some(p) => {
            if p != i {
                assert(e[i].0.take(e[i].0.len() as int) =~= e[i].0);
                assert(is_prefix(e[p as int].0, e[i].0));
            }
        },
        None => {},
    }
}

/// Whether the first `n` keys of `a` equal `b`.
fn starts_with(a: &Vec<KeyStroke>, b: &[KeyStroke]) -> (r: bool)
    requires
        b@.len() <= a@.len(),
    ensures
        r == (a@.take(b@.len() as int) == b@),
{
    let mut i: usize = 0;
    while i < b.len()
        invariant
            b@.len() <= a@.len(),
            i <= b@.len(),
            forall|j: int| 0 <= j < i ==> a@[j] == b@[j],
        decreases b@.len() - i,
    {
        if a[i] != b[i] {
            assert(a@.take(b@.len() as int)[i as int] != b@[i as int]);
            return false;
        }
        i += 1;
    }
    assert(a@.take(b@.len() as int) =~= b@);
    true
}

impl KeyTrie {
    /// The bindings of this table, in order.
    pub closed spec fn entries_view(&self) -> Seq<EntryView> {
        self.entries@.map_values(|x: TrieEntry| x@)
    }

    /// An empty table.
    pub fn new() -> (t: KeyTrie)
        ensures
            t@ == Seq::<EntryView>::empty(),
            table_wf(t@),
    {
        let t = KeyTrie { entries: Vec::new() };
        assert(t@ =~= Seq::<EntryView>::empty());
        t
    }

    /// Adds a binding as `table_insert` does.
    pub fn insert(&mut self, on: &KeySequence, action: &KeymapAction, desc: &Option<String>) -> (r: Result<(), KeymapError>)
        requires
            table_wf(old(self)@),
        ensures
            match table_insert(old(self)@, (on@, *action, text_view(*desc))) {
                Ok(t) => r is Ok && final(self)@ == t,
                Err(k) => r matches Err(KeymapError::AmbiguousBinding { keys }) && keys@ == k
                    && final(self)@ == old(self)@,
            },
            table_wf(final(self)@),
    {
        let keys = on.as_slice();
        let ghost e = self@;
        let ghost entry: EntryView = (on@, *action, text_view(*desc));
        // A binding whose keys begin the new keys.
        let mut i: usize = 0;
        while i < self.entries.len()
            invariant
                e == self@,
                table_wf(e),
                keys@ == on@,
                i <= self.entries@.len(),
                shorter_conflict(e.take(i as int), on@) is None,
            decreases self.entries@.len() - i,
        {
            proof {
                assert(e.take(i + 1).drop_last() =~= e.take(i as int));
            }
            let ek = &self.entries[i].keys;
            if ek.len() < keys.len() {
                let same = prefix_of(ek, keys);
                if same {
                    proof {
                        lemma_conflict_extends(e, i as int, on@);
                    }
                    let n = ek.len() + 1;
                    let mut taken: Vec<KeyStroke> = Vec::new();
                    let mut j: usize = 0;
                    while j < n
                        invariant
                            n <= keys@.len(),
                            j <= n,
                            taken@ == keys@.take(j as int),
                        decreases n - j,
                    {
                        taken.push(keys[j]);
                        proof {
                            assert(taken@ =~= keys@.take(j + 1));
                        }
                        j += 1;
                    }
                    let seq = match KeySequence::new(taken) {
                        Ok(s) => s,
                        Err(err) => {
                            return Err(err);
                        },
                    };
                    return Err(KeymapError::AmbiguousBinding { keys: seq });
                }
            }
            i += 1;
        }
        proof {
            assert(e.take(e.len() as int) =~= e);
        }
        // A binding whose keys continue the new keys.
        let mut i: usize = 0;
        while i < self.entries.len()
            invariant
                e == self@,
                table_wf(e),
                keys@ == on@,
                i <= self.entries@.len(),
                shorter_conflict(e, on@) is None,
                forall|j: int| 0 <= j < i ==> !is_proper_prefix(on@, #[trigger] e[j].0),
            decreases self.entries@.len() - i,
        {
            let ek = &self.entries[i].keys;
            if keys.len() < ek.len() && starts_with(ek, keys) {
                assert(is_proper_prefix(on@, e[i as int].0));
                return Err(KeymapError::AmbiguousBinding { keys: on.duplicate() });
            }
            i += 1;
        }
        assert(!has_continuation(e, on@));
        let new_entry = TrieEntry { keys: copy_strokes(keys), action: action.clone(), desc: clone_desc(desc) };
        assert(new_entry@ == entry);
        match self.position(keys) {
            Some(p) => {
                proof {
                    lemma_entry_position_found(e, on@);
                }
                self.entries.set(p, new_entry);
                assert(self@ =~= e.update(p as int, entry));
                proof {
                    lemma_wf_update(e, p as int, entry);
                }
            },
            None => {
                self.entries.push(new_entry);
                assert(self@ =~= e.push(entry));
                proof {
                    lemma_entry_position_found(e, on@);
                    lemma_shorter_conflict_found(e, on@);
                    lemma_wf_push(e, entry);
                }
            },
        }
        Ok(())
    }

    /// Looks up typed keys as `search_outcome` describes.
    pub fn search(&self, keys: &[KeyStroke]) -> (r: TrieSearch)
        requires
            table_wf(self@),
        ensures
            search_outcome(self@, keys@, r),
    {
        if keys.len() == 0 {
            return TrieSearch::NotFound;
        }
        let ghost e = self@;
        let ghost n = keys@.len();
        let pos = self.position(keys);
        let count = self.entries.len();
        if let Some(p) = pos {
            proof {
                lemma_entry_position_found(e, keys@);
                assert(e.len() == self.entries@.len());
                let i = entry_position(e, keys@)->0;
                assert(entry_position(e, keys@) is Some);
                assert(i < e.len());
                assert(i as usize == p);
                assert(i <= count);
            }
            let entry = &self.entries[p];
            assert(e[p as int] == self.entries@[p as int]@);
            let action = entry.action.clone();
            assert(action == e[p as int].1);
            let desc = clone_desc(&entry.desc);
            assert(text_view(desc) == e[p as int].2);
            assert(entry_position(e, keys@) == Some(p as nat));
            return TrieSearch::Matched(CompiledBinding { action, desc });
        }
        let mut cands: Vec<KeymapCandidate> = Vec::new();
        let mut i: usize = 0;
        while i < self.entries.len()
            invariant
                e == self@,
                table_wf(e),
                n == keys@.len(),
                n > 0,
                i <= self.entries@.len(),
                forall|a: int, b: int| 0 <= a < b < cands@.len() ==> (#[trigger] cands@[a]).key != (#[trigger] cands@[b]).key,
                forall|k: KeyStroke| #![trigger has_key(cands@, k)] #![trigger next_key_within(e, keys@, i as int, k)]
                    next_key_within(e, keys@, i as int, k) <==> has_key(cands@, k),
                forall|c: int| 0 <= c < cands@.len() ==> candidate_ok(e, keys@, #[trigger] cands@[c]),
            decreases self.entries@.len() - i,
        {
            let entry = &self.entries[i];
            let ek = &entry.keys;
            let ghost before = cands@;
            if keys.len() < ek.len() && starts_with(ek, keys) {
                let k = ek[keys.len()];
                let ghost ekv = e[i as int].0;
                assert(ekv == ek@);
                assert(is_proper_prefix(keys@, ekv));
                if !has_candidate(&cands, k) {
                    let ghost target = keys@.push(k);
                    assert(ekv.take(n + 1 as int) =~= target);
                    let cand = if ek.len() == keys.len() + 1 {
                        proof {
                            assert(ekv =~= target);
                            lemma_unique_position(e, target, i as int);
                        }
                        KeymapCandidate { key: k, action: Some(entry.action.clone()), desc: clone_desc(&entry.desc) }
                    } else {
                        proof {
                            lemma_entry_position_found(e, target);
                            if let Some(p) = entry_position(e, target) {
                                assert(is_prefix(e[p as int].0, e[i as int].0));
                                assert(p != i);
                            }
                        }
                        KeymapCandidate { key: k, action: None, desc: None }
                    };
                    cands.push(cand);
                    proof {
                        assert forall|a: int| 0 <= a < before.len() implies cands@[a] == before[a] by {}
                        assert forall|kk: KeyStroke| #![trigger has_key(cands@, kk)]
                            next_key_within(e, keys@, i + 1, kk) <==> has_key(cands@, kk) by {
                            if next_key_within(e, keys@, i + 1, kk) {
                                let j = choose|j: int| 0 <= j < i + 1 && is_proper_prefix(keys@, #[trigger] e[j].0) && e[j].0[n as int] == kk;
                                if j < i {
                                    assert(next_key_within(e, keys@, i as int, kk));
                                    assert(has_key(before, kk));
                                    let c = choose|c: int| 0 <= c < before.len() && (#[trigger] before[c]).key == kk;
                                    assert(cands@[c].key == kk);
                                } else {
                                    assert(cands@[cands@.len() - 1].key == kk);
                                }
                            }
                            if has_key(cands@, kk) {
                                let c = choose|c: int| 0 <= c < cands@.len() && (#[trigger] cands@[c]).key == kk;
                                if c < before.len() {
                                    assert(before[c].key == kk);
                                    assert(has_key(before, kk));
                                    assert(next_key_within(e, keys@, i as int, kk));
                                } else {
                                    assert(is_proper_prefix(keys@, e[i as int].0) && e[i as int].0[n as int] == kk);
                                }
                            }
                        }
                    }
                } else {
                    proof {
                        assert forall|kk: KeyStroke| #![trigger has_key(cands@, kk)]
                            next_key_within(e, keys@, i + 1, kk) <==> has_key(cands@, kk) by {
                            if next_key_within(e, keys@, i + 1, kk) {
                                let j = choose|j: int| 0 <= j < i + 1 && is_proper_prefix(keys@, #[trigger] e[j].0) && e[j].0[n as int] == kk;
                                if j < i {
                                    assert(next_key_within(e, keys@, i as int, kk));
                                }
                            }
                            if has_key(cands@, kk) {
                                assert(next_key_within(e, keys@, i as int, kk));
                            }
                        }
                    }
                }
            } else {
                proof {
                    assert forall|kk: KeyStroke| #![trigger has_key(cands@, kk)]
                        next_key_within(e, keys@, i + 1, kk) <==> has_key(cands@, kk) by {
                        if next_key_within(e, keys@, i + 1, kk) {
                            let j = choose|j: int| 0 <= j < i + 1 && is_proper_prefix(keys@, #[trigger] e[j].0) && e[j].0[n as int] == kk;
                            if j < i {
                                assert(next_key_within(e, keys@, i as int, kk));
                            } else {
                                assert(starts_with_spec(ek@, keys@));
                            }
                        }
                        if has_key(cands@, kk) {
                            assert(next_key_within(e, keys@, i as int, kk));
                        }
                    }
                }
            }
            i += 1;
        }
        assert forall|kk: KeyStroke| #![trigger has_key(cands@, kk)] is_next_key(e, keys@, kk) <==> has_key(cands@, kk) by {
            if is_next_key(e, keys@, kk) {
                let j = choose|j: int| 0 <= j < e.len() && is_proper_prefix(keys@, #[trigger] e[j].0) && e[j].0[keys@.len() as int] == kk;
                assert(next_key_within(e, keys@, i as int, kk));
            }
            if has_key(cands@, kk) {
                assert(next_key_within(e, keys@, i as int, kk));
            }
        }
        if cands.len() == 0 {
            proof {
                if has_continuation(e, keys@) {
                    let j = choose|j: int| 0 <= j < e.len() && is_proper_prefix(keys@, #[trigger] e[j].0);
                    assert(is_next_key(e, keys@, e[j].0[n as int]));
                    assert(has_key(cands@, e[j].0[n as int]));
                }
            }
            TrieSearch::NotFound
        } else {
            proof {
                let k = cands@[0].key;
                assert(has_key(cands@, k));
                assert(is_next_key(e, keys@, k));
                let j = choose|j: int| 0 <= j < e.len() && is_proper_prefix(keys@, #[trigger] e[j].0) && e[j].0[keys@.len() as int] == k;
                assert(has_continuation(e, keys@));
                assert forall|kk: KeyStroke| is_next_key(e, keys@, kk) <==> exists|c: int| 0 <= c < cands@.len() && (#[trigger] cands@[c]).key == kk by {
                    assert(is_next_key(e, keys@, kk) <==> has_key(cands@, kk));
                }
                assert forall|c: int| 0 <= c < cands@.len() implies match entry_position(e, keys@.push((#[trigger] cands@[c]).key)) {
                    Some(p) => cands@[c].action == Some(e[p as int].1) && text_view(cands@[c].desc) == e[p as int].2,
                    None => cands@[c].action is None && cands@[c].desc is None,
                } by {
                    assert(candidate_ok(e, keys@, cands@[c]));
                }
                assert(candidates_for(e, keys@, cands@));
            }
            TrieSearch::Pending(cands)
        }
    }

    /// The position of the binding on exactly `keys`.
    fn position(&self, keys: &[KeyStroke]) -> (r: Option<usize>)
        ensures
            match entry_position(self@, keys@) {
                Some(i) => r == Some(i as usize),
                None => r is None,
            },
    {
        let ghost e = self@;
        let mut i: usize = 0;
        while i < self.entries.len()
            invariant
                e == self@,
                i <= self.entries@.len(),
                entry_position(e.take(i as int), keys@) is None,
            decreases self.entries@.len() - i,
        {
            proof {
                assert(e.take(i + 1).drop_last() =~= e.take(i as int));
            }
            if same_strokes(&self.entries[i].keys, keys) {
                proof {
                    lemma_position_in_prefix(e, i as int, keys@);
                }
                return Some(i);
            }
            i += 1;
        }
        assert(e.take(e.len() as int) =~= e);
        None
    }
}

/// Whether some candidate is for key `k`.
fn has_candidate(cands: &Vec<KeymapCandidate>, k: KeyStroke) -> (r: bool)
    ensures
        r == exists|c: int| 0 <= c < cands@.len() && (#[trigger] cands@[c]).key == k,
{
    let mut i: usize = 0;
    while i < cands.len()
        invariant
            i <= cands@.len(),
            forall|c: int| 0 <= c < i ==> (#[trigger] cands@[c]).key != k,
        decreases cands@.len() - i,
    {
        if cands[i].key == k {
            return true;
        }
        i += 1;
    }
    false
}

/// Whether some candidate is for key `k`.
pub open spec fn has_key(c: Seq<KeymapCandidate>, k: KeyStroke) -> bool {
    exists|i: int| 0 <= i < c.len() && (#[trigger] c[i]).key == k
}

/// Whether one of the first `n` bindings continues `keys` with `k`.
pub open spec fn next_key_within(e: Seq<EntryView>, keys: Seq<KeyStroke>, n: int, k: KeyStroke) -> bool {
    exists|j: int| 0 <= j < n && is_proper_prefix(keys, #[trigger] e[j].0) && e[j].0[keys.len() as int] == k
}

/// Whether a candidate carries the binding its key completes, if any.
pub open spec fn candidate_ok(e: Seq<EntryView>, keys: Seq<KeyStroke>, c: KeymapCandidate) -> bool {
    match entry_position(e, keys.push(c.key)) {
        Some(p) => c.action == Some(e[p as int].1) && text_view(c.desc) == e[p as int].2,
        None => c.action is None && c.desc is None,
    }
}

/// Whether `a` begins with `b`.
spec fn starts_with_spec(a: Seq<KeyStroke>, b: Seq<KeyStroke>) -> bool {
    b.len() <= a.len() && a.take(b.len() as int) == b
}

/// A vector holding the given key strokes.
pub fn copy_strokes(s: &[KeyStroke]) -> (v: Vec<KeyStroke>)
    ensures
        v@ == s@,
{
    let mut v: Vec<KeyStroke> = Vec::new();
    let mut i: usize = 0;
    while i < s.len()
        invariant
            i <= s@.len(),
            v@ == s@.take(i as int),
        decreases s@.len() - i,
    {
        v.push(s[i]);
        proof {
            assert(v@ =~= s@.take(i + 1));
        }
        i += 1;
    }
    assert(s@.take(s@.len() as int) =~= s@);
    v
}

/// A copy of an optional description.
pub fn clone_desc(d: &Option<String>) -> (r: Option<String>)
    ensures
        r == *d,
{
    match d {
        Some(s) => Some(s.clone()),
        None => None,
    }
}

/// Whether two key stroke sequences are equal.
fn same_strokes(a: &Vec<KeyStroke>, b: &[KeyStroke]) -> (r: bool)
    ensures
        r == (a@ == b@),
{
    if a.len() != b.len() {
        return false;
    }
    let r = starts_with(a, b);
    proof {
        assert(a@.take(b@.len() as int) =~= a@);
    }
    r
}

/// Whether `a` is a prefix of `b`.
fn prefix_of(a: &Vec<KeyStroke>, b: &[KeyStroke]) -> (r: bool)
    requires
        a@.len() <= b@.len(),
    ensures
        r == (b@.take(a@.len() as int) == a@),
{
    let mut i: usize = 0;
    while i < a.len()
        invariant
            a@.len() <= b@.len(),
            i <= a@.len(),
            forall|j: int| 0 <= j < i ==> a@[j] == b@[j],
        decreases a@.len() - i,
    {
        if a[i] != b[i] {
            assert(b@.take(a@.len() as int)[i as int] != a@[i as int]);
            return false;
        }
        i += 1;
    }
    assert(b@.take(a@.len() as int) =~= a@);
    true
}

proof fn lemma_position_in_prefix(e: Seq<EntryView>, i: int, keys: Seq<KeyStroke>)
    requires
        0 <= i < e.len(),
        entry_position(e.take(i), keys) is None,
        e[i].0 == keys,
    ensures
        entry_position(e, keys) == Some(i as nat),
    decreases e.len(),
{
    if e.len() == i + 1 {
        assert(e.drop_last() =~= e.take(i));
    } else {
        assert(e.drop_last().take(i) =~= e.take(i));
        lemma_position_in_prefix(e.drop_last(), i, keys);
    }
}

proof fn lemma_conflict_extends(e: Seq<EntryView>, i: int, keys: Seq<KeyStroke>)
    requires
        0 <= i < e.len(),
        shorter_conflict(e.take(i), keys) is None,
        is_proper_prefix(e[i].0, keys),
    ensures
        shorter_conflict(e, keys) == Some(i as nat),
    decreases e.len(),
{
    if e.len() == i + 1 {
        assert(e.drop_last() =~= e.take(i));
    } else {
        assert(e.drop_last().take(i) =~= e.take(i));
        lemma_conflict_extends(e.drop_last(), i, keys);
    }
}

/// Adding a binding on non-empty keys to a well formed table, when it is not refused,
/// keeps the table well formed.
pub proof fn lemma_insert_wf(e: Seq<EntryView>, entry: EntryView)
    requires
        table_wf(e),
        entry.0.len() > 0,
        table_insert(e, entry) is Ok,
    ensures
        table_wf(table_insert(e, entry)->Ok_0),
{
    lemma_shorter_conflict_found(e, entry.0);
    lemma_entry_position_found(e, entry.0);
    match entry_position(e, entry.0) {
        Some(p) => {
            lemma_wf_update(e, p as int, entry);
        },
        None => {
            assert forall|i: int| 0 <= i < e.len() implies !is_proper_prefix(entry.0, (#[trigger] e[i]).0) by {
                if is_proper_prefix(entry.0, e[i].0) {
                    assert(has_continuation(e, entry.0));
                }
            }
            lemma_wf_push(e, entry);
        },
    }
}

/// Replacing a binding by one on the same keys keeps a table well formed.
proof fn lemma_wf_update(e: Seq<EntryView>, p: int, entry: EntryView)
    requires
        table_wf(e),
        0 <= p < e.len(),
        e[p].0 == entry.0,
    ensures
        table_wf(e.update(p, entry)),
{
    let f = e.update(p, entry);
    assert forall|i: int| 0 <= i < f.len() implies (#[trigger] f[i]).0 == e[i].0 by {}
    assert forall|i: int, j: int| 0 <= i < f.len() && 0 <= j < f.len() && i != j implies !is_prefix(
        #[trigger] f[i].0,
        #[trigger] f[j].0,
    ) by {
        assert(f[i].0 == e[i].0);
        assert(f[j].0 == e[j].0);
    }
}

/// Appending a binding that conflicts with none keeps a table well formed.
proof fn lemma_wf_push(e: Seq<EntryView>, entry: EntryView)
    requires
        table_wf(e),
        entry.0.len() > 0,
        forall|i: int| 0 <= i < e.len() ==> !is_proper_prefix((#[trigger] e[i]).0, entry.0),
        forall|i: int| 0 <= i < e.len() ==> !is_proper_prefix(entry.0, (#[trigger] e[i]).0),
        forall|i: int| 0 <= i < e.len() ==> (#[trigger] e[i]).0 != entry.0,
    ensures
        table_wf(e.push(entry)),
{
    let f = e.push(entry);
    assert forall|i: int, j: int| 0 <= i < f.len() && 0 <= j < f.len() && i != j implies !is_prefix(
        #[trigger] f[i].0,
        #[trigger] f[j].0,
    ) by {
        if i < e.len() && j < e.len() {
            assert(f[i] == e[i] && f[j] == e[j]);
        } else if i == e.len() {
            assert(f[j] == e[j]);
            if is_prefix(entry.0, e[j].0) {
                if entry.0.len() == e[j].0.len() {
                    assert(e[j].0.take(entry.0.len() as int) =~= e[j].0);
                }
            }
        } else {
            assert(f[i] == e[i]);
            if is_prefix(e[i].0, entry.0) {
                if entry.0.len() == e[i].0.len() {
                    assert(entry.0.take(e[i].0.len() as int) =~= entry.0);
                }
            }
        }
    }
}

} // verus!
