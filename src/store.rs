use vstd::prelude::*;
use crate::key::Key;

verus! {

/// Records held at addresses: each address at most once.
pub open spec fn unique_addresses<T>(s: Seq<(Key, T)>) -> bool {
    forall|i: int, j: int|
        0 <= i < s.len() && 0 <= j < s.len() && #[trigger] s[i].0@ == #[trigger] s[j].0@ ==> i == j
}

pub open spec fn holds_at<T>(s: Seq<(Key, T)>, a: Seq<u8>, i: int) -> bool {
    0 <= i < s.len() && s[i].0@ == a
}

/// The records of `s`, by address.
pub open spec fn records_of<T>(s: Seq<(Key, T)>) -> Map<Seq<u8>, T> {
    Map::new(
        |a: Seq<u8>| exists|i: int| holds_at(s, a, i),
        |a: Seq<u8>| s[choose|i: int| holds_at(s, a, i)].1,
    )
}

pub proof fn lemma_record_at<T>(s: Seq<(Key, T)>, i: int)
    requires
        unique_addresses(s),
        0 <= i < s.len(),
    ensures
        records_of(s).contains_key(s[i].0@),
        records_of(s)[s[i].0@] == s[i].1,
{
    let a = s[i].0@;
    assert(holds_at(s, a, i));
    let j = choose|j: int| holds_at(s, a, j);
    assert(s[j].0@ == s[i].0@);
}

pub proof fn lemma_push<T>(s: Seq<(Key, T)>, k: Key, v: T)
    requires
        unique_addresses(s),
        !records_of(s).contains_key(k@),
    ensures
        unique_addresses(s.push((k, v))),
        records_of(s.push((k, v))) == records_of(s).insert(k@, v),
{
    let t = s.push((k, v));
    assert forall|i: int, j: int|
        0 <= i < t.len() && 0 <= j < t.len() && #[trigger] t[i].0@ == #[trigger] t[j].0@ implies i == j by {
        if i < s.len() && j == s.len() {
            assert(holds_at(s, k@, i));
        } else if j < s.len() && i == s.len() {
            assert(holds_at(s, k@, j));
        } else if i < s.len() && j < s.len() {
            assert(s[i].0@ == s[j].0@);
        }
    }
    let m = records_of(s).insert(k@, v);
    lemma_record_at(t, s.len() as int);
    assert forall|a: Seq<u8>| #[trigger] records_of(t).contains_key(a) == m.contains_key(a)
        && (records_of(t).contains_key(a) ==> records_of(t)[a] == m[a]) by {
        if a != k@ {
            if records_of(s).contains_key(a) {
                let i = choose|i: int| holds_at(s, a, i);
                lemma_record_at(s, i);
                assert(t[i] == s[i]);
                lemma_record_at(t, i);
            }
            if records_of(t).contains_key(a) {
                let i = choose|i: int| holds_at(t, a, i);
                assert(i < s.len());
                assert(t[i] == s[i]);
                assert(holds_at(s, a, i));
            }
        }
    }
    assert(records_of(t) =~= m);
}

pub proof fn lemma_update<T>(s: Seq<(Key, T)>, i: int, v: T)
    requires
        unique_addresses(s),
        0 <= i < s.len(),
    ensures
        unique_addresses(s.update(i, (s[i].0, v))),
        records_of(s.update(i, (s[i].0, v))) == records_of(s).insert(s[i].0@, v),
{
    let k = s[i].0;
    let t = s.update(i, (k, v));
    assert forall|x: int, y: int|
        0 <= x < t.len() && 0 <= y < t.len() && #[trigger] t[x].0@ == #[trigger] t[y].0@ implies x == y by {
        assert(t[x].0@ == s[x].0@);
        assert(t[y].0@ == s[y].0@);
    }
    let m = records_of(s).insert(k@, v);
    lemma_record_at(t, i);
    assert forall|a: Seq<u8>| #[trigger] records_of(t).contains_key(a) == m.contains_key(a)
        && (records_of(t).contains_key(a) ==> records_of(t)[a] == m[a]) by {
        if a != k@ {
            if records_of(s).contains_key(a) {
                let j = choose|j: int| holds_at(s, a, j);
                lemma_record_at(s, j);
                assert(j != i);
                assert(t[j] == s[j]);
                lemma_record_at(t, j);
            }
            if records_of(t).contains_key(a) {
                let j = choose|j: int| holds_at(t, a, j);
                assert(j != i);
                assert(t[j] == s[j]);
                assert(holds_at(s, a, j));
            }
        }
    }
    assert(records_of(t) =~= m);
}

/// The position of the record at `a`, if there is one.
pub fn position_of<T>(s: &Vec<(Key, T)>, a: &Key) -> (r: Option<usize>)
    requires
        unique_addresses(s@),
    ensures
        match r {
            Some(i) => i < s@.len() && s@[i as int].0@ == a@ && records_of(s@).contains_key(a@)
                && records_of(s@)[a@] == s@[i as int].1,
            None => !records_of(s@).contains_key(a@),
        },
{
    let mut i: usize = 0;
    while i < s.len()
        invariant
            0 <= i <= s@.len(),
            unique_addresses(s@),
            forall|j: int| 0 <= j < i ==> s@[j].0@ != a@,
        decreases s@.len() - i,
    {
        if s[i].0.same(a) {
            proof {
                lemma_record_at(s@, i as int);
            }
            return Some(i);
        }
        i = i + 1;
    }
    proof {
        if records_of(s@).contains_key(a@) {
            let j = choose|j: int| holds_at(s@, a@, j);
            assert(s@[j].0@ == a@);
        }
    }
    None
}

} // verus!
