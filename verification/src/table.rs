//! The keyed-table abstraction shared by every record table of the store:
//! a table is a sequence of records with pairwise distinct `u32` keys, looked
//! up by linear scan, so that the search is always consistent with insertion
//! order.

use vstd::prelude::*;

verus! {

/// A record kept in a keyed table. The key is the record's id.
pub trait Keyed: Sized {
    /// The key under which the record is filed.
    spec fn key(self) -> u32;

    /// Reads the key of the record.
    fn key_of(&self) -> (k: u32)
        ensures
            k == self.key(),
    ;
}

/// Whether some record in `s` has key `k`.
pub open spec fn has_key<T: Keyed>(s: Seq<T>, k: u32) -> bool {
    exists|i: int| 0 <= i < s.len() && s[i].key() == k
}

/// Whether the keys of `s` are pairwise distinct.
pub open spec fn unique_keys<T: Keyed>(s: Seq<T>) -> bool {
    forall|i: int, j: int| 0 <= i < j < s.len() ==> s[i].key() != s[j].key()
}

/// The index of the first record of `s` with key `k`, or `s.len()` if none has it.
pub open spec fn key_at<T: Keyed>(s: Seq<T>, k: u32) -> int
    decreases s.len(),
{
    if s.len() == 0 {
        0
    } else if s[0].key() == k {
        0
    } else {
        1 + key_at(s.drop_first(), k)
    }
}

/// The first record of `s` with key `k`, if any.
pub open spec fn spec_find<T: Keyed>(s: Seq<T>, k: u32) -> Option<T> {
    if key_at(s, k) < s.len() {
        Some(s[key_at(s, k)])
    } else {
        None
    }
}

/// `key_at` points at the first record with key `k`, and runs off the end
/// exactly when no record has it.
pub proof fn lemma_key_at<T: Keyed>(s: Seq<T>, k: u32)
    ensures
        0 <= key_at(s, k) <= s.len(),
        key_at(s, k) < s.len() ==> s[key_at(s, k)].key() == k,
        forall|j: int| 0 <= j < key_at(s, k) ==> s[j].key() != k,
        key_at(s, k) < s.len() <==> has_key(s, k),
    decreases s.len(),
{
    if s.len() > 0 && s[0].key() != k {
        lemma_key_at(s.drop_first(), k);
        assert forall|j: int| 0 <= j < key_at(s, k) implies s[j].key() != k by {
            if j > 0 {
                assert(s.drop_first()[j - 1] == s[j]);
            }
        }
        if has_key(s, k) {
            let w = choose|i: int| 0 <= i < s.len() && s[i].key() == k;
            assert(s.drop_first()[w - 1] == s[w]);
            assert(has_key(s.drop_first(), k));
        }
        if has_key(s.drop_first(), k) {
            let w = choose|i: int| 0 <= i < s.drop_first().len() && s.drop_first()[i].key() == k;
            assert(s[w + 1] == s.drop_first()[w]);
        }
        if key_at(s, k) < s.len() {
            assert(s[key_at(s, k)] == s.drop_first()[key_at(s.drop_first(), k)]);
        }
    }
}

/// Appending a record whose key is not yet taken keeps the keys distinct.
pub proof fn lemma_unique_push<T: Keyed>(s: Seq<T>, t: T)
    requires
        unique_keys(s),
        !has_key(s, t.key()),
    ensures
        unique_keys(s.push(t)),
{
    assert forall|i: int, j: int| 0 <= i < j < s.push(t).len() implies s.push(t)[i].key()
        != s.push(t)[j].key() by {
        if j < s.len() {
            assert(s.push(t)[i] == s[i] && s.push(t)[j] == s[j]);
        } else {
            assert(s.push(t)[i] == s[i] && s.push(t)[j] == t);
        }
    }
}

/// Replacing a record by another with the same key keeps the keys distinct.
pub proof fn lemma_unique_update<T: Keyed>(s: Seq<T>, n: int, t: T)
    requires
        unique_keys(s),
        0 <= n < s.len(),
        s[n].key() == t.key(),
    ensures
        unique_keys(s.update(n, t)),
{
    assert forall|i: int, j: int| 0 <= i < j < s.update(n, t).len() implies s.update(n, t)[i].key()
        != s.update(n, t)[j].key() by {
        assert(i == n || s.update(n, t)[i] == s[i]);
        assert(j == n || s.update(n, t)[j] == s[j]);
    }
}

/// A record created under a fresh key is found again under that key: looking
/// the key up in the table extended by the record yields exactly the record.
pub proof fn lemma_find_after_create<T: Keyed>(s: Seq<T>, t: T)
    requires
        !has_key(s, t.key()),
    ensures
        spec_find(s.push(t), t.key()) == Some(t),
{
    let p = s.push(t);
    let k = t.key();
    lemma_key_at(p, k);
    assert(p[s.len() as int].key() == k);
    assert(has_key(p, k));
    let n = key_at(p, k);
    if n < s.len() {
        assert(p[n] == s[n]);
        assert(has_key(s, k));
    }
    assert(n == s.len());
}

/// In a table with distinct keys and at most `u32::MAX` records, some key no
/// larger than the number of records is still free.
pub proof fn lemma_fresh_key_exists<T: Keyed>(s: Seq<T>)
    requires
        unique_keys(s),
        s.len() <= u32::MAX,
    ensures
        exists|k: u32| k <= s.len() && !has_key(s, k),
    decreases s.len(),
{
    let m: u32 = s.len() as u32;
    if !has_key(s, m) {
        assert(m <= s.len() && !has_key(s, m));
    } else {
        let i = choose|i: int| 0 <= i < s.len() && s[i].key() == m;
        let s2 = s.remove(i);
        assert forall|a: int, b: int| 0 <= a < b < s2.len() implies s2[a].key() != s2[b].key() by {
            if a < i {
                assert(s2[a] == s[a]);
            } else {
                assert(s2[a] == s[a + 1]);
            }
            if b < i {
                assert(s2[b] == s[b]);
            } else {
                assert(s2[b] == s[b + 1]);
            }
        }
        lemma_fresh_key_exists(s2);
        let k = choose|k: u32| k <= s2.len() && !has_key(s2, k);
        assert(!has_key(s, k)) by {
            if has_key(s, k) {
                let j = choose|j: int| 0 <= j < s.len() && s[j].key() == k;
                if j < i {
                    assert(s2[j] == s[j]);
                    assert(has_key(s2, k));
                } else {
                    assert(s2[j - 1] == s[j]);
                    assert(has_key(s2, k));
                }
            }
        }
        assert(k <= s.len() && !has_key(s, k));
    }
}

/// How many random draws are tried for a fresh key before falling back to an
/// ascending scan of the key space.
pub const FRESH_KEY_DRAWS: u32 = 8;

/// Relies on rand::random: draws a random `u32`; nothing is assumed of which
/// value comes back.
#[verifier::external_body]
fn random_u32() -> u32 {
    rand::random()
}

/// The index of the first record of `rows` with key `k`, or `None` if the key
/// is not taken.
pub fn key_index<T: Keyed>(rows: &Vec<T>, k: u32) -> (r: Option<usize>)
    ensures
        (match r {
            Some(i) => i < rows@.len() && rows@[i as int].key() == k && key_at(rows@, k) == i
                && spec_find(rows@, k) == Some(rows@[i as int]),
            None => !has_key(rows@, k) && spec_find(rows@, k) is None,
        }),
{
    let mut i: usize = 0;
    while i < rows.len()
        invariant
            0 <= i <= rows@.len(),
            forall|j: int| 0 <= j < i ==> rows@[j].key() != k,
        decreases rows@.len() - i,
    {
        if rows[i].key_of() == k {
            proof {
                lemma_key_at(rows@, k);
            }
            return Some(i);
        }
        i = i + 1;
    }
    proof {
        lemma_key_at(rows@, k);
    }
    None
}

/// A key not taken by any record of `rows`: a few random draws are tried, and
/// if every draw collides, the smallest free key is taken instead. The bound
/// on the length is what makes a free key certain to exist.
pub fn fresh_key<T: Keyed>(rows: &Vec<T>) -> (k: u32)
    requires
        unique_keys(rows@),
        rows@.len() <= u32::MAX,
    ensures
        !has_key(rows@, k),
{
    let mut draws: u32 = 0;
    while draws < FRESH_KEY_DRAWS
        invariant
            draws <= FRESH_KEY_DRAWS,
        decreases FRESH_KEY_DRAWS - draws,
    {
        let cand = random_u32();
        if key_index(rows, cand).is_none() {
            return cand;
        }
        draws = draws + 1;
    }
    let mut cand: u32 = 0;
    loop
        invariant
            unique_keys(rows@),
            rows@.len() <= u32::MAX,
            cand <= rows@.len(),
            forall|j: u32| j < cand ==> has_key(rows@, j),
        ensures
            !has_key(rows@, cand),
        decreases rows@.len() - cand,
    {
        match key_index(rows, cand) {
            None => {
                break;
            },
            Some(i) => {
                proof {
                    assert(rows@[i as int].key() == cand);
                    assert(has_key(rows@, cand));
                    lemma_fresh_key_exists(rows@);
                    let free = choose|k: u32| k <= rows@.len() && !has_key(rows@, k);
                    assert(free >= cand + 1);
                }
                cand = cand + 1;
            },
        }
    }
    cand
}

} // verus!
