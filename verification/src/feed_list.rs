//! Searching and editing a server's list of subscribed feeds.
use vstd::prelude::*;
use crate::structs::feed::texts;

verus! {

/// A list with the first occurrence of `x` taken out; the list itself where
/// `x` does not occur.
pub open spec fn without_first(s: Seq<Seq<char>>, x: Seq<char>) -> Seq<Seq<char>>
    decreases s.len(),
{
    if s.len() == 0 {
        s
    } else if s[0] == x {
        s.drop_first()
    } else {
        seq![s[0]] + without_first(s.drop_first(), x)
    }
}

/// Where `i` is the first position of `x`, taking out the first occurrence
/// of `x` takes out position `i`.
pub proof fn lemma_without_first_at(s: Seq<Seq<char>>, x: Seq<char>, i: int)
    requires
        0 <= i < s.len(),
        s[i] == x,
        forall|j: int| 0 <= j < i ==> s[j] != x,
    ensures
        without_first(s, x) == s.remove(i),
    decreases i,
{
    if i == 0 {
        assert(s.drop_first() =~= s.remove(0));
    } else {
        let t = s.drop_first();
        assert forall|j: int| 0 <= j < i - 1 implies t[j] != x by {
            assert(t[j] == s[j + 1]);
        }
        lemma_without_first_at(t, x, i - 1);
        assert(seq![s[0]] + t.remove(i - 1) =~= s.remove(i));
    }
}

/// Taking out an element that does not occur leaves the list as it is.
pub proof fn lemma_without_absent(s: Seq<Seq<char>>, x: Seq<char>)
    requires
        !s.contains(x),
    ensures
        without_first(s, x) == s,
    decreases s.len(),
{
    if s.len() > 0 {
        let t = s.drop_first();
        assert(s[0] != x) by {
            assert(s.contains(s[0]));
        }
        assert forall|y: Seq<char>| t.contains(y) implies s.contains(y) by {
            let k = choose|k: int| 0 <= k < t.len() && t[k] == y;
            assert(s[k + 1] == y);
        }
        lemma_without_absent(t, x);
        assert(seq![s[0]] + t =~= s);
    }
}

/// Taking out an element that was just appended to a list that lacked it
/// gives back the list.
pub proof fn lemma_without_pushed(s: Seq<Seq<char>>, x: Seq<char>)
    requires
        !s.contains(x),
    ensures
        without_first(s.push(x), x) == s,
{
    let t = s.push(x);
    assert forall|j: int| 0 <= j < s.len() implies t[j] != x by {
        assert(t[j] == s[j]);
        assert(s.contains(s[j]));
    }
    lemma_without_first_at(t, x, s.len() as int);
    assert(t.remove(s.len() as int) =~= s);
}

/// Where `x` occurs, taking its first occurrence out removes one position;
/// where it does not, nothing changes. Either way what is left is a part of
/// the list, in order.
pub proof fn lemma_without_first_cases(s: Seq<Seq<char>>, x: Seq<char>)
    ensures
        s.contains(x) ==> exists|i: int| 0 <= i < s.len() && s[i] == x && without_first(s, x) == s.remove(i),
        !s.contains(x) ==> without_first(s, x) == s,
{
    if s.contains(x) {
        let k = choose|k: int| 0 <= k < s.len() && s[k] == x;
        let first = first_position(s, x, k);
        lemma_without_first_at(s, x, first);
    } else {
        lemma_without_absent(s, x);
    }
}

/// The first position of `x`, given one position `k` where it occurs.
proof fn first_position(s: Seq<Seq<char>>, x: Seq<char>, k: int) -> (i: int)
    requires
        0 <= k < s.len(),
        s[k] == x,
    ensures
        0 <= i <= k,
        s[i] == x,
        forall|j: int| 0 <= j < i ==> s[j] != x,
    decreases k,
{
    if exists|j: int| 0 <= j < k && s[j] == x {
        let j = choose|j: int| 0 <= j < k && s[j] == x;
        first_position(s, x, j)
    } else {
        k
    }
}

/// In a list without repeated elements, taking out `x` leaves a list
/// without repeated elements that no longer holds `x`.
pub proof fn lemma_without_first_no_duplicates(s: Seq<Seq<char>>, x: Seq<char>)
    requires
        s.no_duplicates(),
    ensures
        without_first(s, x).no_duplicates(),
        !without_first(s, x).contains(x),
{
    lemma_without_first_cases(s, x);
    if s.contains(x) {
        let i = choose|i: int| 0 <= i < s.len() && s[i] == x && without_first(s, x) == s.remove(i);
        let r = s.remove(i);
        assert forall|a: int, b: int| 0 <= a < r.len() && 0 <= b < r.len() && a != b implies r[a] != r[b] by {
            let a2 = if a < i { a } else { a + 1 };
            let b2 = if b < i { b } else { b + 1 };
            assert(r[a] == s[a2]);
            assert(r[b] == s[b2]);
        }
        assert forall|a: int| 0 <= a < r.len() implies r[a] != x by {
            let a2 = if a < i { a } else { a + 1 };
            assert(r[a] == s[a2]);
        }
    }
}

/// Every element left after taking out `x` was in the list.
pub proof fn lemma_without_first_subset(s: Seq<Seq<char>>, x: Seq<char>)
    ensures
        forall|j: int| 0 <= j < without_first(s, x).len() ==> s.contains(#[trigger] without_first(s, x)[j]),
{
    lemma_without_first_cases(s, x);
    if s.contains(x) {
        let i = choose|i: int| 0 <= i < s.len() && s[i] == x && without_first(s, x) == s.remove(i);
        assert forall|j: int| 0 <= j < without_first(s, x).len() implies s.contains(#[trigger] without_first(s, x)[j]) by {
            let j2 = if j < i { j } else { j + 1 };
            assert(without_first(s, x)[j] == s[j2]);
        }
    } else {
        assert forall|j: int| 0 <= j < without_first(s, x).len() implies s.contains(#[trigger] without_first(s, x)[j]) by {
            assert(without_first(s, x)[j] == s[j]);
        }
    }
}

/// The position of the first occurrence of an address in a list of feeds.
fn position_of(list: &Vec<String>, url: &str) -> (r: Option<usize>)
    ensures
        match r {
            Some(i) => i < list.len() && list@[i as int]@ == url@
                && forall|j: int| 0 <= j < i ==> list@[j]@ != url@,
            None => forall|j: int| 0 <= j < list.len() ==> list@[j]@ != url@,
        },
{
    let target = String::from_str(url);
    let mut i: usize = 0;
    while i < list.len()
        invariant
            i <= list.len(),
            target@ == url@,
            forall|j: int| 0 <= j < i ==> list@[j]@ != url@,
        decreases list.len() - i,
    {
        if list[i] == target {
            return Some(i);
        }
        i = i + 1;
    }
    None
}

/// Whether a list of feeds holds an address.
pub fn contains_feed(list: &Vec<String>, url: &str) -> (r: bool)
    ensures
        r == texts(list@).contains(url@),
{
    match position_of(list, url) {
        Some(i) => {
            assert(texts(list@)[i as int] == url@);
            true
        },
        None => {
            assert forall|j: int| 0 <= j < texts(list@).len() implies texts(list@)[j] != url@ by {
                assert(texts(list@)[j] == list@[j]@);
            }
            false
        },
    }
}

/// Takes the first occurrence of an address out of a list of feeds.
pub fn remove_feed(list: &mut Vec<String>, url: &str)
    ensures
        texts(final(list)@) == without_first(texts(old(list)@), url@),
{
    let ghost before = texts(list@);
    match position_of(list, url) {
        Some(i) => {
            list.remove(i);
            proof {
                assert forall|j: int| 0 <= j < i implies before[j] != url@ by {
                    assert(before[j] == old(list)@[j]@);
                }
                lemma_without_first_at(before, url@, i as int);
                assert(texts(list@) =~= before.remove(i as int));
            }
        },
        None => {
            proof {
                assert forall|y: Seq<char>| before.contains(y) implies y != url@ by {
                    let k = choose|k: int| 0 <= k < before.len() && before[k] == y;
                    assert(before[k] == list@[k]@);
                }
                lemma_without_absent(before, url@);
            }
        },
    }
}

/// Appends an address to a list of feeds.
pub fn push_feed(list: &mut Vec<String>, url: &str)
    ensures
        texts(final(list)@) == texts(old(list)@).push(url@),
{
    list.push(String::from_str(url));
    assert(texts(list@) =~= texts(old(list)@).push(url@));
}

} // verus!
