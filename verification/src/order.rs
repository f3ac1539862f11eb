//! Values put in order, each once: the keys of a table.
use vstd::prelude::*;

verus! {

/// The texts of a sequence, as characters.
pub open spec fn texts(names: Seq<String>) -> Seq<Seq<char>> {
    Seq::new(names.len(), |i: int| names[i]@)
}

/// Whether one text comes before another as texts are sorted: at the first
/// place where they differ the one has the lesser character, or the one ends
/// where the other goes on.
pub open spec fn text_lt(a: Seq<char>, b: Seq<char>) -> bool
    decreases a.len(),
{
    if b.len() == 0 {
        false
    } else if a.len() == 0 {
        true
    } else if a[0] != b[0] {
        (a[0] as u32) < (b[0] as u32)
    } else {
        text_lt(a.drop_first(), b.drop_first())
    }
}

/// Whether one text comes before another or is the same.
pub open spec fn text_le(a: Seq<char>, b: Seq<char>) -> bool {
    a == b || text_lt(a, b)
}

/// Of two texts that are not the same, not each comes before the other.
pub proof fn lemma_text_order(a: Seq<char>, b: Seq<char>)
    ensures
        !(text_lt(a, b) && text_lt(b, a)),
        !text_lt(a, a),
    decreases a.len(),
{
    if a.len() > 0 && b.len() > 0 && a[0] == b[0] {
        lemma_text_order(a.drop_first(), b.drop_first());
    }
    if a.len() > 0 {
        lemma_text_order(a.drop_first(), a.drop_first());
    }
}

/// Whether the texts ascend, none twice.
pub open spec fn texts_ascend(s: Seq<Seq<char>>) -> bool {
    forall|i: int, j: int| 0 <= i < j < s.len() ==> text_lt(#[trigger] s[i], #[trigger] s[j])
}

/// Whether the numbers ascend, none twice.
pub open spec fn numbers_ascend(s: Seq<i32>) -> bool {
    forall|i: int, j: int| 0 <= i < j < s.len() ==> #[trigger] s[i] < #[trigger] s[j]
}

/// Whether two sequences hold the same values, however often and in whatever
/// order.
pub open spec fn same_values<T>(a: Seq<T>, b: Seq<T>) -> bool {
    forall|x: T| a.contains(x) <==> b.contains(x)
}

/// Whether a text is among the texts of a list.
pub fn contains_text(list: &Vec<String>, text: &String) -> (r: bool)
    ensures
        r == texts(list@).contains(text@),
{
    let mut i: usize = 0;
    while i < list.len()
        invariant
            i <= list.len(),
            forall|k: int| 0 <= k < i ==> list@[k]@ != text@,
        decreases list.len() - i,
    {
        if list[i] == *text {
            assert(texts(list@)[i as int] == text@);
            return true;
        }
        i = i + 1;
    }
    false
}

/// Calls `sort` on a vector of texts: the same texts, each as often as
/// before, in ascending order.
#[verifier::external_body]
fn sort_texts(v: Vec<String>) -> (r: Vec<String>)
    ensures
        texts(r@).to_multiset() == texts(v@).to_multiset(),
        forall|i: int, j: int|
            0 <= i < j < r@.len() ==> text_le(#[trigger] r@[i]@, #[trigger] r@[j]@),
{
    let mut v = v;
    v.sort();
    v
}

/// Calls `sort` on a vector of numbers: the same numbers, each as often as
/// before, in ascending order.
#[verifier::external_body]
fn sort_numbers(v: Vec<i32>) -> (r: Vec<i32>)
    ensures
        r@.to_multiset() == v@.to_multiset(),
        forall|i: int, j: int| 0 <= i < j < r@.len() ==> #[trigger] r@[i] <= #[trigger] r@[j],
{
    let mut v = v;
    v.sort();
    v
}

/// Sequences with the same values as often hold the same values.
pub proof fn lemma_same_values<T>(a: Seq<T>, b: Seq<T>)
    requires
        a.to_multiset() == b.to_multiset(),
    ensures
        same_values(a, b),
        a.len() == b.len(),
{
    a.to_multiset_ensures();
    b.to_multiset_ensures();
    assert forall|x: T| a.contains(x) <==> b.contains(x) by {
        assert(a.contains(x) <==> a.to_multiset().count(x) > 0);
        assert(b.contains(x) <==> b.to_multiset().count(x) > 0);
    }
}

/// There is one way only to put values in ascending order, each once: two
/// sequences of texts that ascend and hold the same texts are the same.
pub proof fn lemma_ascending_texts_are_one(a: Seq<Seq<char>>, b: Seq<Seq<char>>)
    requires
        texts_ascend(a),
        texts_ascend(b),
        same_values(a, b),
    ensures
        a == b,
    decreases a.len(),
{
    if a.len() == 0 {
        if b.len() > 0 {
            assert(b.contains(b[0]));
            assert(a.contains(b[0]));
        }
        assert(a =~= b);
    } else {
        assert(a.contains(a[0]));
        assert(b.contains(a[0]));
        let k = choose|k: int| 0 <= k < b.len() && b[k] == a[0];
        assert(b.contains(b[0]));
        assert(a.contains(b[0]));
        let m = choose|m: int| 0 <= m < a.len() && a[m] == b[0];
        if k > 0 {
            assert(text_lt(b[0], b[k]));
            if m > 0 {
                assert(text_lt(a[0], a[m]));
            }
            lemma_text_order(a[0], b[0]);
            assert(false);
        }
        let ra = a.drop_first();
        let rb = b.drop_first();
        assert forall|i: int, j: int| 0 <= i < j < ra.len() implies text_lt(
            #[trigger] ra[i],
            #[trigger] ra[j],
        ) by {
            assert(text_lt(a[i + 1], a[j + 1]));
        }
        assert forall|i: int, j: int| 0 <= i < j < rb.len() implies text_lt(
            #[trigger] rb[i],
            #[trigger] rb[j],
        ) by {
            assert(text_lt(b[i + 1], b[j + 1]));
        }
        assert forall|x: Seq<char>| ra.contains(x) <==> rb.contains(x) by {
            if ra.contains(x) {
                let i = choose|i: int| 0 <= i < ra.len() && ra[i] == x;
                assert(a[i + 1] == x);
                assert(a.contains(x));
                assert(b.contains(x));
                let j = choose|j: int| 0 <= j < b.len() && b[j] == x;
                if j == 0 {
                    assert(text_lt(a[0], a[i + 1]));
                    lemma_text_order(a[0], a[0]);
                    assert(false);
                }
                assert(rb[j - 1] == x);
            }
            if rb.contains(x) {
                let j = choose|j: int| 0 <= j < rb.len() && rb[j] == x;
                assert(b[j + 1] == x);
                assert(b.contains(x));
                assert(a.contains(x));
                let i = choose|i: int| 0 <= i < a.len() && a[i] == x;
                if i == 0 {
                    assert(text_lt(b[0], b[j + 1]));
                    lemma_text_order(b[0], b[0]);
                    assert(false);
                }
                assert(ra[i - 1] == x);
            }
        }
        lemma_ascending_texts_are_one(ra, rb);
        assert(a =~= seq![a[0]] + ra);
        assert(b =~= seq![b[0]] + rb);
    }
}

/// There is one way only to put numbers in ascending order, each once.
pub proof fn lemma_ascending_numbers_are_one(a: Seq<i32>, b: Seq<i32>)
    requires
        numbers_ascend(a),
        numbers_ascend(b),
        same_values(a, b),
    ensures
        a == b,
    decreases a.len(),
{
    if a.len() == 0 {
        if b.len() > 0 {
            assert(b.contains(b[0]));
            assert(a.contains(b[0]));
        }
        assert(a =~= b);
    } else {
        assert(a.contains(a[0]));
        assert(b.contains(a[0]));
        let k = choose|k: int| 0 <= k < b.len() && b[k] == a[0];
        assert(b.contains(b[0]));
        assert(a.contains(b[0]));
        let m = choose|m: int| 0 <= m < a.len() && a[m] == b[0];
        if k > 0 {
            assert(b[0] < b[k]);
            if m > 0 {
                assert(a[0] < a[m]);
            }
            assert(false);
        }
        let ra = a.drop_first();
        let rb = b.drop_first();
        assert forall|i: int, j: int| 0 <= i < j < ra.len() implies #[trigger] ra[i]
            < #[trigger] ra[j] by {
            assert(a[i + 1] < a[j + 1]);
        }
        assert forall|i: int, j: int| 0 <= i < j < rb.len() implies #[trigger] rb[i]
            < #[trigger] rb[j] by {
            assert(b[i + 1] < b[j + 1]);
        }
        assert forall|x: i32| ra.contains(x) <==> rb.contains(x) by {
            if ra.contains(x) {
                let i = choose|i: int| 0 <= i < ra.len() && ra[i] == x;
                assert(a[i + 1] == x);
                assert(a.contains(x));
                assert(b.contains(x));
                let j = choose|j: int| 0 <= j < b.len() && b[j] == x;
                if j == 0 {
                    assert(a[0] < a[i + 1]);
                    assert(false);
                }
                assert(rb[j - 1] == x);
            }
            if rb.contains(x) {
                let j = choose|j: int| 0 <= j < rb.len() && rb[j] == x;
                assert(b[j + 1] == x);
                assert(b.contains(x));
                assert(a.contains(x));
                let i = choose|i: int| 0 <= i < a.len() && a[i] == x;
                if i == 0 {
                    assert(b[0] < b[j + 1]);
                    assert(false);
                }
                assert(ra[i - 1] == x);
            }
        }
        lemma_ascending_numbers_are_one(ra, rb);
        assert(a =~= seq![a[0]] + ra);
        assert(b =~= seq![b[0]] + rb);
    }
}

/// The texts in ascending order, each once.
pub fn sorted_texts(v: Vec<String>) -> (r: Vec<String>)
    ensures
        texts_ascend(texts(r@)),
        same_values(texts(r@), texts(v@)),
{
    let sorted = sort_texts(v);
    proof {
        lemma_same_values(texts(sorted@), texts(v@));
    }
    let mut out: Vec<String> = Vec::new();
    let mut i: usize = 0;
    while i < sorted.len()
        invariant
            i <= sorted.len(),
            forall|p: int, q: int|
                0 <= p < q < sorted@.len() ==> text_le(
                    #[trigger] sorted@[p]@,
                    #[trigger] sorted@[q]@,
                ),
            texts_ascend(texts(out@)),
            forall|k: int|
                0 <= k < out@.len() ==> exists|p: int|
                    0 <= p < i && sorted@[p]@ == #[trigger] out@[k]@,
            forall|p: int| 0 <= p < i ==> texts(out@).contains(#[trigger] sorted@[p]@),
            i > 0 ==> out@.len() > 0 && out@.last()@ == sorted@[i - 1]@,
        decreases sorted.len() - i,
    {
        let ghost before = out@;
        let fresh = out.len() == 0 || out[out.len() - 1] != sorted[i];
        if fresh {
            out.push(sorted[i].clone());
            assert forall|a: int, b: int| 0 <= a < b < out@.len() implies text_lt(
                #[trigger] texts(out@)[a],
                #[trigger] texts(out@)[b],
            ) by {
                if b < before.len() {
                    assert(texts(before)[a] == texts(out@)[a]);
                    assert(texts(before)[b] == texts(out@)[b]);
                } else {
                    let p = choose|p: int| 0 <= p < i && sorted@[p]@ == before[a]@;
                    assert(text_le(sorted@[p]@, sorted@[i as int]@));
                    if sorted@[p]@ == sorted@[i as int]@ {
                        if p < i - 1 {
                            assert(text_le(sorted@[p]@, sorted@[i - 1]@));
                            assert(text_le(sorted@[i - 1]@, sorted@[i as int]@));
                            lemma_text_order(sorted@[p]@, sorted@[i - 1]@);
                        }
                        assert(false);
                    }
                }
            }
            assert forall|p: int| 0 <= p < i + 1 implies texts(out@).contains(
                #[trigger] sorted@[p]@,
            ) by {
                if p < i {
                    let k = choose|k: int|
                        0 <= k < texts(before).len() && texts(before)[k] == sorted@[p]@;
                    assert(texts(out@)[k] == sorted@[p]@);
                } else {
                    assert(texts(out@)[out@.len() - 1] == sorted@[p]@);
                }
            }
        } else {
            assert forall|p: int| 0 <= p < i + 1 implies texts(out@).contains(
                #[trigger] sorted@[p]@,
            ) by {
                if p == i {
                    assert(texts(out@)[out@.len() - 1] == sorted@[p]@);
                }
            }
        }
        i = i + 1;
    }
    proof {
        assert forall|x: Seq<char>| texts(out@).contains(x) <==> texts(sorted@).contains(x) by {
            if texts(out@).contains(x) {
                let k = choose|k: int| 0 <= k < texts(out@).len() && texts(out@)[k] == x;
                let p = choose|p: int| 0 <= p < i && sorted@[p]@ == out@[k]@;
                assert(texts(sorted@)[p] == x);
            }
            if texts(sorted@).contains(x) {
                let p = choose|p: int| 0 <= p < texts(sorted@).len() && texts(sorted@)[p] == x;
                assert(texts(out@).contains(sorted@[p]@));
            }
        }
    }
    out
}

/// The numbers in ascending order, each once.
pub fn sorted_numbers(v: Vec<i32>) -> (r: Vec<i32>)
    ensures
        numbers_ascend(r@),
        same_values(r@, v@),
{
    let sorted = sort_numbers(v);
    proof {
        lemma_same_values(sorted@, v@);
    }
    let mut out: Vec<i32> = Vec::new();
    let mut i: usize = 0;
    while i < sorted.len()
        invariant
            i <= sorted.len(),
            forall|p: int, q: int|
                0 <= p < q < sorted@.len() ==> #[trigger] sorted@[p] <= #[trigger] sorted@[q],
            numbers_ascend(out@),
            forall|k: int|
                0 <= k < out@.len() ==> exists|p: int| 0 <= p < i && sorted@[p] == #[trigger] out@[k],
            forall|p: int| 0 <= p < i ==> out@.contains(#[trigger] sorted@[p]),
            i > 0 ==> out@.len() > 0 && out@.last() == sorted@[i - 1],
        decreases sorted.len() - i,
    {
        let ghost before = out@;
        let fresh = out.len() == 0 || out[out.len() - 1] != sorted[i];
        if fresh {
            out.push(sorted[i]);
            assert forall|a: int, b: int| 0 <= a < b < out@.len() implies #[trigger] out@[a]
                < #[trigger] out@[b] by {
                if b < before.len() {
                    assert(before[a] == out@[a]);
                    assert(before[b] == out@[b]);
                } else {
                    let p = choose|p: int| 0 <= p < i && sorted@[p] == before[a];
                    assert(sorted@[p] <= sorted@[i as int]);
                    if p < i - 1 {
                        assert(sorted@[p] <= sorted@[i - 1]);
                    }
                }
            }
            assert forall|p: int| 0 <= p < i + 1 implies out@.contains(#[trigger] sorted@[p]) by {
                if p < i {
                    let k = choose|k: int| 0 <= k < before.len() && before[k] == sorted@[p];
                    assert(out@[k] == sorted@[p]);
                } else {
                    assert(out@[out@.len() - 1] == sorted@[p]);
                }
            }
        } else {
            assert forall|p: int| 0 <= p < i + 1 implies out@.contains(#[trigger] sorted@[p]) by {
                if p == i {
                    assert(out@[out@.len() - 1] == sorted@[p]);
                }
            }
        }
        i = i + 1;
    }
    proof {
        assert forall|x: i32| out@.contains(x) <==> sorted@.contains(x) by {
            if out@.contains(x) {
                let k = choose|k: int| 0 <= k < out@.len() && out@[k] == x;
                let p = choose|p: int| 0 <= p < i && sorted@[p] == out@[k];
                assert(sorted@[p] == x);
            }
            if sorted@.contains(x) {
                let p = choose|p: int| 0 <= p < sorted@.len() && sorted@[p] == x;
                assert(out@.contains(sorted@[p]));
            }
        }
    }
    out
}

} // verus!
