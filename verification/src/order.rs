//! The order of texts, and sorting by it.

use vstd::prelude::*;

verus! {

/// Whether text `a` comes before text `b`: at the first position where they
/// differ, `a` has the smaller code point, or `a` ends there and `b` does not.
pub open spec fn text_before(a: Seq<char>, b: Seq<char>) -> bool
    decreases a.len(),
{
    if b.len() == 0 {
        false
    } else if a.len() == 0 {
        true
    } else if a[0] != b[0] {
        (a[0] as int) < (b[0] as int)
    } else {
        text_before(a.drop_first(), b.drop_first())
    }
}

/// No text comes before itself, and of two texts at most one comes before the other.
pub proof fn lemma_text_before_asymmetric(a: Seq<char>, b: Seq<char>)
    ensures
        text_before(a, b) ==> !text_before(b, a),
    decreases a.len(),
{
    if a.len() > 0 && b.len() > 0 && a[0] == b[0] {
        lemma_text_before_asymmetric(a.drop_first(), b.drop_first());
    }
}

/// What comes before a text comes before every text that this one comes before.
pub proof fn lemma_text_before_transitive(a: Seq<char>, b: Seq<char>, c: Seq<char>)
    requires
        text_before(a, b),
        text_before(b, c),
    ensures
        text_before(a, c),
    decreases a.len(),
{
    if a.len() > 0 && b.len() > 0 && c.len() > 0 && a[0] == b[0] && b[0] == c[0] {
        lemma_text_before_transitive(a.drop_first(), b.drop_first(), c.drop_first());
    }
}

/// Whether no text of `texts` stands before one that comes after it.
pub open spec fn descending(texts: Seq<Seq<char>>) -> bool {
    forall|i: int, j: int|
        0 <= i < j < texts.len() ==> !text_before(#[trigger] texts[i], #[trigger] texts[j])
}

/// Calls the `<` of `str`, which orders texts by their bytes in UTF-8, and
/// so by their code points.
#[verifier::external_body]
fn str_less(a: &str, b: &str) -> (less: bool)
    ensures
        less == text_before(a@, b@),
{
    a < b
}

/// Putting `x` into a descending sequence, behind every text that does not
/// come before it, leaves the sequence descending.
proof fn lemma_insert_keeps_descending(texts: Seq<Seq<char>>, at: int, x: Seq<char>)
    requires
        descending(texts),
        0 <= at <= texts.len(),
        forall|i: int| 0 <= i < at ==> !text_before(#[trigger] texts[i], x),
        at < texts.len() ==> text_before(texts[at], x),
    ensures
        descending(texts.insert(at, x)),
{
    let after = texts.insert(at, x);
    texts.insert_ensures(at, x);
    assert forall|i: int, j: int| 0 <= i < j < after.len() implies !text_before(
        #[trigger] after[i],
        #[trigger] after[j],
    ) by {
        if j == at {
            assert(after[i] == texts[i]);
        } else if i == at {
            assert(after[j] == texts[j - 1]);
            if text_before(x, texts[j - 1]) {
                lemma_text_before_transitive(texts[at], x, texts[j - 1]);
                lemma_text_before_asymmetric(texts[at], x);
            }
        } else {
            let oi = if i < at {
                i
            } else {
                i - 1
            };
            let oj = if j < at {
                j
            } else {
                j - 1
            };
            assert(after[i] == texts[oi]);
            assert(after[j] == texts[oj]);
        }
    }
}

/// Sorts texts from the last in the order of `str` to the first. Texts that
/// are equal stay in the order in which they came.
pub fn sort_descending(texts: &Vec<String>) -> (sorted: Vec<String>)
    ensures
        descending(sorted.deep_view()),
        sorted.deep_view().to_multiset() == texts.deep_view().to_multiset(),
        sorted.len() == texts.len(),
{
    let mut sorted: Vec<String> = Vec::new();
    let mut i: usize = 0;
    assert(texts.deep_view().take(0) =~= sorted.deep_view());
    while i < texts.len()
        invariant
            i <= texts.len(),
            sorted.len() == i,
            descending(sorted.deep_view()),
            sorted.deep_view().to_multiset() == texts.deep_view().take(i as int).to_multiset(),
        decreases texts.len() - i,
    {
        let x = texts[i].clone();
        let mut at: usize = 0;
        while at < sorted.len() && !str_less(sorted[at].as_str(), x.as_str())
            invariant
                at <= sorted.len(),
                forall|k: int| 0 <= k < at ==> !text_before(#[trigger] sorted.deep_view()[k], x@),
            decreases sorted.len() - at,
        {
            at += 1;
        }
        let ghost before = sorted.deep_view();
        let ghost taken = texts.deep_view().take(i as int);
        sorted.insert(at, x);
        proof {
            assert(sorted.deep_view() =~= before.insert(at as int, x@));
            lemma_insert_keeps_descending(before, at as int, x@);
            vstd::seq_lib::to_multiset_insert(before, at as int, x@);
            assert(texts.deep_view().take(i + 1) =~= taken.push(x@));
            vstd::seq_lib::to_multiset_build(taken, x@);
        }
        i += 1;
    }
    assert(texts.deep_view().take(texts.len() as int) =~= texts.deep_view());
    sorted
}

} // verus!
