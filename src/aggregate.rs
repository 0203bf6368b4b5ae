use vstd::prelude::*;
use crate::tokens::{content_tokens, content_view, Tokenizer};

verus! {

broadcast use vstd::seq_lib::group_to_multiset_ensures;

/// Sum of a sequence of per-file token counts.
pub open spec fn count_sum(counts: Seq<usize>) -> nat
    decreases counts.len(),
{
    if counts.len() == 0 {
        0
    } else {
        count_sum(counts.drop_last()) + counts.last() as nat
    }
}

/// The views of a sequence of file contents.
pub open spec fn contents_view(contents: Seq<Option<Vec<u8>>>) -> Seq<Option<Seq<u8>>> {
    contents.map_values(|c: Option<Vec<u8>>| content_view(c))
}

/// The sum of `f` over the elements of `s`.
pub open spec fn sum_of<A>(s: Seq<A>, f: spec_fn(A) -> nat) -> nat
    decreases s.len(),
{
    if s.len() == 0 {
        0
    } else {
        sum_of(s.drop_last(), f) + f(s.last())
    }
}

/// Total of a run: the sum of the token counts of every file's content.
pub open spec fn total_spec(contents: Seq<Option<Seq<u8>>>) -> nat {
    sum_of(contents, |c: Option<Seq<u8>>| content_tokens(c))
}

proof fn lemma_count_sum_prefix(counts: Seq<usize>, i: int)
    requires
        0 <= i <= counts.len(),
    ensures
        count_sum(counts.subrange(0, i)) <= count_sum(counts),
    decreases counts.len() - i,
{
    if i < counts.len() {
        lemma_count_sum_prefix(counts, i + 1);
        assert(counts.subrange(0, i + 1).drop_last() =~= counts.subrange(0, i));
    } else {
        assert(counts.subrange(0, i) =~= counts);
    }
}

/// Adds up per-file token counts; `None` when the sum does not fit in a `usize`.
pub fn sum_counts(counts: &Vec<usize>) -> (r: Option<usize>)
    ensures
        match r {
            Some(total) => total == count_sum(counts@),
            None => count_sum(counts@) > usize::MAX,
        },
{
    let mut total: usize = 0;
    let mut i: usize = 0;
    while i < counts.len()
        invariant
            i <= counts@.len(),
            total == count_sum(counts@.subrange(0, i as int)),
        decreases counts.len() - i,
    {
        assert(counts@.subrange(0, i + 1).drop_last() =~= counts@.subrange(0, i as int));
        match total.checked_add(counts[i]) {
            Some(t) => {
                total = t;
            },
            None => {
                proof {
                    lemma_count_sum_prefix(counts@, i + 1);
                }
                return None;
            },
        }
        i = i + 1;
    }
    assert(counts@.subrange(0, i as int) =~= counts@);
    Some(total)
}

proof fn lemma_counts_total(counts: Seq<usize>, contents: Seq<Option<Seq<u8>>>)
    requires
        counts.len() == contents.len(),
        forall|j: int| 0 <= j < counts.len() ==> counts[j] == content_tokens(#[trigger] contents[j]),
    ensures
        count_sum(counts) == total_spec(contents),
    decreases counts.len(),
{
    if counts.len() > 0 {
        lemma_counts_total(counts.drop_last(), contents.drop_last());
    }
}

/// Total token count of the selected files' contents (`None` for a file
/// that could not be read; a file that is not UTF-8 is skipped too).
/// `None` when the total does not fit in a `usize`.
pub fn total_tokens(tokenizer: &Tokenizer, contents: &Vec<Option<Vec<u8>>>) -> (r: Option<
    usize,
>)
    ensures
        match r {
            Some(total) => total == total_spec(contents_view(contents@)),
            None => total_spec(contents_view(contents@)) > usize::MAX,
        },
{
    let ghost cs = contents_view(contents@);
    let mut counts: Vec<usize> = Vec::new();
    let mut i: usize = 0;
    while i < contents.len()
        invariant
            i <= contents@.len(),
            cs == contents_view(contents@),
            counts@.len() == i,
            forall|j: int| 0 <= j < i ==> counts@[j] == content_tokens(#[trigger] cs[j]),
        decreases contents.len() - i,
    {
        let k = tokenizer.count_content(&contents[i]);
        counts.push(k);
        i = i + 1;
    }
    proof {
        lemma_counts_total(counts@, cs);
    }
    sum_counts(&counts)
}

proof fn lemma_sum_remove<A>(s: Seq<A>, f: spec_fn(A) -> nat, i: int)
    requires
        0 <= i < s.len(),
    ensures
        sum_of(s, f) == sum_of(s.remove(i), f) + f(s[i]),
    decreases s.len(),
{
    if i < s.len() - 1 {
        lemma_sum_remove(s.drop_last(), f, i);
        assert(s.remove(i).drop_last() =~= s.drop_last().remove(i));
        assert(s.remove(i).last() == s.last());
    } else {
        assert(s.remove(i) =~= s.drop_last());
    }
}

/// A sum does not depend on the order of what is summed: two sequences that
/// are permutations of each other have the same sum.
pub proof fn lemma_sum_permutation<A>(a: Seq<A>, b: Seq<A>, f: spec_fn(A) -> nat)
    requires
        a.to_multiset() =~= b.to_multiset(),
    ensures
        sum_of(a, f) == sum_of(b, f),
    decreases a.len(),
{
    if a.len() > 0 {
        let x = a.last();
        assert(a.to_multiset().count(x) > 0);
        assert(b.contains(x));
        let j = choose|j: int| 0 <= j < b.len() && b[j] == x;
        assert(a.remove(a.len() - 1) =~= a.drop_last());
        assert(a.drop_last().to_multiset() =~= b.remove(j).to_multiset());
        lemma_sum_permutation(a.drop_last(), b.remove(j), f);
        lemma_sum_remove(b, f, j);
    } else {
        assert(b.to_multiset().len() == 0);
    }
}

/// The total does not depend on the order in which files are processed:
/// two sequences of contents that are permutations of each other have the
/// same total.
pub proof fn lemma_total_permutation(a: Seq<Option<Seq<u8>>>, b: Seq<Option<Seq<u8>>>)
    requires
        a.to_multiset() =~= b.to_multiset(),
    ensures
        total_spec(a) == total_spec(b),
{
    lemma_sum_permutation(a, b, |c: Option<Seq<u8>>| content_tokens(c));
}

} // verus!
