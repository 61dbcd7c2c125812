use vstd::prelude::*;
use vstd::slice::slice_subrange;

verus! {

/// `needle` stands in `haystack` at offset `i`.
pub open spec fn occurs_at(haystack: Seq<u8>, needle: Seq<u8>, i: int) -> bool {
    &&& 0 <= i
    &&& i + needle.len() <= haystack.len()
    &&& forall|k: int| 0 <= k < needle.len() ==> haystack[i + k] == needle[k]
}

/// `needle` occurs contiguously somewhere in `haystack`.
pub open spec fn contains_contiguous(haystack: Seq<u8>, needle: Seq<u8>) -> bool {
    exists|i: int| occurs_at(haystack, needle, i)
}

/// `idx` picks, in strictly increasing order, positions of `haystack` whose
/// bytes spell `needle`.
pub open spec fn is_embedding(needle: Seq<u8>, haystack: Seq<u8>, idx: Seq<int>) -> bool {
    &&& idx.len() == needle.len()
    &&& forall|k: int| 0 <= k < idx.len() ==> 0 <= #[trigger] idx[k] < haystack.len()
    &&& forall|k: int| 0 <= k < idx.len() ==> haystack[#[trigger] idx[k]] == needle[k]
    &&& forall|j: int, k: int| 0 <= j < k < idx.len() ==> #[trigger] idx[j] < #[trigger] idx[k]
}

/// The bytes of `needle` appear in `haystack` in order, not necessarily
/// next to each other.
pub open spec fn is_subsequence(needle: Seq<u8>, haystack: Seq<u8>) -> bool {
    exists|idx: Seq<int>| is_embedding(needle, haystack, idx)
}

/// `b` without its longest prefix made of cutset bytes.
pub open spec fn trimmed_left(b: Seq<u8>, cutset: Seq<u8>) -> Seq<u8>
    decreases b.len(),
{
    if b.len() > 0 && cutset.contains(b[0]) {
        trimmed_left(b.drop_first(), cutset)
    } else {
        b
    }
}

/// `b` without its longest suffix made of cutset bytes.
pub open spec fn trimmed_right(b: Seq<u8>, cutset: Seq<u8>) -> Seq<u8>
    decreases b.len(),
{
    if b.len() > 0 && cutset.contains(b.last()) {
        trimmed_right(b.drop_last(), cutset)
    } else {
        b
    }
}

/// `b` trimmed on both sides.
pub open spec fn trimmed(b: Seq<u8>, cutset: Seq<u8>) -> Seq<u8> {
    trimmed_left(trimmed_right(b, cutset), cutset)
}

/// Every byte of `b` is in the cutset.
pub open spec fn all_in_cutset(b: Seq<u8>, cutset: Seq<u8>) -> bool {
    forall|i: int| 0 <= i < b.len() ==> cutset.contains(#[trigger] b[i])
}

/// Whether `haystack` holds `needle` at offset `at`.
fn matches_at(haystack: &[u8], needle: &[u8], at: usize) -> (r: bool)
    requires
        at + needle@.len() <= haystack@.len(),
    ensures
        r == occurs_at(haystack@, needle@, at as int),
{
    let size: usize = haystack.len();
    let mut k: usize = 0;
    while k < needle.len()
        invariant
            k <= needle@.len(),
            at + needle@.len() <= haystack@.len(),
            haystack@.len() == size,
            forall|j: int| 0 <= j < k ==> haystack@[at + j] == needle@[j],
        decreases needle@.len() - k,
    {
        if haystack[at + k] != needle[k] {
            return false;
        }
        k += 1;
    }
    true
}

/// Determines if `needle` occurs contiguously in `haystack`. An empty
/// needle occurs in every haystack.
pub fn is_sub(haystack: &[u8], needle: &[u8]) -> (r: bool)
    ensures
        r == contains_contiguous(haystack@, needle@),
{
    if needle.len() == 0 {
        assert(occurs_at(haystack@, needle@, 0));
        return true;
    }
    if haystack.len() < needle.len() {
        return false;
    }
    let last: usize = haystack.len() - needle.len();
    let mut i: usize = 0;
    while i <= last
        invariant
            last == haystack@.len() - needle@.len(),
            last < usize::MAX,
            i <= last + 1,
            forall|j: int| 0 <= j < i ==> !occurs_at(haystack@, needle@, j),
        decreases last + 1 - i,
    {
        if matches_at(haystack, needle, i) {
            return true;
        }
        i += 1;
    }
    false
}

/// Looks for the first byte of `output` equal to `input_char`. When there
/// is one, returns `true` and what follows it; otherwise `false` and
/// `output` itself.
pub fn roughly_contains_iter_output_for_input_char<'a>(input_char: u8, output: &'a [u8]) -> (r: (
    bool,
    &'a [u8],
))
    ensures
        r.0 == output@.contains(input_char),
        !r.0 ==> r.1@ == output@,
        r.0 ==> {
            let at = output@.len() - r.1@.len() - 1;
            &&& 0 <= at < output@.len()
            &&& output@[at] == input_char
            &&& r.1@ == output@.skip(at + 1)
            &&& forall|j: int| 0 <= j < at ==> output@[j] != input_char
        },
{
    let mut idx: usize = 0;
    while idx < output.len()
        invariant
            idx <= output@.len(),
            forall|j: int| 0 <= j < idx ==> output@[j] != input_char,
        decreases output@.len() - idx,
    {
        if output[idx] == input_char {
            let rest = slice_subrange(output, idx + 1, output.len());
            return (true, rest);
        }
        idx += 1;
    }
    (false, output)
}

/// A contiguous occurrence is in particular an in-order one.
pub proof fn lemma_contiguous_is_subsequence(needle: Seq<u8>, haystack: Seq<u8>)
    requires
        contains_contiguous(haystack, needle),
    ensures
        is_subsequence(needle, haystack),
{
    let i = choose|i: int| occurs_at(haystack, needle, i);
    let idx = Seq::new(needle.len(), |k: int| i + k);
    assert(is_embedding(needle, haystack, idx));
}

/// The `k`-th position of an embedding is at least `k`.
proof fn lemma_embedding_index_lower_bound(
    needle: Seq<u8>,
    haystack: Seq<u8>,
    idx: Seq<int>,
    k: int,
)
    requires
        is_embedding(needle, haystack, idx),
        0 <= k < idx.len(),
    ensures
        idx[k] >= k,
    decreases k,
{
    if k > 0 {
        lemma_embedding_index_lower_bound(needle, haystack, idx, k - 1);
        assert(idx[k - 1] < idx[k]);
    }
}

/// A needle longer than the haystack cannot be embedded in it.
pub proof fn lemma_subsequence_is_not_longer(needle: Seq<u8>, haystack: Seq<u8>)
    requires
        is_subsequence(needle, haystack),
    ensures
        needle.len() <= haystack.len(),
{
    let idx = choose|idx: Seq<int>| is_embedding(needle, haystack, idx);
    if needle.len() > 0 {
        let k = needle.len() - 1;
        lemma_embedding_index_lower_bound(needle, haystack, idx, k);
        assert(idx[k] < haystack.len());
    }
}

/// Returns true if all bytes of `input` show up, in order, in `output`.
pub fn roughly_contains(input: &[u8], output: &[u8]) -> (r: bool)
    ensures
        r == is_subsequence(input@, output@),
{
    if is_sub(output, input) {
        proof {
            lemma_contiguous_is_subsequence(input@, output@);
        }
        return true;
    }
    if output.len() < input.len() {
        proof {
            if is_subsequence(input@, output@) {
                lemma_subsequence_is_not_longer(input@, output@);
            }
        }
        return false;
    }
    let mut iter_output = output;
    let ghost mut pos: int = 0;
    let ghost mut greedy: Seq<int> = Seq::empty();
    let mut k: usize = 0;
    while k < input.len()
        invariant
            k <= input@.len(),
            0 <= pos <= output@.len(),
            iter_output@ == output@.skip(pos),
            is_embedding(input@.take(k as int), output@.take(pos), greedy),
            forall|e: Seq<int>| #[trigger]
                is_embedding(input@, output@, e) && k < input@.len() ==> e[k as int] >= pos,
        decreases input@.len() - k,
    {
        let (found, new_output) = roughly_contains_iter_output_for_input_char(
            input[k],
            iter_output,
        );
        if !found {
            proof {
                assert forall|e: Seq<int>| !is_embedding(input@, output@, e) by {
                    if is_embedding(input@, output@, e) {
                        let at = e[k as int];
                        assert(at >= pos);
                        assert(output@[at] == input@[k as int]);
                        assert(iter_output@[at - pos] == output@[at]);
                    }
                }
            }
            return false;
        }
        proof {
            let at = iter_output@.len() - new_output@.len() - 1;
            let hit = pos + at;
            assert(iter_output@[at] == output@[hit]);
            let next = greedy.push(hit);
            assert(is_embedding(input@.take(k + 1), output@.take(hit + 1), next)) by {
                assert forall|j: int| 0 <= j < next.len() implies 0 <= #[trigger] next[j] < hit
                    + 1 by {
                    if j < k {
                        assert(next[j] == greedy[j]);
                    }
                }
                assert forall|j: int| 0 <= j < next.len() implies output@.take(hit + 1)[#[trigger] next[j]]
                    == input@.take(k + 1)[j] by {
                    if j < k {
                        assert(next[j] == greedy[j]);
                        assert(output@.take(pos)[greedy[j]] == input@.take(k as int)[j]);
                    }
                }
                assert forall|i: int, j: int| 0 <= i < j < next.len() implies #[trigger] next[i]
                    < #[trigger] next[j] by {
                    assert(next[i] == greedy[i]);
                    assert(greedy[i] < pos);
                    if j < k {
                        assert(next[j] == greedy[j]);
                    }
                }
            }
            assert forall|e: Seq<int>| #[trigger]
                is_embedding(input@, output@, e) && k + 1 < input@.len() implies e[k + 1] >= hit
                + 1 by {
                let here = e[k as int];
                assert(here >= pos);
                assert(output@[here] == input@[k as int]);
                assert(iter_output@[here - pos] == output@[here]);
                assert(here - pos >= at);
                assert(e[k as int] < e[k + 1]);
            }
            assert(new_output@ == output@.skip(hit + 1)) by {
                assert(new_output@ =~= output@.skip(hit + 1));
            }
            pos = hit + 1;
            greedy = next;
        }
        iter_output = new_output;
        k += 1;
    }
    proof {
        assert(input@.take(k as int) == input@);
        assert(is_embedding(input@, output@, greedy));
    }
    true
}

/// Whether `b` is one of the bytes of `cutset`.
pub fn char_in_cutset(b: u8, cutset: &[u8]) -> (r: bool)
    ensures
        r == cutset@.contains(b),
{
    let mut i: usize = 0;
    while i < cutset.len()
        invariant
            i <= cutset@.len(),
            forall|j: int| 0 <= j < i ==> cutset@[j] != b,
        decreases cutset@.len() - i,
    {
        if cutset[i] == b {
            return true;
        }
        i += 1;
    }
    false
}

/// Left trimming cuts at the first byte that is not in the cutset.
pub proof fn lemma_trimmed_left_at(b: Seq<u8>, cutset: Seq<u8>, k: int)
    requires
        0 <= k <= b.len(),
        all_in_cutset(b.take(k), cutset),
        k < b.len() ==> !cutset.contains(b[k]),
    ensures
        trimmed_left(b, cutset) == b.skip(k),
    decreases k,
{
    if k == 0 {
        assert(b.skip(0) =~= b);
    } else {
        assert(b.take(k)[0] == b[0]);
        let rest = b.drop_first();
        assert forall|i: int| 0 <= i < k - 1 implies cutset.contains(#[trigger] rest.take(k - 1)[i]) by {
            assert(rest.take(k - 1)[i] == b.take(k)[i + 1]);
        }
        lemma_trimmed_left_at(rest, cutset, k - 1);
        assert(rest.skip(k - 1) =~= b.skip(k));
    }
}

/// Right trimming cuts after the last byte that is not in the cutset.
pub proof fn lemma_trimmed_right_at(b: Seq<u8>, cutset: Seq<u8>, k: int)
    requires
        0 <= k <= b.len(),
        all_in_cutset(b.skip(k), cutset),
        k > 0 ==> !cutset.contains(b[k - 1]),
    ensures
        trimmed_right(b, cutset) == b.take(k),
    decreases b.len() - k,
{
    if k == b.len() {
        assert(b.take(k) =~= b);
    } else {
        assert(b.skip(k)[b.len() - k - 1] == b.last());
        let rest = b.drop_last();
        assert forall|i: int| 0 <= i < rest.len() - k implies cutset.contains(#[trigger] rest.skip(k)[i]) by {
            assert(rest.skip(k)[i] == b.skip(k)[i]);
        }
        lemma_trimmed_right_at(rest, cutset, k);
        assert(rest.take(k) =~= b.take(k));
    }
}

/// The number of leading cutset bytes of `b`: where left trimming cuts.
pub proof fn lemma_trimmed_left_cut(b: Seq<u8>, cutset: Seq<u8>) -> (k: int)
    ensures
        0 <= k <= b.len(),
        all_in_cutset(b.take(k), cutset),
        k < b.len() ==> !cutset.contains(b[k]),
        trimmed_left(b, cutset) == b.skip(k),
    decreases b.len(),
{
    if b.len() > 0 && cutset.contains(b[0]) {
        let rest = b.drop_first();
        let j = lemma_trimmed_left_cut(rest, cutset);
        assert forall|i: int| 0 <= i < j + 1 implies cutset.contains(#[trigger] b.take(j + 1)[i]) by {
            if i > 0 {
                assert(b.take(j + 1)[i] == rest.take(j)[i - 1]);
            }
        }
        assert(rest.skip(j) =~= b.skip(j + 1));
        j + 1
    } else {
        assert(b.skip(0) =~= b);
        0
    }
}

/// The index after the last byte of `b` outside the cutset: where right
/// trimming cuts.
pub proof fn lemma_trimmed_right_cut(b: Seq<u8>, cutset: Seq<u8>) -> (k: int)
    ensures
        0 <= k <= b.len(),
        all_in_cutset(b.skip(k), cutset),
        k > 0 ==> !cutset.contains(b[k - 1]),
        trimmed_right(b, cutset) == b.take(k),
    decreases b.len(),
{
    if b.len() > 0 && cutset.contains(b.last()) {
        let rest = b.drop_last();
        let j = lemma_trimmed_right_cut(rest, cutset);
        assert forall|i: int| 0 <= i < b.len() - j implies cutset.contains(#[trigger] b.skip(j)[i]) by {
            if i < rest.len() - j {
                assert(b.skip(j)[i] == rest.skip(j)[i]);
            }
        }
        assert(rest.take(j) =~= b.take(j));
        j
    } else {
        assert(b.take(b.len() as int) =~= b);
        b.len() as int
    }
}

/// Trimming both sides does not depend on the side trimmed first.
pub proof fn lemma_trim_sides_commute(b: Seq<u8>, cutset: Seq<u8>)
    ensures
        trimmed(b, cutset) == trimmed_left(trimmed_right(b, cutset), cutset),
        trimmed(b, cutset) == trimmed_right(trimmed_left(b, cutset), cutset),
{
    let from = lemma_trimmed_left_cut(b, cutset);
    let to = lemma_trimmed_right_cut(b, cutset);
    if from == b.len() {
        if to > 0 {
            assert(b.take(from)[to - 1] == b[to - 1]);
        }
        assert(b.take(0) =~= Seq::<u8>::empty());
        assert(b.skip(from) =~= Seq::<u8>::empty());
    } else {
        if to <= from {
            assert(b.skip(to)[from - to] == b[from]);
        }
        let right = b.take(to);
        assert forall|i: int| 0 <= i < from implies cutset.contains(#[trigger] right.take(from)[i]) by {
            assert(right.take(from)[i] == b.take(from)[i]);
        }
        lemma_trimmed_left_at(right, cutset, from);
        let left = b.skip(from);
        assert forall|i: int| 0 <= i < left.len() - (to - from) implies cutset.contains(
            #[trigger] left.skip(to - from)[i],
        ) by {
            assert(left.skip(to - from)[i] == b.skip(to)[i]);
        }
        assert(left[to - from - 1] == b[to - 1]);
        lemma_trimmed_right_at(left, cutset, to - from);
        assert(right.skip(from) =~= left.take(to - from));
    }
}

/// A byte slice is what trimming leaves of it, between a run of cutset
/// bytes in front and a run of cutset bytes behind; what is left neither
/// starts nor ends with a cutset byte. The two runs are returned.
pub proof fn lemma_trim_reconstructs(b: Seq<u8>, cutset: Seq<u8>) -> (cut: (Seq<u8>, Seq<u8>))
    ensures
        b == cut.0 + trimmed(b, cutset) + cut.1,
        all_in_cutset(cut.0, cutset),
        all_in_cutset(cut.1, cutset),
        trimmed(b, cutset).len() > 0 ==> !cutset.contains(trimmed(b, cutset).first())
            && !cutset.contains(trimmed(b, cutset).last()),
        trimmed(b, cutset).len() > 0 ==> trimmed_left(b, cutset) == trimmed(b, cutset) + cut.1
            && trimmed_right(b, cutset) == cut.0 + trimmed(b, cutset),
{
    let to = lemma_trimmed_right_cut(b, cutset);
    let right = b.take(to);
    let from = lemma_trimmed_left_cut(right, cutset);
    let middle = right.skip(from);
    assert(b =~= right.take(from) + middle + b.skip(to));
    if middle.len() > 0 {
        assert(middle.first() == right[from]);
        assert(middle.last() == b[to - 1]);
        assert forall|i: int| 0 <= i < from implies cutset.contains(#[trigger] b.take(from)[i]) by {
            assert(b.take(from)[i] == right.take(from)[i]);
        }
        assert(b[from] == right[from]);
        lemma_trimmed_left_at(b, cutset, from);
        assert(b.skip(from) =~= middle + b.skip(to));
        assert(right =~= right.take(from) + middle);
    }
    (right.take(from), b.skip(to))
}

/// Trim all bytes in the cutset from the *left* side of `b`.
pub fn trim_cutset_left<'a>(b: &'a [u8], cutset: &'a [u8]) -> (r: &'a [u8])
    ensures
        r@ == trimmed_left(b@, cutset@),
{
    let mut from: usize = 0;
    while from < b.len()
        invariant
            from <= b@.len(),
            all_in_cutset(b@.take(from as int), cutset@),
        ensures
            from < b@.len() ==> !cutset@.contains(b@[from as int]),
        decreases b@.len() - from,
    {
        if !char_in_cutset(b[from], cutset) {
            break;
        }
        proof {
            assert forall|i: int| 0 <= i < from + 1 implies cutset@.contains(
                #[trigger] b@.take(from + 1)[i],
            ) by {
                if i < from {
                    assert(b@.take(from + 1)[i] == b@.take(from as int)[i]);
                }
            }
        }
        from += 1;
    }
    proof {
        lemma_trimmed_left_at(b@, cutset@, from as int);
    }
    slice_subrange(b, from, b.len())
}

/// Trim all bytes in the cutset from the *right* side of `b`. A slice made
/// of cutset bytes only is trimmed to nothing.
pub fn trim_cutset_right<'a>(b: &'a [u8], cutset: &'a [u8]) -> (r: &'a [u8])
    ensures
        r@ == trimmed_right(b@, cutset@),
{
    let mut to: usize = b.len();
    while to > 0
        invariant
            to <= b@.len(),
            all_in_cutset(b@.skip(to as int), cutset@),
        ensures
            to > 0 ==> !cutset@.contains(b@[to - 1]),
        decreases to,
    {
        if !char_in_cutset(b[to - 1], cutset) {
            break;
        }
        proof {
            assert forall|i: int| 0 <= i < b@.len() - (to - 1) implies cutset@.contains(
                #[trigger] b@.skip(to - 1)[i],
            ) by {
                if i > 0 {
                    assert(b@.skip(to - 1)[i] == b@.skip(to as int)[i - 1]);
                }
            }
        }
        to -= 1;
    }
    proof {
        lemma_trimmed_right_at(b@, cutset@, to as int);
    }
    slice_subrange(b, 0, to)
}

/// Trim all bytes in the cutset from both sides of `b`.
pub fn trim_cutset<'a>(b: &'a [u8], cutset: &'a [u8]) -> (r: &'a [u8])
    ensures
        r@ == trimmed(b@, cutset@),
{
    trim_cutset_left(trim_cutset_right(b, cutset), cutset)
}

} // verus!
