//! Byte signatures with wildcard slots, and the search for their first
//! occurrence in a buffer.

use vstd::prelude::*;

verus! {

/// One slot of a signature.
#[derive(Debug, Clone, Copy, PartialEq, Eq, Structural)]
pub enum PatternValue {
    /// Exactly this byte.
    V(u8),
    /// Any byte.
    A(),
}

impl PatternValue {
    /// Whether the slot admits the byte `b`.
    pub open spec fn accepts(self, b: u8) -> bool {
        match self {
            PatternValue::V(v) => v == b,
            PatternValue::A() => true,
        }
    }

    /// Whether the slot admits the byte `b`.
    pub fn admits(&self, b: u8) -> (r: bool)
        ensures
            r == self.accepts(b),
    {
        match self {
            PatternValue::V(v) => *v == b,
            PatternValue::A() => true,
        }
    }
}

/// The pattern lies within `data` at offset `i` and every slot admits the
/// byte under it.
pub open spec fn matches_at(data: Seq<u8>, pattern: Seq<PatternValue>, i: int) -> bool {
    &&& 0 <= i
    &&& i + pattern.len() <= data.len()
    &&& forall|j: int| 0 <= j < pattern.len() ==> (#[trigger] pattern[j]).accepts(data[i + j])
}

/// The least offset from `from` on at which the pattern matches.
pub open spec fn first_match_from(data: Seq<u8>, pattern: Seq<PatternValue>, from: int) -> Option<
    int,
>
    decreases data.len() - from,
{
    if from < 0 || from + pattern.len() > data.len() {
        None
    } else if matches_at(data, pattern, from) {
        Some(from)
    } else {
        first_match_from(data, pattern, from + 1)
    }
}

/// The least offset at which the pattern matches, if it matches anywhere.
pub open spec fn first_match(data: Seq<u8>, pattern: Seq<PatternValue>) -> Option<int> {
    first_match_from(data, pattern, 0)
}

/// The address of the first occurrence of `pattern` in a region that begins
/// at `base` and holds `data`; 0 where there is none.
pub open spec fn located(data: Seq<u8>, pattern: Seq<PatternValue>, base: usize) -> usize {
    match first_match(data, pattern) {
        Some(i) => (base + i) as usize,
        None => 0,
    }
}

/// `first_match_from` yields a match with none between `from` and it, or
/// `None` where there is no match from `from` on.
proof fn lemma_first_match_from(data: Seq<u8>, pattern: Seq<PatternValue>, from: int)
    requires
        0 <= from,
    ensures
        match first_match_from(data, pattern, from) {
            Some(i) => from <= i && matches_at(data, pattern, i) && forall|k: int|
                from <= k < i ==> !matches_at(data, pattern, k),
            None => forall|k: int| from <= k ==> !matches_at(data, pattern, k),
        },
    decreases data.len() - from,
{
    if from + pattern.len() > data.len() {
    } else if matches_at(data, pattern, from) {
    } else {
        lemma_first_match_from(data, pattern, from + 1);
    }
}

/// The first match is a match, and no match lies before it; where there is
/// none, the pattern matches nowhere.
pub proof fn lemma_first_match_is_least(data: Seq<u8>, pattern: Seq<PatternValue>)
    ensures
        match first_match(data, pattern) {
            Some(i) => matches_at(data, pattern, i) && forall|k: int|
                k < i ==> !matches_at(data, pattern, k),
            None => forall|k: int| !matches_at(data, pattern, k),
        },
{
    lemma_first_match_from(data, pattern, 0);
}

/// The pattern that asks for exactly these bytes.
pub open spec fn fixed(bytes: Seq<u8>) -> Seq<PatternValue> {
    Seq::new(bytes.len(), |j: int| PatternValue::V(bytes[j]))
}

/// The bytes stand in `data` at offset `i`.
pub open spec fn occurs_at(data: Seq<u8>, bytes: Seq<u8>, i: int) -> bool {
    0 <= i && i + bytes.len() <= data.len() && data.subrange(i, i + bytes.len()) == bytes
}

/// A pattern without wildcards matches where its bytes stand, and nowhere
/// else.
pub proof fn lemma_fixed_matches_where_bytes_stand(data: Seq<u8>, bytes: Seq<u8>, i: int)
    ensures
        matches_at(data, fixed(bytes), i) <==> occurs_at(data, bytes, i),
{
    let pattern = fixed(bytes);
    if matches_at(data, pattern, i) {
        assert forall|j: int| 0 <= j < bytes.len() implies data.subrange(i, i + bytes.len())[j]
            == bytes[j] by {
            assert(pattern[j].accepts(data[i + j]));
        }
        assert(data.subrange(i, i + bytes.len()) =~= bytes);
    }
    if occurs_at(data, bytes, i) {
        assert forall|j: int| 0 <= j < pattern.len() implies (#[trigger] pattern[j]).accepts(
            data[i + j],
        ) by {
            assert(data.subrange(i, i + bytes.len())[j] == data[i + j]);
        }
    }
}

/// For a pattern without wildcards the search finds the first place where
/// the bytes stand, and nothing where they stand nowhere.
pub proof fn lemma_find_fixed(data: Seq<u8>, bytes: Seq<u8>)
    ensures
        match first_match(data, fixed(bytes)) {
            Some(i) => occurs_at(data, bytes, i) && forall|k: int|
                k < i ==> !occurs_at(data, bytes, k),
            None => forall|k: int| !occurs_at(data, bytes, k),
        },
{
    lemma_first_match_is_least(data, fixed(bytes));
    assert forall|k: int|
        matches_at(data, fixed(bytes), k) <==> #[trigger] occurs_at(data, bytes, k) by {
        lemma_fixed_matches_where_bytes_stand(data, bytes, k);
    }
}

/// Bytes put between a prefix and a suffix stand where the prefix ends.
pub proof fn lemma_injected_bytes_stand(prefix: Seq<u8>, bytes: Seq<u8>, suffix: Seq<u8>)
    ensures
        occurs_at(prefix + bytes + suffix, bytes, prefix.len() as int),
{
    let data = prefix + bytes + suffix;
    let at = prefix.len() as int;
    assert forall|j: int| 0 <= j < bytes.len() implies data[at + j] == bytes[j] by {
        assert((prefix + bytes)[at + j] == bytes[j]);
    }
    assert(data.subrange(at, at + bytes.len()) =~= bytes);
}

/// Bytes put into a buffer are found where they were put, provided that
/// they stand nowhere before that place.
pub proof fn lemma_injected_bytes_are_found(data: Seq<u8>, bytes: Seq<u8>, at: int)
    requires
        occurs_at(data, bytes, at),
        forall|k: int| k < at ==> !occurs_at(data, bytes, k),
    ensures
        first_match(data, fixed(bytes)) == Some(at),
{
    lemma_find_fixed(data, bytes);
    match first_match(data, fixed(bytes)) {
        Some(i) => {
            if i > at {
                assert(!occurs_at(data, bytes, at));
            }
        },
        None => {
            assert(!occurs_at(data, bytes, at));
        },
    }
}

/// A wildcard admits every byte.
pub proof fn lemma_wildcard_admits_every_byte(b: u8)
    ensures
        PatternValue::A().accepts(b),
{
}

/// A wildcard followed by a byte matches every two bytes that end in that
/// byte.
pub proof fn lemma_wildcard_then_byte(first: u8, last: u8)
    ensures
        matches_at(seq![first, last], seq![PatternValue::A(), PatternValue::V(last)], 0),
        first_match(seq![first, last], seq![PatternValue::A(), PatternValue::V(last)]) == Some(
            0int,
        ),
{
    let data = seq![first, last];
    let pattern = seq![PatternValue::A(), PatternValue::V(last)];
    assert forall|j: int| 0 <= j < pattern.len() implies (#[trigger] pattern[j]).accepts(
        data[0 + j],
    ) by {
        if j == 0 {
        } else {
            assert(j == 1);
        }
    }
    assert(matches_at(data, pattern, 0));
}

/// In a region within the address space, a pattern without wildcards is
/// located at the first place where its bytes stand: the address returned is
/// that of the region plus the offset of that place, and the hit is counted.
pub proof fn lemma_located_fixed(data: Seq<u8>, bytes: Seq<u8>, base: usize, at: int)
    requires
        occurs_at(data, bytes, at),
        forall|k: int| k < at ==> !occurs_at(data, bytes, k),
        base + data.len() <= usize::MAX + 1,
    ensures
        first_match(data, fixed(bytes)) == Some(at),
        located(data, fixed(bytes), base) == base + at,
{
    lemma_injected_bytes_are_found(data, bytes, at);
    if bytes.len() == 0 && at > 0 {
        assert(data.subrange(0, 0) =~= bytes);
        assert(occurs_at(data, bytes, 0));
    }
}

/// A pattern without wildcards whose bytes stand nowhere is located nowhere:
/// the address returned is 0 and no hit is counted.
pub proof fn lemma_located_absent(data: Seq<u8>, bytes: Seq<u8>, base: usize)
    requires
        forall|k: int| !occurs_at(data, bytes, k),
    ensures
        first_match(data, fixed(bytes)) is None,
        located(data, fixed(bytes), base) == 0,
{
    lemma_find_fixed(data, bytes);
    match first_match(data, fixed(bytes)) {
        Some(i) => {
            assert(occurs_at(data, bytes, i));
        },
        None => {},
    }
}

/// A wildcard followed by a byte is located at the start of every two bytes
/// that end in that byte.
pub proof fn lemma_located_wildcard_then_byte(first: u8, last: u8, base: usize)
    requires
        base + 2 <= usize::MAX + 1,
    ensures
        first_match(seq![first, last], seq![PatternValue::A(), PatternValue::V(last)]) is Some,
        located(seq![first, last], seq![PatternValue::A(), PatternValue::V(last)], base) == base,
{
    lemma_wildcard_then_byte(first, last);
}

/// Finds the first occurrence of `pattern` in `data`.
///
/// The buffer is walked from left to right with a cursor into the pattern.
/// A byte that the slot under the cursor refuses sends the cursor back to the
/// start of the pattern, and the walk goes on one byte after the place where
/// the failed attempt began.
#[verifier::loop_isolation(false)]
pub fn find(data: &[u8], pattern: &[PatternValue]) -> (r: Option<usize>)
    ensures
        match r {
            Some(i) => first_match(data@, pattern@) == Some(i as int),
            None => first_match(data@, pattern@) is None,
        },
        match r {
            Some(i) => matches_at(data@, pattern@, i as int) && forall|k: int|
                k < i ==> !matches_at(data@, pattern@, k),
            None => forall|k: int| !matches_at(data@, pattern@, k),
        },
{
    let n = data.len();
    let m = pattern.len();
    proof {
        lemma_first_match_is_least(data@, pattern@);
    }
    if m > n {
        return None;
    }
    let last = n - m;
    let mut start: usize = 0;
    let mut cursor: usize = 0;
    while start <= last
        invariant
            n == data@.len(),
            m == pattern@.len(),
            m <= n,
            last == n - m,
            cursor <= m,
            start <= last + 1,
            forall|j: int| 0 <= j < cursor ==> (#[trigger] pattern@[j]).accepts(data@[start + j]),
            first_match(data@, pattern@) == first_match_from(data@, pattern@, start as int),
        decreases last + 1 - start, m - cursor,
    {
        if cursor == m {
            return Some(start);
        }
        if pattern[cursor].admits(data[start + cursor]) {
            cursor += 1;
        } else {
            assert(!matches_at(data@, pattern@, start as int));
            start += 1;
            cursor = 0;
        }
    }
    None
}

/// Searches `data`, the contents of a region that begins at `base_address`,
/// for `pattern`, and counts a hit in `valid_count`.
///
/// Returns the address of the first occurrence, or 0 where there is none.
pub fn match_pattern(
    data: &[u8],
    pattern: &[PatternValue],
    valid_count: &mut u8,
    base_address: usize,
) -> (r: usize)
    requires
        *old(valid_count) < u8::MAX,
        base_address + data@.len() <= usize::MAX + 1,
    ensures
        r == located(data@, pattern@, base_address),
        *final(valid_count) == *old(valid_count) + (if first_match(data@, pattern@) is Some {
            1int
        } else {
            0int
        }),
{
    match find(data, pattern) {
        Some(i) => {
            proof {
                lemma_first_match_from(data@, pattern@, 0);
            }
            *valid_count += 1;
            base_address + i
        },
        None => 0,
    }
}

} // verus!
