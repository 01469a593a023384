//! The event catalog: the closed set of domain event kinds, each with its
//! canonical string identifier, and membership in a subscription's
//! subscribed-kind list.
//!
//! A subscription stores its kinds as one delimiter-separated string of
//! identifiers. Each comma-separated token is trimmed of surrounding ASCII
//! whitespace before comparison; tokens that name no catalog kind are ignored
//! rather than rejected, and never match a kind they do not literally name.

#![verifier::loop_isolation(false)]

use vstd::prelude::*;
use vstd::string::StrSliceExecFns;

verus! {

broadcast use vstd::std_specs::vec::group_vec_axioms, vstd::seq::group_seq_axioms;

/// A domain event kind. The catalog is closed: adding a kind means extending
/// this enumeration and the event union together.
#[derive(Clone, Copy, Debug, PartialEq, Eq, Structural)]
pub enum EventKind {
    CorridorHealthDegraded,
    AnchorStatusChanged,
    PaymentCreated,
    CorridorLiquidityDropped,
}

/// The canonical identifier of an event kind, as persisted in
/// subscribed-kind lists. Identifiers are part of the external contract and
/// are never renamed.
pub open spec fn spec_kind_id(k: EventKind) -> Seq<char> {
    match k {
        EventKind::CorridorHealthDegraded => "CorridorHealthDegraded"@,
        EventKind::AnchorStatusChanged => "AnchorStatusChanged"@,
        EventKind::PaymentCreated => "PaymentCreated"@,
        EventKind::CorridorLiquidityDropped => "CorridorLiquidityDropped"@,
    }
}

/// The canonical identifier of an event kind.
pub fn kind_id(k: EventKind) -> (r: &'static str)
    ensures
        r@ == spec_kind_id(k),
{
    match k {
        EventKind::CorridorHealthDegraded => "CorridorHealthDegraded",
        EventKind::AnchorStatusChanged => "AnchorStatusChanged",
        EventKind::PaymentCreated => "PaymentCreated",
        EventKind::CorridorLiquidityDropped => "CorridorLiquidityDropped",
    }
}

/// ASCII whitespace, the characters trimmed from kind-list tokens.
pub open spec fn is_ws(c: char) -> bool {
    c == ' ' || c == '\t' || c == '\n' || c == '\r'
}

/// A token without its leading whitespace.
pub open spec fn trim_front(s: Seq<char>) -> Seq<char>
    decreases s.len(),
{
    if s.len() > 0 && is_ws(s[0]) {
        trim_front(s.drop_first())
    } else {
        s
    }
}

/// A token without its trailing whitespace.
pub open spec fn trim_back(s: Seq<char>) -> Seq<char>
    decreases s.len(),
{
    if s.len() > 0 && is_ws(s[s.len() - 1]) {
        trim_back(s.drop_last())
    } else {
        s
    }
}

/// A token without its surrounding whitespace.
pub open spec fn spec_trim(s: Seq<char>) -> Seq<char> {
    trim_back(trim_front(s))
}

/// The position of the first comma, or the length when there is none.
pub open spec fn first_comma(s: Seq<char>) -> int
    decreases s.len(),
{
    if s.len() == 0 {
        0
    } else if s[0] == ',' {
        0
    } else {
        1 + first_comma(s.drop_first())
    }
}

/// `first_comma` points at the first comma: nothing before it is a comma, and
/// it lies within the sequence unless there is no comma at all.
pub proof fn lemma_first_comma(s: Seq<char>)
    ensures
        0 <= first_comma(s) <= s.len(),
        first_comma(s) < s.len() ==> s[first_comma(s)] == ',',
        forall|j: int| 0 <= j < first_comma(s) ==> s[j] != ',',
    decreases s.len(),
{
    if s.len() > 0 && s[0] != ',' {
        lemma_first_comma(s.drop_first());
        assert forall|j: int| 0 <= j < first_comma(s) implies s[j] != ',' by {
            if j > 0 {
                assert(s.drop_first()[j - 1] == s[j]);
            }
        }
    }
}

/// A scan that finds no comma before `k`, and a comma (or the end) at `k`,
/// has found `first_comma`.
pub proof fn lemma_first_comma_at(s: Seq<char>, k: int)
    requires
        0 <= k <= s.len(),
        forall|j: int| 0 <= j < k ==> s[j] != ',',
        k < s.len() ==> s[k] == ',',
    ensures
        first_comma(s) == k,
    decreases k,
{
    if s.len() == 0 {
    } else if k == 0 {
        if s.len() > 0 && s[0] != ',' {
            lemma_first_comma(s.drop_first());
        }
    } else {
        lemma_first_comma_at(s.drop_first(), k - 1);
    }
}

/// Whether the comma-separated list `s` contains `id` as one of its tokens,
/// after each token is trimmed of surrounding whitespace.
pub open spec fn kind_list_has(s: Seq<char>, id: Seq<char>) -> bool
    decreases s.len(),
{
    proof {
        lemma_first_comma(s);
    }
    let i = first_comma(s);
    if i >= s.len() {
        spec_trim(s) == id
    } else {
        spec_trim(s.take(i)) == id || kind_list_has(s.skip(i + 1), id)
    }
}

/// Trimming the front removes exactly the leading whitespace.
proof fn lemma_trim_front_at(s: Seq<char>, k: int)
    requires
        0 <= k <= s.len(),
        forall|j: int| 0 <= j < k ==> is_ws(s[j]),
        k < s.len() ==> !is_ws(s[k]),
    ensures
        trim_front(s) == s.skip(k),
    decreases k,
{
    if k == 0 {
        assert(s.skip(0) =~= s);
    } else {
        lemma_trim_front_at(s.drop_first(), k - 1);
        assert(s.drop_first().skip(k - 1) =~= s.skip(k));
    }
}

/// Trimming the back removes exactly the trailing whitespace.
proof fn lemma_trim_back_at(s: Seq<char>, m: int)
    requires
        0 <= m <= s.len(),
        forall|j: int| m <= j < s.len() ==> is_ws(s[j]),
        m > 0 ==> !is_ws(s[m - 1]),
    ensures
        trim_back(s) == s.take(m),
    decreases s.len() - m,
{
    if m == s.len() {
        if s.len() > 0 && is_ws(s[s.len() - 1]) {
            lemma_trim_back_at(s.drop_last(), m - 1);
            assert(s.drop_last().take(m - 1) =~= s.take(m - 1));
        } else {
            assert(s.take(m) =~= s);
        }
    } else {
        lemma_trim_back_at(s.drop_last(), m);
        assert(s.drop_last().take(m) =~= s.take(m));
        assert(s.take(m) =~= s.take(m));
    }
}

/// Whether `c` is ASCII whitespace.
fn is_ws_char(c: char) -> (r: bool)
    ensures
        r == is_ws(c),
{
    c == ' ' || c == '\t' || c == '\n' || c == '\r'
}

/// The characters of a string, as a vector.
pub fn chars_of(s: &str) -> (v: Vec<char>)
    ensures
        v@ == s@,
{
    let n = s.unicode_len();
    let mut v: Vec<char> = Vec::new();
    let mut i: usize = 0;
    while i < n
        invariant
            i <= n,
            n == s@.len(),
            v@.len() == i,
            forall|j: int| 0 <= j < i ==> v@[j] == s@[j],
        decreases n - i,
    {
        v.push(s.get_char(i));
        i = i + 1;
    }
    proof {
        assert(v@ =~= s@);
    }
    v
}

/// Whether the trimmed segment `chars[start..end]` equals `id`.
fn segment_matches(chars: &Vec<char>, start: usize, end: usize, id: &Vec<char>) -> (r: bool)
    requires
        start <= end <= chars@.len(),
    ensures
        r == (spec_trim(chars@.subrange(start as int, end as int)) == id@),
{
    let ghost seg = chars@.subrange(start as int, end as int);
    let mut lo = start;
    while lo < end && is_ws_char(chars[lo])
        invariant
            start <= lo <= end,
            forall|j: int| start <= j < lo ==> is_ws(chars@[j]),
        decreases end - lo,
    {
        lo = lo + 1;
    }
    let mut hi = end;
    while hi > lo && is_ws_char(chars[hi - 1])
        invariant
            lo <= hi <= end,
            forall|j: int| hi <= j < end ==> is_ws(chars@[j]),
        decreases hi,
    {
        hi = hi - 1;
    }
    proof {
        lemma_trim_front_at(seg, lo - start);
        let front = seg.skip(lo - start);
        lemma_trim_back_at(front, hi - lo);
        assert(spec_trim(seg) =~= chars@.subrange(lo as int, hi as int));
    }
    if hi - lo != id.len() {
        return false;
    }
    let mut i: usize = 0;
    while i < id.len()
        invariant
            i <= id@.len(),
            lo + id@.len() == hi,
            hi <= chars@.len(),
            forall|j: int| 0 <= j < i ==> chars@[lo + j] == id@[j],
        decreases id@.len() - i,
    {
        if chars[lo + i] != id[i] {
            return false;
        }
        i = i + 1;
    }
    proof {
        assert(chars@.subrange(lo as int, hi as int) =~= id@);
    }
    true
}

/// Whether some trimmed token of `chars[start..]` equals `id`.
fn list_contains_from(chars: &Vec<char>, id: &Vec<char>, start: usize) -> (r: bool)
    requires
        start <= chars@.len(),
    ensures
        r == kind_list_has(chars@.skip(start as int), id@),
    decreases chars@.len() - start,
{
    let ghost tail = chars@.skip(start as int);
    let n = chars.len();
    let mut i = start;
    while i < n && chars[i] != ','
        invariant
            start <= i <= n,
            n == chars@.len(),
            forall|j: int| start <= j < i ==> chars@[j] != ',',
        decreases n - i,
    {
        i = i + 1;
    }
    proof {
        lemma_first_comma_at(tail, i - start);
        lemma_first_comma(tail);
    }
    let seg_eq = segment_matches(chars, start, i, id);
    proof {
        assert(tail.take(i - start) =~= chars@.subrange(start as int, i as int));
    }
    if i < n {
        if seg_eq {
            true
        } else {
            let r = list_contains_from(chars, id, i + 1);
            proof {
                assert(tail.skip(i - start + 1) =~= chars@.skip(i as int + 1));
            }
            r
        }
    } else {
        proof {
            assert(tail.take(i - start) =~= tail);
        }
        seg_eq
    }
}

/// Whether the comma-separated kind list `list` names the kind `k`: some
/// token, trimmed of surrounding whitespace, is exactly the kind's canonical
/// identifier.
pub fn kind_list_contains(list: &str, k: EventKind) -> (r: bool)
    ensures
        r == kind_list_has(list@, spec_kind_id(k)),
{
    let chars = chars_of(list);
    let id = chars_of(kind_id(k));
    let r = list_contains_from(&chars, &id, 0);
    proof {
        assert(chars@.skip(0) =~= chars@);
    }
    r
}

} // verus!
