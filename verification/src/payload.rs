//! Payload handling: trimming-based normalization of a pre-existing base
//! payload, and assembly of the final payload from its segments.

use vstd::prelude::*;

verus! {

/// Whitespace for trimming purposes: the Unicode `White_Space` characters.
pub open spec fn is_space(c: char) -> bool {
    let n = c as u32;
    n == 0x20 || (0x9 <= n && n <= 0xD) || n == 0x85 || n == 0xA0 || n == 0x1680 || (0x2000 <= n
        && n <= 0x200A) || n == 0x2028 || n == 0x2029 || n == 0x202F || n == 0x205F || n == 0x3000
}

/// Decides [`is_space`] on a concrete character.
pub fn space(c: char) -> (r: bool)
    ensures
        r == is_space(c),
{
    let n: u32 = c as u32;
    n == 0x20 || (0x9 <= n && n <= 0xD) || n == 0x85 || n == 0xA0 || n == 0x1680 || (0x2000 <= n
        && n <= 0x200A) || n == 0x2028 || n == 0x2029 || n == 0x202F || n == 0x205F || n == 0x3000
}

/// `s` without its leading whitespace.
pub open spec fn trim_front(s: Seq<char>) -> Seq<char>
    decreases s.len(),
{
    if s.len() > 0 && is_space(s[0]) {
        trim_front(s.drop_first())
    } else {
        s
    }
}

/// `s` without its trailing whitespace.
pub open spec fn trim_back(s: Seq<char>) -> Seq<char>
    decreases s.len(),
{
    if s.len() > 0 && is_space(s[s.len() - 1]) {
        trim_back(s.drop_last())
    } else {
        s
    }
}

/// `s` without leading and trailing whitespace.
pub open spec fn spec_trim(s: Seq<char>) -> Seq<char> {
    trim_back(trim_front(s))
}

/// Normalization of a base payload: trim it, and treat an empty or
/// whitespace-only payload as absent.
pub open spec fn spec_normalize(s: Seq<char>) -> Option<Seq<char>> {
    if spec_trim(s).len() == 0 {
        None
    } else {
        Some(spec_trim(s))
    }
}

/// The view of an optional owned string.
pub open spec fn opt_view(o: Option<String>) -> Option<Seq<char>> {
    match o {
        Some(s) => Some(s@),
        None => None,
    }
}

proof fn lemma_trim_front_subrange(s: Seq<char>, lo: int)
    requires
        0 <= lo <= s.len(),
        forall|j: int| 0 <= j < lo ==> is_space(s[j]),
        lo < s.len() ==> !is_space(s[lo]),
    ensures
        trim_front(s) == s.subrange(lo, s.len() as int),
    decreases lo,
{
    if lo == 0 {
        assert(trim_front(s) =~= s.subrange(0, s.len() as int));
    } else {
        let rest = s.drop_first();
        lemma_trim_front_subrange(rest, lo - 1);
        assert(rest.subrange(lo - 1, rest.len() as int) =~= s.subrange(lo, s.len() as int));
    }
}

proof fn lemma_trim_back_subrange(s: Seq<char>, hi: int)
    requires
        0 <= hi <= s.len(),
        forall|j: int| hi <= j < s.len() ==> is_space(s[j]),
        hi > 0 ==> !is_space(s[hi - 1]),
    ensures
        trim_back(s) == s.subrange(0, hi),
    decreases s.len() - hi,
{
    if hi == s.len() {
        assert(trim_back(s) =~= s.subrange(0, hi));
    } else {
        let rest = s.drop_last();
        lemma_trim_back_subrange(rest, hi);
        assert(rest.subrange(0, hi) =~= s.subrange(0, hi));
    }
}

/// Trimming keeps exactly the characters between the first and the last
/// non-whitespace position.
proof fn lemma_trim_subrange(s: Seq<char>, lo: int, hi: int)
    requires
        0 <= lo <= hi <= s.len(),
        forall|j: int| 0 <= j < lo ==> is_space(s[j]),
        forall|j: int| hi <= j < s.len() ==> is_space(s[j]),
        lo < s.len() ==> !is_space(s[lo]),
        lo < hi ==> !is_space(s[hi - 1]),
    ensures
        spec_trim(s) == s.subrange(lo, hi),
{
    lemma_trim_front_subrange(s, lo);
    let t = s.subrange(lo, s.len() as int);
    lemma_trim_back_subrange(t, hi - lo);
    assert(t.subrange(0, hi - lo) =~= s.subrange(lo, hi));
}

/// Trims `content` and treats an empty or whitespace-only result as absent.
pub fn normalize_payload(content: &str) -> (r: Option<String>)
    ensures
        opt_view(r) == spec_normalize(content@),
{
    let n: usize = content.unicode_len();
    let mut lo: usize = 0;
    while lo < n && space(content.get_char(lo))
        invariant
            n == content@.len(),
            0 <= lo <= n,
            forall|j: int| 0 <= j < lo ==> is_space(content@[j]),
        decreases n - lo,
    {
        lo = lo + 1;
    }
    let mut hi: usize = n;
    while hi > lo && space(content.get_char(hi - 1))
        invariant
            n == content@.len(),
            0 <= lo <= hi <= n,
            lo < n ==> !is_space(content@[lo as int]),
            forall|j: int| hi <= j < n ==> is_space(content@[j]),
        decreases hi,
    {
        hi = hi - 1;
    }
    proof {
        lemma_trim_subrange(content@, lo as int, hi as int);
    }
    if lo == hi {
        None
    } else {
        Some(String::from_str(content.substring_char(lo, hi)))
    }
}

/// The assembled payload: the present, non-empty segments out of
/// `[base, custom]`, in that order, joined with a comma. Neither an absent
/// nor an empty segment contributes a comma; with both absent the payload
/// is empty.
pub open spec fn spec_build(base: Option<Seq<char>>, custom: Seq<char>) -> Seq<char> {
    let b = match base {
        Some(b) => b,
        None => Seq::<char>::empty(),
    };
    if b.len() > 0 && custom.len() > 0 {
        b + seq![','] + custom
    } else if b.len() > 0 {
        b
    } else {
        custom
    }
}

/// Joins the normalized base payload (if any) and the freshly rendered
/// custom payload into the final output payload.
pub fn build_payload(base: Option<String>, custom: String) -> (r: String)
    ensures
        r@ == spec_build(opt_view(base), custom@),
{
    match base {
        Some(b) => {
            if b.as_str().is_empty() {
                custom
            } else if custom.as_str().is_empty() {
                b
            } else {
                let mut r = b;
                r.append(",");
                r.append(custom.as_str());
                proof {
                    reveal_strlit(",");
                    assert(","@ =~= seq![',']);
                }
                r
            }
        },
        None => custom,
    }
}

} // verus!
