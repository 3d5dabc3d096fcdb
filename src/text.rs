//! String helpers used by the metadata client and the attribute probes.
use vstd::prelude::*;

verus! {

/// Index of the last `/` in `s`, if any.
pub open spec fn last_slash(s: Seq<char>) -> Option<int>
    decreases s.len(),
{
    if s.len() == 0 {
        None
    } else if s.last() == '/' {
        Some(s.len() - 1)
    } else {
        last_slash(s.drop_last())
    }
}

/// `s` without everything up to and including its last `/`; all of `s` when
/// it holds no `/`.
pub open spec fn after_last_slash(s: Seq<char>) -> Seq<char> {
    match last_slash(s) {
        Some(i) => s.subrange(i + 1, s.len() as int),
        None => s,
    }
}

/// `s` with every trailing `/` removed.
pub open spec fn without_trailing_slashes(s: Seq<char>) -> Seq<char>
    decreases s.len(),
{
    if s.len() > 0 && s.last() == '/' {
        without_trailing_slashes(s.drop_last())
    } else {
        s
    }
}

/// The characters of Unicode's `White_Space` property, which `char::is_whitespace`
/// and `str::trim` go by.
pub open spec fn is_white_space(c: char) -> bool {
    let u = c as u32;
    ||| 0x09 <= u <= 0x0D
    ||| u == 0x20
    ||| u == 0x85
    ||| u == 0xA0
    ||| u == 0x1680
    ||| 0x2000 <= u <= 0x200A
    ||| u == 0x2028
    ||| u == 0x2029
    ||| u == 0x202F
    ||| u == 0x205F
    ||| u == 0x3000
}

/// `s` without its leading white space.
pub open spec fn trim_start(s: Seq<char>) -> Seq<char>
    decreases s.len(),
{
    if s.len() > 0 && is_white_space(s[0]) {
        trim_start(s.drop_first())
    } else {
        s
    }
}

/// `s` without its trailing white space.
pub open spec fn trim_end(s: Seq<char>) -> Seq<char>
    decreases s.len(),
{
    if s.len() > 0 && is_white_space(s.last()) {
        trim_end(s.drop_last())
    } else {
        s
    }
}

/// `s` without its leading and trailing white space.
pub open spec fn trimmed(s: Seq<char>) -> Seq<char> {
    trim_end(trim_start(s))
}

/// Relies on `str::trim`: a string slice with leading and trailing white
/// space (Unicode `White_Space`) removed.
#[verifier::external_body]
pub(crate) fn trim_text(s: &str) -> (r: String)
    ensures
        r@ == trimmed(s@),
{
    s.trim().to_string()
}

proof fn lemma_last_slash_bounds(s: Seq<char>)
    ensures
        match last_slash(s) {
            Some(i) => 0 <= i < s.len() && s[i] == '/',
            None => true,
        },
    decreases s.len(),
{
    if s.len() > 0 && s.last() != '/' {
        lemma_last_slash_bounds(s.drop_last());
    }
}

/// `s` without everything up to and including its last `/`.
pub fn last_segment(s: &str) -> (r: String)
    ensures
        r@ == after_last_slash(s@),
{
    let n = s.unicode_len();
    let mut i: usize = n;
    assert(s@.subrange(0, n as int) =~= s@);
    while i > 0
        invariant
            i <= n,
            n == s@.len(),
            last_slash(s@) == last_slash(s@.subrange(0, i as int)),
        decreases i,
    {
        let c = s.get_char(i - 1);
        assert(s@.subrange(0, i - 1) =~= s@.subrange(0, i as int).drop_last());
        if c == '/' {
            proof {
                lemma_last_slash_bounds(s@);
            }
            let tail = s.substring_char(i, n);
            return String::from_str(tail);
        }
        i = i - 1;
    }
    String::from_str(s)
}

/// `s` with every trailing `/` removed.
pub fn trim_trailing_slashes(s: &str) -> (r: &str)
    ensures
        r@ == without_trailing_slashes(s@),
{
    let n = s.unicode_len();
    let mut i: usize = n;
    assert(s@.subrange(0, n as int) =~= s@);
    while i > 0
        invariant
            i <= n,
            n == s@.len(),
            without_trailing_slashes(s@) == without_trailing_slashes(s@.subrange(0, i as int)),
        ensures
            i <= n,
            without_trailing_slashes(s@) == without_trailing_slashes(s@.subrange(0, i as int)),
            i == 0 || s@[i - 1] != '/',
        decreases i,
    {
        if s.get_char(i - 1) != '/' {
            break;
        }
        assert(s@.subrange(0, i - 1) =~= s@.subrange(0, i as int).drop_last());
        i = i - 1;
    }
    let r = s.substring_char(0, i);
    assert(without_trailing_slashes(r@) == r@);
    r
}

} // verus!
