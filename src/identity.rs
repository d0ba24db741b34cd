use vstd::prelude::*;

verus! {

/// Whether `c` has Unicode's `White_Space` property.
pub uninterp spec fn white_space(c: char) -> bool;

/// Relies on `char::is_whitespace`: it tests the Unicode `White_Space`
/// property, which depends on the character alone.
#[verifier::external_body]
fn is_white(c: char) -> (r: bool)
    ensures
        r == white_space(c),
{
    c.is_whitespace()
}

/// Every character of `s` is white space (true of the empty sequence).
pub open spec fn all_white(s: Seq<char>) -> bool {
    forall|k: int| 0 <= k < s.len() ==> #[trigger] white_space(s[k])
}

/// `i` is where the text of `s` begins: all before it is white space, and
/// the character at `i`, if any, is not.
pub open spec fn is_solid_start(s: Seq<char>, i: int) -> bool {
    &&& 0 <= i <= s.len()
    &&& forall|k: int| 0 <= k < i ==> #[trigger] white_space(s[k])
    &&& i < s.len() ==> !white_space(s[i])
}

/// `j` is where the text of `s` ends, given that it begins at `i`: all from
/// `j` on is white space, and the character before `j`, if after `i`, is not.
pub open spec fn is_solid_end(s: Seq<char>, i: int, j: int) -> bool {
    &&& i <= j <= s.len()
    &&& forall|k: int| j <= k < s.len() ==> #[trigger] white_space(s[k])
    &&& i < j ==> !white_space(s[j - 1])
}

/// Index of the first character of `s` that is not white space, or its length.
pub open spec fn solid_start(s: Seq<char>) -> int {
    choose|i: int| is_solid_start(s, i)
}

/// One past the last character of `s` that is not white space, or its length
/// where there is none.
pub open spec fn solid_end(s: Seq<char>) -> int {
    choose|j: int| is_solid_end(s, solid_start(s), j)
}

/// `s` without its leading and trailing white space.
pub open spec fn trimmed(s: Seq<char>) -> Seq<char> {
    s.subrange(solid_start(s), solid_end(s))
}

proof fn lemma_solid_start_unique(s: Seq<char>, i: int)
    requires
        is_solid_start(s, i),
    ensures
        solid_start(s) == i,
{
    assert(is_solid_start(s, solid_start(s)));
    let c = solid_start(s);
    if c < i {
        assert(white_space(s[c]));
    } else if i < c {
        assert(white_space(s[i]));
    }
}

proof fn lemma_solid_end_unique(s: Seq<char>, i: int, j: int)
    requires
        is_solid_end(s, i, j),
        solid_start(s) == i,
    ensures
        solid_end(s) == j,
{
    assert(is_solid_end(s, i, solid_end(s)));
    let e = solid_end(s);
    if e < j {
        assert(white_space(s[j - 1]));
    } else if j < e {
        assert(white_space(s[e - 1]));
    }
}

/// The text is white space throughout, the empty text included.
pub fn is_blank(s: &str) -> (r: bool)
    ensures
        r == all_white(s@),
{
    let n = s.unicode_len();
    let mut i: usize = 0;
    while i < n
        invariant
            n == s@.len(),
            i <= n,
            forall|k: int| 0 <= k < i ==> #[trigger] white_space(s@[k]),
        decreases n - i,
    {
        if !is_white(s.get_char(i)) {
            return false;
        }
        i = i + 1;
    }
    true
}

/// Removes the white space at both ends of `s`.
pub fn trim(s: &str) -> (r: String)
    ensures
        r@ == trimmed(s@),
        r@.len() == 0 <==> all_white(s@),
{
    let n = s.unicode_len();
    let mut i: usize = 0;
    while i < n && is_white(s.get_char(i))
        invariant
            n == s@.len(),
            i <= n,
            forall|k: int| 0 <= k < i ==> #[trigger] white_space(s@[k]),
        decreases n - i,
    {
        i = i + 1;
    }
    proof {
        lemma_solid_start_unique(s@, i as int);
    }
    let mut j: usize = n;
    while j > i && is_white(s.get_char(j - 1))
        invariant
            n == s@.len(),
            i <= j <= n,
            forall|k: int| j <= k < n ==> #[trigger] white_space(s@[k]),
        decreases j,
    {
        j = j - 1;
    }
    proof {
        lemma_solid_end_unique(s@, i as int, j as int);
    }
    String::from_str(s.substring_char(i, j))
}

} // verus!
