//! The name transformer: maps the snake-case identifiers found in the
//! generated API sources to the Pascal-case identifiers used for emitted
//! types, and strips the module suffix marker that tags API modules.

use vstd::prelude::*;

verus! {

/// Upper-case image of an ASCII lower-case letter; every other character is
/// left unchanged.
pub open spec fn upper_char(c: char) -> char {
    if c == 'a' { 'A' } else if c == 'b' { 'B' } else if c == 'c' { 'C' }
    else if c == 'd' { 'D' } else if c == 'e' { 'E' } else if c == 'f' { 'F' }
    else if c == 'g' { 'G' } else if c == 'h' { 'H' } else if c == 'i' { 'I' }
    else if c == 'j' { 'J' } else if c == 'k' { 'K' } else if c == 'l' { 'L' }
    else if c == 'm' { 'M' } else if c == 'n' { 'N' } else if c == 'o' { 'O' }
    else if c == 'p' { 'P' } else if c == 'q' { 'Q' } else if c == 'r' { 'R' }
    else if c == 's' { 'S' } else if c == 't' { 'T' } else if c == 'u' { 'U' }
    else if c == 'v' { 'V' } else if c == 'w' { 'W' } else if c == 'x' { 'X' }
    else if c == 'y' { 'Y' } else if c == 'z' { 'Z' } else { c }
}

/// Upper-cases an ASCII lower-case letter; leaves anything else unchanged.
pub fn to_upper_char(c: char) -> (r: char)
    ensures
        r == upper_char(c),
{
    if c == 'a' { 'A' } else if c == 'b' { 'B' } else if c == 'c' { 'C' }
    else if c == 'd' { 'D' } else if c == 'e' { 'E' } else if c == 'f' { 'F' }
    else if c == 'g' { 'G' } else if c == 'h' { 'H' } else if c == 'i' { 'I' }
    else if c == 'j' { 'J' } else if c == 'k' { 'K' } else if c == 'l' { 'L' }
    else if c == 'm' { 'M' } else if c == 'n' { 'N' } else if c == 'o' { 'O' }
    else if c == 'p' { 'P' } else if c == 'q' { 'Q' } else if c == 'r' { 'R' }
    else if c == 's' { 'S' } else if c == 't' { 'T' } else if c == 'u' { 'U' }
    else if c == 'v' { 'V' } else if c == 'w' { 'W' } else if c == 'x' { 'X' }
    else if c == 'y' { 'Y' } else if c == 'z' { 'Z' } else { c }
}

/// An ASCII decimal digit.
pub open spec fn is_digit_char(c: char) -> bool {
    c == '0' || c == '1' || c == '2' || c == '3' || c == '4' || c == '5' || c == '6' || c == '7'
        || c == '8' || c == '9'
}

/// Tests whether `c` is an ASCII decimal digit.
pub fn digit_char(c: char) -> (r: bool)
    ensures
        r == is_digit_char(c),
{
    c == '0' || c == '1' || c == '2' || c == '3' || c == '4' || c == '5' || c == '6' || c == '7'
        || c == '8' || c == '9'
}

/// A character a snake-case identifier may hold: a lower-case ASCII letter
/// (exactly the characters [`upper_char`] changes), an ASCII digit, or an
/// underscore.
pub open spec fn snake_char(c: char) -> bool {
    upper_char(c) != c || is_digit_char(c) || c == '_'
}

/// A valid snake-case identifier: non-empty, made of lower-case letters,
/// digits and underscores, not starting with a digit.
pub open spec fn snake_ident(s: Seq<char>) -> bool {
    &&& s.len() > 0
    &&& !is_digit_char(s[0])
    &&& forall|i: int| 0 <= i < s.len() ==> snake_char(#[trigger] s[i])
}

/// Tests whether `s` is a valid snake-case identifier.
pub fn is_snake_ident(s: &str) -> (r: bool)
    ensures
        r == snake_ident(s@),
{
    let n = s.unicode_len();
    if n == 0 {
        return false;
    }
    if digit_char(s.get_char(0)) {
        return false;
    }
    let mut i: usize = 0;
    while i < n
        invariant
            n == s@.len(),
            0 <= i <= n,
            forall|k: int| 0 <= k < i ==> snake_char(#[trigger] s@[k]),
        decreases n - i,
    {
        let c = s.get_char(i);
        if !(to_upper_char(c) != c || digit_char(c) || c == '_') {
            proof {
                assert(!snake_char(s@[i as int]));
            }
            return false;
        }
        i = i + 1;
    }
    true
}

/// Pascal-case conversion, one character at a time: an underscore separates
/// segments and is dropped, and a digit also ends its segment, so the first
/// character of each segment — after an underscore, after a digit, or at the
/// start — is upper-cased. `cap` records whether the next character starts a
/// segment.
pub open spec fn pascal_rec(s: Seq<char>, cap: bool) -> Seq<char>
    decreases s.len(),
{
    if s.len() == 0 {
        Seq::empty()
    } else if s.first() == '_' {
        pascal_rec(s.drop_first(), true)
    } else {
        seq![if cap { upper_char(s.first()) } else { s.first() }]
            + pascal_rec(s.drop_first(), is_digit_char(s.first()))
    }
}

/// The Pascal-case identifier derived from a snake-case identifier.
pub open spec fn pascal_of(s: Seq<char>) -> Seq<char> {
    pascal_rec(s, true)
}

/// Derives the Pascal-case identifier of a snake-case identifier:
/// `"add_pet"` becomes `"AddPet"`, and `"v2beta"` becomes `"V2Beta"` — a
/// letter directly after a digit starts a new segment, as the generated
/// sources' naming convention has it.
pub fn to_pascal(s: &str) -> (r: String)
    ensures
        r@ == pascal_of(s@),
{
    let n = s.unicode_len();
    let mut out = String::new();
    let mut cap = true;
    let mut i: usize = 0;
    proof {
        assert(s@.skip(0) =~= s@);
        assert(Seq::<char>::empty() + pascal_of(s@) =~= pascal_of(s@));
    }
    while i < n
        invariant
            n == s@.len(),
            0 <= i <= n,
            out@ + pascal_rec(s@.skip(i as int), cap) == pascal_of(s@),
        decreases n - i,
    {
        let c = s.get_char(i);
        proof {
            let rest = s@.skip(i as int);
            assert(rest.len() > 0);
            assert(rest.first() == s@[i as int]);
            assert(rest.drop_first() =~= s@.skip(i as int + 1));
        }
        if c == '_' {
            cap = true;
        } else {
            let u = if cap { to_upper_char(c) } else { c };
            let ghost prev = out@;
            crate::strings::push_char(&mut out, u);
            proof {
                let tail = pascal_rec(s@.skip(i as int + 1), is_digit_char(c));
                assert(out@ + tail =~= prev + (seq![u] + tail));
            }
            cap = digit_char(c);
        }
        i = i + 1;
    }
    proof {
        assert(s@.skip(n as int) =~= Seq::<char>::empty());
    }
    out
}

/// The four-character marker that tags an API module identifier.
pub open spec fn api_marker() -> Seq<char> {
    seq!['_', 'a', 'p', 'i']
}

/// Whether an identifier carries the API module marker as its suffix.
pub open spec fn ends_with_api(s: Seq<char>) -> bool {
    s.len() >= 4 && s.subrange(s.len() - 4, s.len() as int) == api_marker()
}

/// The base name of a module identifier: the identifier without its marker
/// suffix. An identifier without the marker is its own base name; the
/// extractor never hands such an identifier on, so this total reading is a
/// deliberate policy, not a silent fallback.
pub open spec fn base_name_of(s: Seq<char>) -> Seq<char> {
    if ends_with_api(s) {
        s.subrange(0, s.len() - 4)
    } else {
        s
    }
}

/// Tests whether the identifier ends with the API module marker.
pub fn has_api_marker(s: &str) -> (r: bool)
    ensures
        r == ends_with_api(s@),
{
    let n = s.unicode_len();
    if n < 4 {
        return false;
    }
    let m0 = s.get_char(n - 4) == '_';
    let m1 = s.get_char(n - 3) == 'a';
    let m2 = s.get_char(n - 2) == 'p';
    let m3 = s.get_char(n - 1) == 'i';
    let r = m0 && m1 && m2 && m3;
    proof {
        let tail = s@.subrange(s@.len() - 4, s@.len() as int);
        assert(tail[0] == s@[s@.len() - 4]);
        assert(tail[1] == s@[s@.len() - 3]);
        assert(tail[2] == s@[s@.len() - 2]);
        assert(tail[3] == s@[s@.len() - 1]);
        if r {
            assert(tail =~= api_marker());
        } else {
            assert(tail != api_marker());
        }
    }
    r
}

/// Strips the API module marker: `Some(base)` exactly when the marker is
/// present, `None` otherwise.
pub fn strip_api_suffix(s: &str) -> (r: Option<String>)
    ensures
        r is Some <==> ends_with_api(s@),
        r is Some ==> r->0@ == base_name_of(s@),
{
    if has_api_marker(s) {
        let n = s.unicode_len();
        let base = s.substring_char(0, n - 4);
        Some(base.to_owned())
    } else {
        None
    }
}

/// The base name of a module identifier: the identifier with the marker
/// stripped when present, the identifier itself otherwise.
pub fn base_name(s: &str) -> (r: String)
    ensures
        r@ == base_name_of(s@),
{
    match strip_api_suffix(s) {
        Some(base) => base,
        None => s.to_owned(),
    }
}

/// Naming determinism: the derived Pascal-case identifier is a pure function
/// of the input identifier — equal inputs always yield equal outputs.
pub proof fn lemma_pascal_deterministic(s1: Seq<char>, s2: Seq<char>)
    requires
        s1 == s2,
    ensures
        pascal_of(s1) == pascal_of(s2),
{
}

/// Identifiers that differ only by the API module marker share one base name:
/// appending the marker to an identifier that does not already end with it
/// does not change the derived base name.
pub proof fn lemma_base_name_marker(s: Seq<char>)
    requires
        !ends_with_api(s),
    ensures
        base_name_of(s + api_marker()) == base_name_of(s),
        base_name_of(s) == s,
{
    let t = s + api_marker();
    assert(t.subrange(t.len() - 4, t.len() as int) =~= api_marker());
    assert(t.subrange(0, t.len() - 4) =~= s);
}

} // verus!
