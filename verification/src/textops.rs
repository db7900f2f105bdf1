//! Text transforms used by the revocation protocol: trimming the whitespace
//! around a public key line, and escaping the `/` characters that would
//! break the line-oriented stream-edit delete pattern built from it.

use vstd::prelude::*;

verus! {

/// Relies on String::push: appends one character to the string.
pub assume_specification[ String::push ](s: &mut String, c: char)
    ensures
        final(s)@ == old(s)@.push(c),
;

/// The whitespace characters trimmed from around a key line: the Unicode
/// White_Space set, the same characters `str::trim` removes.
pub open spec fn is_space(c: char) -> bool {
    let u = c as u32;
    ||| (9 <= u && u <= 13)  // tab, line feed, vertical tab, form feed, carriage return
    ||| u == 32  // space
    ||| u == 0x85  // next line
    ||| u == 0xA0  // no-break space
    ||| u == 0x1680  // ogham space mark
    ||| (0x2000 <= u && u <= 0x200A)  // en quad through hair space
    ||| u == 0x2028  // line separator
    ||| u == 0x2029  // paragraph separator
    ||| u == 0x202F  // narrow no-break space
    ||| u == 0x205F  // medium mathematical space
    ||| u == 0x3000  // ideographic space
}

/// `s` with its leading whitespace removed.
pub open spec fn spec_trim_start(s: Seq<char>) -> Seq<char>
    decreases s.len(),
{
    if s.len() > 0 && is_space(s[0]) {
        spec_trim_start(s.skip(1))
    } else {
        s
    }
}

/// `s` with its trailing whitespace removed.
pub open spec fn spec_trim_end(s: Seq<char>) -> Seq<char>
    decreases s.len(),
{
    if s.len() > 0 && is_space(s[s.len() - 1]) {
        spec_trim_end(s.take(s.len() - 1))
    } else {
        s
    }
}

/// `s` with its surrounding whitespace removed.
pub open spec fn spec_trim(s: Seq<char>) -> Seq<char> {
    spec_trim_end(spec_trim_start(s))
}

/// `s` with every `/` replaced by `\/`, the form a stream-edit pattern needs.
pub open spec fn spec_escape(s: Seq<char>) -> Seq<char>
    decreases s.len(),
{
    if s.len() == 0 {
        Seq::empty()
    } else if s[0] == '/' {
        seq!['\\', '/'] + spec_escape(s.skip(1))
    } else {
        seq![s[0]] + spec_escape(s.skip(1))
    }
}

/// The inverse transform for matching: every `\/` read back as `/`.
pub open spec fn spec_unescape(s: Seq<char>) -> Seq<char>
    decreases s.len(),
{
    if s.len() >= 2 && s[0] == '\\' && s[1] == '/' {
        seq!['/'] + spec_unescape(s.skip(2))
    } else if s.len() > 0 {
        seq![s[0]] + spec_unescape(s.skip(1))
    } else {
        Seq::empty()
    }
}

/// A trimmed-at-the-start string keeps its last character and never starts
/// with whitespace.
proof fn lemma_trim_start_shape(s: Seq<char>)
    ensures
        spec_trim_start(s).len() > 0 ==> !is_space(spec_trim_start(s)[0]),
        spec_trim_start(s).len() > 0 ==> spec_trim_start(s)[spec_trim_start(s).len() - 1]
            == s[s.len() - 1],
    decreases s.len(),
{
    if s.len() > 0 && is_space(s[0]) {
        lemma_trim_start_shape(s.skip(1));
    }
}

/// A trimmed-at-the-end string keeps its first character and never ends
/// with whitespace.
proof fn lemma_trim_end_shape(s: Seq<char>)
    ensures
        spec_trim_end(s).len() > 0 ==> !is_space(spec_trim_end(s)[spec_trim_end(s).len() - 1]),
        spec_trim_end(s).len() > 0 ==> spec_trim_end(s)[0] == s[0],
    decreases s.len(),
{
    if s.len() > 0 && is_space(s[s.len() - 1]) {
        lemma_trim_end_shape(s.take(s.len() - 1));
    }
}

/// Trimming leaves no whitespace at either end of the result.
pub proof fn lemma_trim_no_surrounding_space(s: Seq<char>)
    ensures
        spec_trim(s).len() > 0 ==> !is_space(spec_trim(s)[0]),
        spec_trim(s).len() > 0 ==> !is_space(spec_trim(s)[spec_trim(s).len() - 1]),
{
    lemma_trim_start_shape(s);
    lemma_trim_end_shape(spec_trim_start(s));
}

/// An escaped string never starts with a bare `/`, and is empty only when
/// its source was.
proof fn lemma_escape_head(s: Seq<char>)
    ensures
        spec_escape(s).len() > 0 ==> spec_escape(s)[0] != '/',
        spec_escape(s).len() == 0 ==> s.len() == 0,
{
}

/// Escaping is invertible for matching: unescaping an escaped string gives
/// back exactly the original, so the pattern the revocation step searches
/// for stands for the key text it was built from and nothing else.
pub proof fn lemma_escape_roundtrip(s: Seq<char>)
    ensures
        spec_unescape(spec_escape(s)) == s,
    decreases s.len(),
{
    if s.len() == 0 {
    } else if s[0] == '/' {
        lemma_escape_roundtrip(s.skip(1));
        let e = spec_escape(s);
        assert(e.skip(2) =~= spec_escape(s.skip(1)));
        assert(seq!['/'] + s.skip(1) =~= s);
    } else {
        lemma_escape_roundtrip(s.skip(1));
        lemma_escape_head(s.skip(1));
        let e = spec_escape(s);
        let rest = spec_escape(s.skip(1));
        assert(e == seq![s[0]] + rest);
        assert(e[0] == s[0]);
        if e.len() >= 2 {
            assert(e[1] == rest[0]);
            assert(e[1] != '/');
        }
        assert(e.skip(1) =~= rest);
        assert(seq![s[0]] + s.skip(1) =~= s);
    }
}

/// Whether two strings hold the same characters.
pub fn str_eq(a: &str, b: &str) -> (r: bool)
    ensures
        r == (a@ == b@),
{
    let na = a.unicode_len();
    let nb = b.unicode_len();
    if na != nb {
        proof {
            if a@ == b@ {
                assert(a@.len() == b@.len());
            }
        }
        return false;
    }
    let mut i: usize = 0;
    while i < na
        invariant
            0 <= i <= na,
            na == a@.len(),
            na == b@.len(),
            forall|j: int| 0 <= j < i ==> a@[j] == b@[j],
        decreases na - i,
    {
        if a.get_char(i) != b.get_char(i) {
            proof {
                if a@ == b@ {
                    assert(a@[i as int] == b@[i as int]);
                }
            }
            return false;
        }
        i = i + 1;
    }
    proof {
        assert(a@ =~= b@);
    }
    true
}

/// Whether `c` is one of the characters trimmed from around a key line.
fn is_space_char(c: char) -> (r: bool)
    ensures
        r == is_space(c),
{
    let u: u32 = c as u32;
    (9 <= u && u <= 13) || u == 32 || u == 0x85 || u == 0xA0 || u == 0x1680 || (0x2000 <= u && u
        <= 0x200A) || u == 0x2028 || u == 0x2029 || u == 0x202F || u == 0x205F || u == 0x3000
}

/// Removes the whitespace around `s`.
pub fn trim_spaces(s: &str) -> (r: String)
    ensures
        r@ == spec_trim(s@),
{
    let n = s.unicode_len();
    let mut a: usize = 0;
    proof {
        assert(s@.skip(0) =~= s@);
    }
    while a < n && is_space_char(s.get_char(a))
        invariant
            0 <= a <= n,
            n == s@.len(),
            spec_trim_start(s@) == spec_trim_start(s@.skip(a as int)),
        decreases n - a,
    {
        proof {
            assert(s@.skip(a as int)[0] == s@[a as int]);
            assert(s@.skip(a as int).skip(1) =~= s@.skip(a + 1));
        }
        a = a + 1;
    }
    proof {
        assert(spec_trim_start(s@) =~= s@.skip(a as int));
    }
    let mut b: usize = n;
    while b > a && is_space_char(s.get_char(b - 1))
        invariant
            a <= b <= n,
            n == s@.len(),
            spec_trim_start(s@) == s@.skip(a as int),
            spec_trim_end(s@.skip(a as int)) == spec_trim_end(s@.subrange(a as int, b as int)),
        decreases b,
    {
        proof {
            let u = s@.subrange(a as int, b as int);
            assert(u[u.len() - 1] == s@[b - 1]);
            assert(u.take(u.len() - 1) =~= s@.subrange(a as int, b - 1));
        }
        b = b - 1;
    }
    proof {
        assert(s@.skip(a as int) =~= s@.subrange(a as int, n as int));
        assert(spec_trim_end(s@.subrange(a as int, b as int)) =~= s@.subrange(
            a as int,
            b as int,
        ));
    }
    let r = s.substring_char(a, b).to_owned();
    r
}

/// Escapes `s` for use inside a stream-edit delete pattern.
pub fn escape_pattern(s: &str) -> (r: String)
    ensures
        r@ == spec_escape(s@),
{
    let n = s.unicode_len();
    let mut out = String::new();
    let mut i: usize = 0;
    proof {
        assert(s@.skip(0) =~= s@);
        assert(out@ + spec_escape(s@) =~= spec_escape(s@));
    }
    while i < n
        invariant
            0 <= i <= n,
            n == s@.len(),
            out@ + spec_escape(s@.skip(i as int)) == spec_escape(s@),
        decreases n - i,
    {
        let c = s.get_char(i);
        proof {
            assert(s@.skip(i as int)[0] == s@[i as int]);
            assert(s@.skip(i as int).skip(1) =~= s@.skip(i + 1));
        }
        if c == '/' {
            out.push('\\');
            out.push('/');
            proof {
                assert(out@ + spec_escape(s@.skip(i + 1)) =~= spec_escape(s@));
            }
        } else {
            out.push(c);
            proof {
                assert(out@ + spec_escape(s@.skip(i + 1)) =~= spec_escape(s@));
            }
        }
        i = i + 1;
    }
    proof {
        assert(s@.skip(n as int) =~= Seq::<char>::empty());
        assert(out@ + spec_escape(s@.skip(n as int)) =~= out@);
    }
    out
}

/// Reads an escaped pattern back into the key text it stands for.
pub fn unescape_pattern(s: &str) -> (r: String)
    ensures
        r@ == spec_unescape(s@),
{
    let n = s.unicode_len();
    let mut out = String::new();
    let mut i: usize = 0;
    proof {
        assert(s@.skip(0) =~= s@);
        assert(out@ + spec_unescape(s@) =~= spec_unescape(s@));
    }
    while i < n
        invariant
            0 <= i <= n,
            n == s@.len(),
            out@ + spec_unescape(s@.skip(i as int)) == spec_unescape(s@),
        decreases n - i,
    {
        proof {
            assert(s@.skip(i as int)[0] == s@[i as int]);
            if i + 1 < n {
                assert(s@.skip(i as int)[1] == s@[i + 1]);
            }
            assert(s@.skip(i as int).skip(1) =~= s@.skip(i + 1));
        }
        let c = s.get_char(i);
        if c == '\\' && i + 1 < n && s.get_char(i + 1) == '/' {
            out.push('/');
            proof {
                assert(s@.skip(i as int).skip(2) =~= s@.skip(i + 2));
                assert(out@ + spec_unescape(s@.skip(i + 2)) =~= spec_unescape(s@));
            }
            i = i + 2;
        } else {
            out.push(c);
            proof {
                assert(out@ + spec_unescape(s@.skip(i + 1)) =~= spec_unescape(s@));
            }
            i = i + 1;
        }
    }
    proof {
        assert(s@.skip(n as int) =~= Seq::<char>::empty());
        assert(out@ + spec_unescape(s@.skip(n as int)) =~= out@);
    }
    out
}

} // verus!
