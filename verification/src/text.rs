use vstd::prelude::*;
use vstd::string::StringExecFns;
use vstd::utf8::*;

verus! {

/// The characters of a string slice, in order.
pub fn str_chars(s: &str) -> (v: Vec<char>)
    ensures
        v@ == s@,
{
    let mut v: Vec<char> = Vec::new();
    for c in it: s.chars()
        invariant
            v@ == it.seq().take(it.index() as int),
    {
        v.push(c);
    }
    v
}

/// Whether two string slices hold the same characters.
pub fn str_eq(a: &str, b: &str) -> (r: bool)
    ensures
        r == (a@ == b@),
{
    let x = a.as_bytes();
    let y = b.as_bytes();
    proof {
        encode_utf8_decode_utf8(a@);
        encode_utf8_decode_utf8(b@);
    }
    if x.len() != y.len() {
        return false;
    }
    let mut i: usize = 0;
    while i < x.len()
        invariant
            x@ == encode_utf8(a@),
            y@ == encode_utf8(b@),
            x@.len() == y@.len(),
            i <= x@.len(),
            forall|k: int| 0 <= k < i ==> x@[k] == y@[k],
        decreases x@.len() - i,
    {
        if x[i] != y[i] {
            return false;
        }
        i = i + 1;
    }
    proof {
        assert(x@ =~= y@);
    }
    true
}

/// The concatenation of two string slices.
pub fn concat(a: &str, b: &str) -> (r: String)
    ensures
        r@ == a@ + b@,
{
    let mut r = String::from_str(a);
    r.append(b);
    r
}

/// An owned copy of a string slice.
pub fn owned(a: &str) -> (r: String)
    ensures
        r@ == a@,
{
    String::from_str(a)
}

// ---------------------------------------------------------------------------
// UTF-16
// ---------------------------------------------------------------------------

/// The UTF-16 code units of one character: the code point itself below
/// `0x10000`, a surrogate pair above.
pub open spec fn utf16_units(c: char) -> Seq<u16> {
    let n = c as u32;
    if n < 0x10000 {
        seq![n as u16]
    } else {
        seq![(0xD800 + (n - 0x10000) / 1024) as u16, (0xDC00 + (n - 0x10000) % 1024) as u16]
    }
}

/// The UTF-16 encoding of a character sequence.
pub open spec fn utf16_encoded(s: Seq<char>) -> Seq<u16>
    decreases s.len(),
{
    if s.len() == 0 {
        Seq::empty()
    } else {
        utf16_encoded(s.drop_last()) + utf16_units(s.last())
    }
}

/// The character with code point `v`.
pub open spec fn char_of(v: int) -> char {
    (v as u32) as char
}

/// Standard UTF-16 decoding: a unit outside `0xD800..=0xDFFF` stands for
/// itself, a high surrogate followed by a low surrogate stands for the
/// supplementary character they encode, and anything else (a lone or
/// misplaced surrogate) makes the decoding fail.
pub open spec fn utf16_decoded(u: Seq<u16>) -> Option<Seq<char>>
    decreases u.len(),
{
    if u.len() == 0 {
        Some(Seq::empty())
    } else if u[0] < 0xD800 || u[0] > 0xDFFF {
        match utf16_decoded(u.drop_first()) {
            Some(rest) => Some(seq![char_of(u[0] as int)] + rest),
            None => None,
        }
    } else if u[0] <= 0xDBFF && u.len() >= 2 && 0xDC00 <= u[1] <= 0xDFFF {
        match utf16_decoded(u.skip(2)) {
            Some(rest) => Some(
                seq![char_of(0x10000 + (u[0] - 0xD800) * 1024 + (u[1] - 0xDC00))] + rest,
            ),
            None => None,
        }
    } else {
        None
    }
}

/// Decoding two well-formed pieces one after the other decodes each.
proof fn lemma_utf16_decode_concat(a: Seq<u16>, b: Seq<u16>)
    requires
        utf16_decoded(a) is Some,
        utf16_decoded(b) is Some,
    ensures
        utf16_decoded(a + b) == Some(utf16_decoded(a).unwrap() + utf16_decoded(b).unwrap()),
    decreases a.len(),
{
    let ab = a + b;
    if a.len() == 0 {
        assert(ab =~= b);
        assert(utf16_decoded(a).unwrap() + utf16_decoded(b).unwrap() =~= utf16_decoded(b).unwrap());
    } else if a[0] < 0xD800 || a[0] > 0xDFFF {
        assert(ab[0] == a[0]);
        assert(ab.drop_first() =~= a.drop_first() + b);
        lemma_utf16_decode_concat(a.drop_first(), b);
        let x = utf16_decoded(a.drop_first()).unwrap();
        let y = utf16_decoded(b).unwrap();
        assert(seq![char_of(a[0] as int)] + (x + y) =~= (seq![char_of(a[0] as int)] + x) + y);
    } else {
        assert(a.len() >= 2);
        assert(ab[0] == a[0] && ab[1] == a[1]);
        assert(ab.skip(2) =~= a.skip(2) + b);
        lemma_utf16_decode_concat(a.skip(2), b);
        let c = char_of(0x10000 + (a[0] - 0xD800) * 1024 + (a[1] - 0xDC00));
        let x = utf16_decoded(a.skip(2)).unwrap();
        let y = utf16_decoded(b).unwrap();
        assert(seq![c] + (x + y) =~= (seq![c] + x) + y);
    }
}

/// The units of one character decode to that character.
proof fn lemma_utf16_units_decode(c: char)
    ensures
        utf16_decoded(utf16_units(c)) == Some(seq![c]),
{
    let n: u32 = c as u32;
    char_is_scalar(c);
    char_u32_cast(c, n);
    let u = utf16_units(c);
    reveal_with_fuel(utf16_decoded, 2);
    assert(utf16_decoded(Seq::<u16>::empty()) == Some(Seq::<char>::empty()));
    if n < 0x10000 {
        assert(u.len() == 1);
        assert((n as u16) as u32 == n);
        assert(u[0] as int == n as int);
        assert(u.drop_first() =~= Seq::<u16>::empty());
        assert(u[0] < 0xD800 || u[0] > 0xDFFF);
        assert(char_of(u[0] as int) == c);
        assert(seq![char_of(u[0] as int)] + Seq::<char>::empty() =~= seq![c]);
        assert(utf16_decoded(u) == Some(seq![c]));
    } else {
        let m = n - 0x10000;
        assert(m < 0x100000);
        assert(m / 1024 < 1024);
        assert(u[0] as int == 0xD800 + m / 1024);
        assert(u[1] as int == 0xDC00 + m % 1024);
        assert((m / 1024) * 1024 + m % 1024 == m) by (nonlinear_arith)
            requires
                m >= 0,
        ;
        assert(0x10000 + (u[0] - 0xD800) * 1024 + (u[1] - 0xDC00) == n);
        assert(u.skip(2) =~= Seq::<u16>::empty());
        assert(char_of(n as int) == c);
        assert(u[0] >= 0xD800 && u[0] <= 0xDBFF && 0xDC00 <= u[1] <= 0xDFFF);
        assert(seq![c] + Seq::<char>::empty() =~= seq![c]);
        assert(utf16_decoded(u) == Some(seq![c]));
    }
}

/// Decoding the UTF-16 encoding of a text gives back the text.
pub proof fn lemma_utf16_roundtrip(s: Seq<char>)
    ensures
        utf16_decoded(utf16_encoded(s)) == Some(s),
    decreases s.len(),
{
    if s.len() > 0 {
        lemma_utf16_roundtrip(s.drop_last());
        lemma_utf16_units_decode(s.last());
        lemma_utf16_decode_concat(utf16_encoded(s.drop_last()), utf16_units(s.last()));
        assert(s.drop_last() + seq![s.last()] =~= s);
    }
}

/// Only a NUL character encodes to a zero unit, so the terminating zero of
/// `to_utf16` is the first zero when the text holds no NUL: wide-string
/// readers see the whole text.
pub proof fn lemma_utf16_zero_free(s: Seq<char>)
    requires
        forall|i: int| 0 <= i < s.len() ==> (#[trigger] s[i]) as u32 != 0,
    ensures
        forall|k: int| 0 <= k < utf16_encoded(s).len() ==> #[trigger] utf16_encoded(s)[k] != 0,
    decreases s.len(),
{
    if s.len() > 0 {
        let init = s.drop_last();
        assert forall|i: int| 0 <= i < init.len() implies (#[trigger] init[i]) as u32 != 0 by {
            assert(init[i] == s[i]);
        }
        lemma_utf16_zero_free(init);
        let c = s.last();
        assert(c as u32 != 0);
        let e = utf16_encoded(s);
        let a = utf16_encoded(init);
        let u = utf16_units(c);
        assert(e == a + u);
        assert forall|k: int| 0 <= k < e.len() implies #[trigger] e[k] != 0 by {
            if k >= a.len() {
                assert(e[k] == u[k - a.len()]);
                let n: u32 = c as u32;
                char_is_scalar(c);
                assert(n <= 0x10FFFF);
                if n < 0x10000 {
                    assert(n as u16 != 0) by (bit_vector)
                        requires
                            n != 0,
                            n < 0x10000,
                    ;
                }
            } else {
                assert(e[k] == a[k]);
            }
        }
    }
}

/// The UTF-16 encoding of `s` followed by a terminating zero unit, as the
/// wide-string APIs of the window system expect.
pub fn to_utf16(s: &str) -> (units: Vec<u16>)
    ensures
        units@ == utf16_encoded(s@).push(0u16),
        utf16_decoded(units@.drop_last()) == Some(s@),
{
    let chars = crate::text::str_chars(s);
    let mut units: Vec<u16> = Vec::new();
    let mut i: usize = 0;
    while i < chars.len()
        invariant
            chars@ == s@,
            i <= chars@.len(),
            units@ == utf16_encoded(chars@.take(i as int)),
        decreases chars@.len() - i,
    {
        let c = chars[i];
        let n = c as u32;
        if n < 0x10000 {
            units.push(n as u16);
        } else {
            let m = n - 0x10000;
            units.push((0xD800 + m / 1024) as u16);
            units.push((0xDC00 + m % 1024) as u16);
        }
        proof {
            assert(chars@.take(i + 1).drop_last() =~= chars@.take(i as int));
        }
        i = i + 1;
    }
    proof {
        assert(chars@.take(chars@.len() as int) =~= chars@);
    }
    units.push(0u16);
    proof {
        assert(units@.drop_last() =~= utf16_encoded(s@));
        lemma_utf16_roundtrip(s@);
    }
    units
}

// ---------------------------------------------------------------------------
// Trimming
// ---------------------------------------------------------------------------

/// The characters with the Unicode `White_Space` property, which std's
/// `char::is_whitespace` and `str::trim` go by: tab, line feed, vertical
/// tab, form feed, carriage return, space, next line, no-break space, ogham
/// space mark, the spaces U+2000 to U+200A, line and paragraph separators,
/// narrow no-break space, medium mathematical space and ideographic space.
pub open spec fn white_space(c: char) -> bool {
    let n = c as u32;
    ||| 0x09 <= n <= 0x0D
    ||| n == 0x20
    ||| n == 0x85
    ||| n == 0xA0
    ||| n == 0x1680
    ||| 0x2000 <= n <= 0x200A
    ||| n == 0x2028
    ||| n == 0x2029
    ||| n == 0x202F
    ||| n == 0x205F
    ||| n == 0x3000
}

/// `t` is `s` with its leading and trailing white space removed.
pub open spec fn trim_of(s: Seq<char>, t: Seq<char>) -> bool {
    exists|i: int, j: int|
        #![trigger s.subrange(i, j)]
        {
            &&& 0 <= i <= j <= s.len()
            &&& t == s.subrange(i, j)
            &&& forall|k: int| 0 <= k < i ==> white_space(#[trigger] s[k])
            &&& forall|k: int| j <= k < s.len() ==> white_space(#[trigger] s[k])
            &&& i < j ==> !white_space(s[i]) && !white_space(s[j - 1])
        }
}

/// A string has one trimmed form.
pub proof fn lemma_trim_unique(s: Seq<char>, t1: Seq<char>, t2: Seq<char>)
    requires
        trim_of(s, t1),
        trim_of(s, t2),
    ensures
        t1 == t2,
{
    let (i1, j1) = choose|i: int, j: int|
        #![trigger s.subrange(i, j)]
        {
            &&& 0 <= i <= j <= s.len()
            &&& t1 == s.subrange(i, j)
            &&& forall|k: int| 0 <= k < i ==> white_space(#[trigger] s[k])
            &&& forall|k: int| j <= k < s.len() ==> white_space(#[trigger] s[k])
            &&& i < j ==> !white_space(s[i]) && !white_space(s[j - 1])
        };
    let (i2, j2) = choose|i: int, j: int|
        #![trigger s.subrange(i, j)]
        {
            &&& 0 <= i <= j <= s.len()
            &&& t2 == s.subrange(i, j)
            &&& forall|k: int| 0 <= k < i ==> white_space(#[trigger] s[k])
            &&& forall|k: int| j <= k < s.len() ==> white_space(#[trigger] s[k])
            &&& i < j ==> !white_space(s[i]) && !white_space(s[j - 1])
        };
    if i1 < j1 && i2 < j2 {
        if i1 < i2 {
            assert(white_space(s[i1]));
        } else if i2 < i1 {
            assert(white_space(s[i2]));
        }
        if j1 < j2 {
            assert(white_space(s[j2 - 1]));
        } else if j2 < j1 {
            assert(white_space(s[j1 - 1]));
        }
    } else if i1 < j1 {
        // t2 is empty, so every character is white space
        if i2 <= i1 {
            assert(white_space(s[i1]));
        } else {
            assert(white_space(s[i1]));
        }
    } else if i2 < j2 {
        assert(white_space(s[i2]));
    }
    assert(t1 =~= t2);
}

/// Text wrapped in white space trims to the text itself, when the text
/// neither starts nor ends with white space.
pub proof fn lemma_trim_padded(pre: Seq<char>, t: Seq<char>, post: Seq<char>)
    requires
        forall|k: int| 0 <= k < pre.len() ==> white_space(#[trigger] pre[k]),
        forall|k: int| 0 <= k < post.len() ==> white_space(#[trigger] post[k]),
        t.len() > 0 ==> !white_space(t[0]) && !white_space(t.last()),
    ensures
        trim_of(pre + t + post, t),
        forall|u: Seq<char>| trim_of(pre + t + post, u) ==> u == t,
{
    let s = pre + t + post;
    let i = pre.len() as int;
    let j = (pre.len() + t.len()) as int;
    assert(s.subrange(i, j) =~= t);
    assert forall|k: int| 0 <= k < i implies white_space(#[trigger] s[k]) by {
        assert(s[k] == pre[k]);
    }
    assert forall|k: int| j <= k < s.len() implies white_space(#[trigger] s[k]) by {
        assert(s[k] == post[k - j]);
    }
    if i < j {
        assert(s[i] == t[0]);
        assert(s[j - 1] == t.last());
    }
    assert(trim_of(s, t));
    assert forall|u: Seq<char>| trim_of(s, u) implies u == t by {
        lemma_trim_unique(s, u, t);
    }
}

/// Calls std's `str::trim`. Trusted: its documentation says that it returns
/// the slice with leading and trailing white space removed, white space
/// being the characters with the Unicode `White_Space` property, the set
/// that `white_space` lists.
#[verifier::external_body]
pub(crate) fn trim_white_space(s: &str) -> (t: &str)
    ensures
        exists|i: int, j: int|
            #![trigger s@.subrange(i, j)]
            {
                &&& 0 <= i <= j <= s@.len()
                &&& t@ == s@.subrange(i, j)
                &&& forall|k: int| 0 <= k < i ==> white_space(#[trigger] s@[k])
                &&& forall|k: int| j <= k < s@.len() ==> white_space(#[trigger] s@[k])
                &&& i < j ==> !white_space(s@[i]) && !white_space(s@[j - 1])
            },
{
    s.trim()
}

} // verus!
