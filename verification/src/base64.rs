use vstd::prelude::*;

use crate::text::str_chars;

verus! {

// ---------------------------------------------------------------------------
// Specification
// ---------------------------------------------------------------------------

/// The value of `c` in the standard base64 alphabet
/// `A-Z a-z 0-9 + /`, or `None` when `c` is not part of it.
pub open spec fn sextet_value(c: char) -> Option<u8> {
    let n = c as u32;
    if 65 <= n <= 90 {
        Some((n - 65) as u8)
    } else if 97 <= n <= 122 {
        Some((n - 71) as u8)
    } else if 48 <= n <= 57 {
        Some((n + 4) as u8)
    } else if n == 43 {
        Some(62u8)
    } else if n == 47 {
        Some(63u8)
    } else {
        None
    }
}

/// The character that stands for the 6-bit value `v` in the standard alphabet.
pub open spec fn alphabet_char(v: u8) -> char
    recommends
        v < 64,
{
    if v < 26 {
        (v + 65) as char
    } else if v < 52 {
        (v + 71) as char
    } else if v < 62 {
        (v - 4) as char
    } else if v == 62 {
        '+'
    } else {
        '/'
    }
}

/// `s` without its trailing `=` characters.
pub open spec fn strip_padding(s: Seq<char>) -> Seq<char>
    decreases s.len(),
{
    if s.len() > 0 && s.last() == '=' {
        strip_padding(s.drop_last())
    } else {
        s
    }
}

/// Every character of `s` belongs to the base64 alphabet.
pub open spec fn all_in_alphabet(s: Seq<char>) -> bool {
    forall|i: int| 0 <= i < s.len() ==> (#[trigger] sextet_value(s[i])) is Some
}

/// The 6-bit values of the characters of `s`.
pub open spec fn sextets(s: Seq<char>) -> Seq<u8> {
    s.map_values(|c: char| sextet_value(c).unwrap())
}

/// First byte of a group: all six bits of `a`, the high two bits of `b`.
pub open spec fn first_byte(a: u8, b: u8) -> u8 {
    (a * 4 + b / 16) as u8
}

/// Second byte of a group: the low four bits of `b`, the high four bits of `c`.
pub open spec fn second_byte(b: u8, c: u8) -> u8 {
    ((b % 16) * 16 + c / 4) as u8
}

/// Third byte of a group: the low two bits of `c`, all six bits of `d`.
pub open spec fn third_byte(c: u8, d: u8) -> u8 {
    ((c % 4) * 64 + d) as u8
}

/// Bytes encoded by a sequence of 6-bit values: each group of four values
/// gives three bytes; a final group of three gives two bytes, of two gives
/// one byte, and a single left-over value gives none.
pub open spec fn decode_sextets(v: Seq<u8>) -> Seq<u8>
    decreases v.len(),
{
    if v.len() < 2 {
        Seq::empty()
    } else if v.len() == 2 {
        seq![first_byte(v[0], v[1])]
    } else if v.len() == 3 {
        seq![first_byte(v[0], v[1]), second_byte(v[1], v[2])]
    } else {
        seq![first_byte(v[0], v[1]), second_byte(v[1], v[2]), third_byte(v[2], v[3])]
            + decode_sextets(v.skip(4))
    }
}

/// What decoding the text `s` gives: `None` when, after its trailing `=`
/// are removed, a character outside the alphabet remains.
pub open spec fn base64_decoded(s: Seq<char>) -> Option<Seq<u8>> {
    let body = strip_padding(s);
    if all_in_alphabet(body) {
        Some(decode_sextets(sextets(body)))
    } else {
        None
    }
}

/// Standard base64 encoding of `b`, padded with `=` to a multiple of four
/// characters.
pub open spec fn base64_encoded(b: Seq<u8>) -> Seq<char>
    decreases b.len(),
{
    if b.len() == 0 {
        Seq::empty()
    } else if b.len() == 1 {
        seq![alphabet_char(b[0] / 4), alphabet_char(((b[0] % 4) * 16) as u8), '=', '=']
    } else if b.len() == 2 {
        seq![
            alphabet_char(b[0] / 4),
            alphabet_char(((b[0] % 4) * 16 + b[1] / 16) as u8),
            alphabet_char(((b[1] % 16) * 4) as u8),
            '=',
        ]
    } else {
        seq![
            alphabet_char(b[0] / 4),
            alphabet_char(((b[0] % 4) * 16 + b[1] / 16) as u8),
            alphabet_char(((b[1] % 16) * 4 + b[2] / 64) as u8),
            alphabet_char(b[2] % 64),
        ] + base64_encoded(b.skip(3))
    }
}

// ---------------------------------------------------------------------------
// Lemmas
// ---------------------------------------------------------------------------

/// The bytes that one more value `x` after the values `s` adds to the decoding.
pub open spec fn decode_step(s: Seq<u8>, x: u8) -> Seq<u8> {
    if s.len() % 4 == 0 {
        Seq::empty()
    } else if s.len() % 4 == 1 {
        seq![first_byte(s.last(), x)]
    } else if s.len() % 4 == 2 {
        seq![second_byte(s.last(), x)]
    } else {
        seq![third_byte(s.last(), x)]
    }
}

proof fn lemma_decode_push(s: Seq<u8>, x: u8)
    ensures
        decode_sextets(s.push(x)) == decode_sextets(s) + decode_step(s, x),
    decreases s.len(),
{
    if s.len() < 4 {
        reveal_with_fuel(decode_sextets, 2);
        if s.len() == 3 {
            assert(s.push(x).skip(4) =~= Seq::<u8>::empty());
            assert(decode_sextets(s.push(x)) =~= decode_sextets(s) + decode_step(s, x));
        } else if s.len() == 2 {
            assert(decode_sextets(s.push(x)) =~= decode_sextets(s) + decode_step(s, x));
        } else if s.len() == 1 {
            assert(decode_sextets(s.push(x)) =~= decode_sextets(s) + decode_step(s, x));
        } else {
            assert(decode_sextets(s.push(x)) =~= decode_sextets(s) + decode_step(s, x));
        }
    } else {
        let t = s.skip(4);
        assert(s.push(x).skip(4) =~= t.push(x));
        lemma_decode_push(t, x);
        if t.len() > 0 {
            assert(t.last() == s.last());
        }
        assert(decode_step(t, x) == decode_step(s, x));
        assert(decode_sextets(s.push(x)) =~= decode_sextets(s) + decode_step(s, x));
    }
}

proof fn lemma_strip_padding_exact(s: Seq<char>)
    requires
        s.len() == 0 || s.last() != '=',
    ensures
        strip_padding(s) == s,
{
}

proof fn lemma_sextet_of_alphabet(v: u8)
    requires
        v < 64,
    ensures
        sextet_value(alphabet_char(v)) == Some(v),
        alphabet_char(v) != '=',
{
}

/// Shifting the previous value into the buffer and taking the top byte gives
/// the bytes of `decode_sextets`.
proof fn lemma_bits_first(a: u32, x: u32)
    requires
        a < 64,
        x < 64,
    ensures
        ((a << 6u32) | x) >> 4u32 == a * 4 + x / 16,
        ((a << 6u32) | x) & 15u32 == x % 16,
        a * 4 + x / 16 < 256,
{
    assert(((a << 6u32) | x) >> 4u32 == a * 4 + x / 16) by (bit_vector)
        requires
            a < 64,
            x < 64,
    ;
    assert(((a << 6u32) | x) & 15u32 == x % 16) by (bit_vector)
        requires
            a < 64,
            x < 64,
    ;
}

proof fn lemma_bits_second(b: u32, x: u32)
    requires
        b < 16,
        x < 64,
    ensures
        ((b << 6u32) | x) >> 2u32 == b * 16 + x / 4,
        ((b << 6u32) | x) & 3u32 == x % 4,
        b * 16 + x / 4 < 256,
{
    assert(((b << 6u32) | x) >> 2u32 == b * 16 + x / 4) by (bit_vector)
        requires
            b < 16,
            x < 64,
    ;
    assert(((b << 6u32) | x) & 3u32 == x % 4) by (bit_vector)
        requires
            b < 16,
            x < 64,
    ;
}

proof fn lemma_bits_third(c: u32, x: u32)
    requires
        c < 4,
        x < 64,
    ensures
        ((c << 6u32) | x) >> 0u32 == c * 64 + x,
        ((c << 6u32) | x) & 0u32 == 0,
        c * 64 + x < 256,
{
    assert(((c << 6u32) | x) >> 0u32 == c * 64 + x) by (bit_vector)
        requires
            c < 4,
            x < 64,
    ;
    assert(((c << 6u32) | x) & 0u32 == 0) by (bit_vector);
}

proof fn lemma_low_masks()
    ensures
        (1u32 << 4u32) - 1 == 15,
        (1u32 << 2u32) - 1 == 3,
        (1u32 << 0u32) - 1 == 0,
{
    assert((1u32 << 4u32) - 1 == 15) by (bit_vector);
    assert((1u32 << 2u32) - 1 == 3) by (bit_vector);
    assert((1u32 << 0u32) - 1 == 0) by (bit_vector);
}

proof fn lemma_bits_start(x: u32)
    requires
        x < 64,
    ensures
        ((0u32 << 6u32) | x) == x,
{
    assert(((0u32 << 6u32) | x) == x) by (bit_vector);
}

/// Decoding what `base64_encoded` produces gives back the bytes.
pub proof fn lemma_base64_roundtrip(b: Seq<u8>)
    ensures
        base64_decoded(base64_encoded(b)) == Some(b),
{
    lemma_encoded_body(b);
    let body = strip_padding(base64_encoded(b));
    assert(all_in_alphabet(body));
}

/// The unpadded part of an encoding: the alphabet characters of the values
/// that `encoded_values` lists.
pub open spec fn encoded_values(b: Seq<u8>) -> Seq<u8>
    decreases b.len(),
{
    if b.len() == 0 {
        Seq::empty()
    } else if b.len() == 1 {
        seq![b[0] / 4, ((b[0] % 4) * 16) as u8]
    } else if b.len() == 2 {
        seq![b[0] / 4, ((b[0] % 4) * 16 + b[1] / 16) as u8, ((b[1] % 16) * 4) as u8]
    } else {
        seq![
            b[0] / 4,
            ((b[0] % 4) * 16 + b[1] / 16) as u8,
            ((b[1] % 16) * 4 + b[2] / 64) as u8,
            b[2] % 64,
        ] + encoded_values(b.skip(3))
    }
}

proof fn lemma_encoded_values_small(b: Seq<u8>)
    ensures
        forall|i: int| 0 <= i < encoded_values(b).len() ==> #[trigger] encoded_values(b)[i] < 64,
        decode_sextets(encoded_values(b)) == b,
    decreases b.len(),
{
    let v = encoded_values(b);
    if b.len() == 0 {
    } else if b.len() == 1 {
        let b0 = b[0];
        assert((b0 / 4) * 4 + ((b0 % 4) * 16) / 16 == b0) by (nonlinear_arith);
        assert(decode_sextets(v) =~= b);
    } else if b.len() == 2 {
        let b0 = b[0];
        let b1 = b[1];
        lemma_pair_roundtrip(b0, b1);
        assert(decode_sextets(v) =~= b);
    } else {
        let b0 = b[0];
        let b1 = b[1];
        let b2 = b[2];
        lemma_triple_roundtrip(b0, b1, b2);
        lemma_encoded_values_small(b.skip(3));
        let head = seq![
            b0 / 4,
            ((b0 % 4) * 16 + b1 / 16) as u8,
            ((b1 % 16) * 4 + b2 / 64) as u8,
            b2 % 64,
        ];
        assert(v =~= head + encoded_values(b.skip(3)));
        assert(v.skip(4) =~= encoded_values(b.skip(3)));
        assert(decode_sextets(v) =~= b);
    }
}

proof fn lemma_pair_roundtrip(b0: u8, b1: u8)
    ensures
        ((b0 % 4) * 16 + b1 / 16) < 64,
        first_byte(b0 / 4, ((b0 % 4) * 16 + b1 / 16) as u8) == b0,
        second_byte(((b0 % 4) * 16 + b1 / 16) as u8, ((b1 % 16) * 4) as u8) == b1,
{
    assert(((b0 % 4) * 16 + b1 / 16) < 64) by (bit_vector);
    assert(((b0 / 4) * 4 + (((b0 % 4) * 16 + b1 / 16) as u8) / 16) == b0) by (bit_vector);
    assert((((((b0 % 4) * 16 + b1 / 16) as u8) % 16) * 16 + ((b1 % 16) * 4) / 4) == b1)
        by (bit_vector);
}

proof fn lemma_triple_roundtrip(b0: u8, b1: u8, b2: u8)
    ensures
        ((b0 % 4) * 16 + b1 / 16) < 64,
        ((b1 % 16) * 4 + b2 / 64) < 64,
        first_byte(b0 / 4, ((b0 % 4) * 16 + b1 / 16) as u8) == b0,
        second_byte(((b0 % 4) * 16 + b1 / 16) as u8, ((b1 % 16) * 4 + b2 / 64) as u8) == b1,
        third_byte(((b1 % 16) * 4 + b2 / 64) as u8, b2 % 64) == b2,
{
    lemma_pair_roundtrip(b0, b1);
    assert(((b1 % 16) * 4 + b2 / 64) < 64) by (bit_vector);
    assert((((((b0 % 4) * 16 + b1 / 16) as u8) % 16) * 16 + (((b1 % 16) * 4 + b2 / 64) as u8)
        / 4) == b1) by (bit_vector);
    assert((((((b1 % 16) * 4 + b2 / 64) as u8) % 4) * 64 + b2 % 64) == b2) by (bit_vector);
}

proof fn lemma_encoded_body(b: Seq<u8>)
    ensures
        strip_padding(base64_encoded(b)) == encoded_values(b).map_values(
            |v: u8| alphabet_char(v),
        ),
        all_in_alphabet(strip_padding(base64_encoded(b))),
        sextets(strip_padding(base64_encoded(b))) == encoded_values(b),
        decode_sextets(encoded_values(b)) == b,
{
    lemma_encoded_values_small(b);
    lemma_encoded_split(b);
    let v = encoded_values(b);
    let chars = v.map_values(|x: u8| alphabet_char(x));
    assert forall|i: int| 0 <= i < chars.len() implies #[trigger] sextet_value(chars[i]) == Some(
        v[i],
    ) by {
        assert(v[i] < 64);
        lemma_sextet_of_alphabet(v[i]);
    }
    if chars.len() > 0 {
        assert(v[chars.len() - 1] < 64);
        lemma_sextet_of_alphabet(v[chars.len() - 1]);
    }
    lemma_strip_pads(chars, (base64_encoded(b).len() - chars.len()) as nat);
    assert(sextets(chars) =~= v);
}

/// An encoding is its value characters followed by `=` characters only.
proof fn lemma_encoded_split(b: Seq<u8>)
    ensures
        base64_encoded(b) == encoded_values(b).map_values(|v: u8| alphabet_char(v)) + Seq::new(
            (base64_encoded(b).len() - encoded_values(b).len()) as nat,
            |i: int| '=',
        ),
        base64_encoded(b).len() >= encoded_values(b).len(),
        b.len() >= 3 ==> base64_encoded(b).len() == encoded_values(b).len() + base64_encoded(
            b.skip(3),
        ).len() - encoded_values(b.skip(3)).len(),
    decreases b.len(),
{
    let v = encoded_values(b);
    let e = base64_encoded(b);
    if b.len() == 0 {
        assert(e =~= v.map_values(|x: u8| alphabet_char(x)) + Seq::new(0, |i: int| '='));
    } else if b.len() == 1 {
        assert(e =~= v.map_values(|x: u8| alphabet_char(x)) + Seq::new(2, |i: int| '='));
    } else if b.len() == 2 {
        assert(e =~= v.map_values(|x: u8| alphabet_char(x)) + Seq::new(1, |i: int| '='));
    } else {
        lemma_encoded_split(b.skip(3));
        let rest_v = encoded_values(b.skip(3));
        let rest_e = base64_encoded(b.skip(3));
        let pads = (rest_e.len() - rest_v.len()) as nat;
        assert(e.len() == 4 + rest_e.len());
        assert(v.len() == 4 + rest_v.len());
        assert(e =~= v.map_values(|x: u8| alphabet_char(x)) + Seq::new(pads, |i: int| '='));
    }
}

proof fn lemma_strip_pads(chars: Seq<char>, n: nat)
    requires
        chars.len() == 0 || chars.last() != '=',
    ensures
        strip_padding(chars + Seq::new(n, |i: int| '=')) == chars,
    decreases n,
{
    let s = chars + Seq::new(n, |i: int| '=');
    if n == 0 {
        assert(s =~= chars);
    } else {
        assert(s.drop_last() =~= chars + Seq::new((n - 1) as nat, |i: int| '='));
        lemma_strip_pads(chars, (n - 1) as nat);
    }
}

// ---------------------------------------------------------------------------
// Implementation
// ---------------------------------------------------------------------------

fn sextet_of(c: char) -> (r: Option<u8>)
    ensures
        r == sextet_value(c),
{
    let n = c as u32;
    if 65 <= n && n <= 90 {
        Some((n - 65) as u8)
    } else if 97 <= n && n <= 122 {
        Some((n - 71) as u8)
    } else if 48 <= n && n <= 57 {
        Some((n + 4) as u8)
    } else if n == 43 {
        Some(62u8)
    } else if n == 47 {
        Some(63u8)
    } else {
        None
    }
}

/// Decodes standard base64 text. Trailing `=` characters are ignored; any
/// other character outside the alphabet makes the decoding fail. Bits left
/// over after the last full byte are dropped.
pub fn base64_decode(input: &str) -> (r: Result<Vec<u8>, ()>)
    ensures
        match r {
            Ok(bytes) => base64_decoded(input@) == Some(bytes@),
            Err(()) => base64_decoded(input@) is None,
        },
{
    let chars = str_chars(input);
    let mut end: usize = chars.len();
    assert(chars@.take(end as int) =~= chars@);
    while end > 0 && chars[end - 1] == '='
        invariant
            end <= chars@.len(),
            strip_padding(chars@) == strip_padding(chars@.take(end as int)),
        decreases end,
    {
        assert(chars@.take(end as int).drop_last() =~= chars@.take(end - 1));
        end = end - 1;
    }
    let ghost body = chars@.take(end as int);
    proof {
        lemma_strip_padding_exact(body);
    }
    let mut output: Vec<u8> = Vec::new();
    let mut buffer: u32 = 0;
    let mut bits: u32 = 0;
    let mut i: usize = 0;
    while i < end
        invariant
            end <= chars@.len(),
            body == chars@.take(end as int),
            strip_padding(input@) == body,
            i <= end,
            all_in_alphabet(body.take(i as int)),
            output@ == decode_sextets(sextets(body.take(i as int))),
            i % 4 == 0 ==> bits == 0 && buffer == 0,
            i % 4 == 1 ==> bits == 6 && buffer == sextets(body)[i - 1],
            i % 4 == 2 ==> bits == 4 && buffer == sextets(body)[i - 1] % 16,
            i % 4 == 3 ==> bits == 2 && buffer == sextets(body)[i - 1] % 4,
        decreases end - i,
    {
        let c = chars[i];
        let val = match sextet_of(c) {
            Some(v) => v,
            None => {
                assert(!all_in_alphabet(body)) by {
                    assert(sextet_value(body[i as int]) is None);
                }
                return Err(());
            },
        };
        let ghost prev = sextets(body.take(i as int));
        proof {
            assert(sextets(body.take(i + 1)) =~= prev.push(val));
            lemma_decode_push(prev, val);
            if i > 0 {
                assert(prev.last() == sextets(body)[i - 1]);
            }
            assert(all_in_alphabet(body.take(i + 1))) by {
                assert forall|k: int| 0 <= k < i + 1 implies (#[trigger] sextet_value(
                    body.take(i + 1)[k],
                )) is Some by {
                    if k < i {
                        assert(body.take(i + 1)[k] == body.take(i as int)[k]);
                    }
                }
            }
            assert(sextets(body)[i as int] == val);
        }
        let x = val as u32;
        proof {
            if i % 4 == 0 {
                lemma_bits_start(x);
            } else if i % 4 == 1 {
                lemma_bits_first(buffer, x);
            } else if i % 4 == 2 {
                lemma_bits_second(buffer, x);
            } else {
                lemma_bits_third(buffer, x);
            }
            lemma_low_masks();
        }
        buffer = (buffer << 6) | x;
        bits = bits + 6;
        if bits >= 8 {
            bits = bits - 8;
            output.push((buffer >> bits) as u8);
            buffer = buffer & ((1u32 << bits) - 1);
        }
        i = i + 1;
    }
    proof {
        assert(body.take(end as int) =~= body);
    }
    Ok(output)
}

} // verus!
