//! The opaque pagination cursor: a fixed-width hexadecimal token carrying
//! the store generation it was issued against and the resume offset.
//! Decoding accepts exactly the tokens encoding produces; anything else
//! is rejected, so a forged or truncated token can never be silently
//! accepted.

use vstd::prelude::*;

verus! {

/// The hexadecimal digit character of a value below sixteen.
pub open spec fn hex_char_of(d: int) -> char {
    if d == 0 {
        '0'
    } else if d == 1 {
        '1'
    } else if d == 2 {
        '2'
    } else if d == 3 {
        '3'
    } else if d == 4 {
        '4'
    } else if d == 5 {
        '5'
    } else if d == 6 {
        '6'
    } else if d == 7 {
        '7'
    } else if d == 8 {
        '8'
    } else if d == 9 {
        '9'
    } else if d == 10 {
        'a'
    } else if d == 11 {
        'b'
    } else if d == 12 {
        'c'
    } else if d == 13 {
        'd'
    } else if d == 14 {
        'e'
    } else {
        'f'
    }
}

/// The value of a hexadecimal digit character; sixteen for any other
/// character.
pub open spec fn hex_val(c: char) -> int {
    if c == '0' {
        0
    } else if c == '1' {
        1
    } else if c == '2' {
        2
    } else if c == '3' {
        3
    } else if c == '4' {
        4
    } else if c == '5' {
        5
    } else if c == '6' {
        6
    } else if c == '7' {
        7
    } else if c == '8' {
        8
    } else if c == '9' {
        9
    } else if c == 'a' {
        10
    } else if c == 'b' {
        11
    } else if c == 'c' {
        12
    } else if c == 'd' {
        13
    } else if c == 'e' {
        14
    } else if c == 'f' {
        15
    } else {
        16
    }
}

/// Sixteen to the `k`.
pub open spec fn pow16(k: nat) -> nat
    decreases k,
{
    if k == 0 {
        1
    } else {
        16 * pow16((k - 1) as nat)
    }
}

/// The hexadecimal rendering of `n`, zero-padded to exactly `width`
/// digits (the low digits of `n` when it does not fit).
pub open spec fn spec_to_hex_pad(n: nat, width: nat) -> Seq<char>
    decreases width,
{
    if width == 0 {
        Seq::<char>::empty()
    } else {
        spec_to_hex_pad(n / 16, (width - 1) as nat).push(hex_char_of((n % 16) as int))
    }
}

/// The value of a sequence of hexadecimal digit characters.
pub open spec fn hex_value(s: Seq<char>) -> nat
    decreases s.len(),
{
    if s.len() == 0 {
        0
    } else {
        hex_value(s.drop_last()) * 16 + (hex_val(s.last()) as nat)
    }
}

/// Every character is a hexadecimal digit.
pub open spec fn is_hex_seq(s: Seq<char>) -> bool {
    forall|i: int| 0 <= i < s.len() ==> hex_val(#[trigger] s[i]) < 16
}

/// The cursor token of a generation and an offset: two sixteen-digit
/// hexadecimal fields.
pub open spec fn spec_cursor_token(generation: nat, offset: nat) -> Seq<char> {
    spec_to_hex_pad(generation, 16) + spec_to_hex_pad(offset, 16)
}

/// What decoding accepts: exactly thirty-two hexadecimal digits, the
/// generation field then the offset field.
pub open spec fn spec_decode(s: Seq<char>) -> Option<(nat, nat)> {
    if s.len() == 32 && is_hex_seq(s) {
        Some((hex_value(s.take(16)), hex_value(s.skip(16))))
    } else {
        None
    }
}

/// A digit of the rendering is a hexadecimal digit.
pub proof fn lemma_hex_char_val(d: int)
    requires
        0 <= d < 16,
    ensures
        hex_val(hex_char_of(d)) == d,
{
}

/// The rendering has the requested width and only hexadecimal digits.
pub proof fn lemma_to_hex_pad_wf(n: nat, width: nat)
    ensures
        spec_to_hex_pad(n, width).len() == width,
        is_hex_seq(spec_to_hex_pad(n, width)),
    decreases width,
{
    if width > 0 {
        lemma_to_hex_pad_wf(n / 16, (width - 1) as nat);
        let pre = spec_to_hex_pad(n / 16, (width - 1) as nat);
        let s = spec_to_hex_pad(n, width);
        lemma_hex_char_val((n % 16) as int);
        assert forall|i: int| 0 <= i < s.len() implies hex_val(#[trigger] s[i]) < 16 by {
            if i < pre.len() {
                assert(s[i] == pre[i]);
            }
        }
    }
}

/// Round trip of the padded rendering: the value below `16^width` it was
/// rendered from.
pub proof fn lemma_to_hex_pad_value(n: nat, width: nat)
    requires
        n < pow16(width),
    ensures
        hex_value(spec_to_hex_pad(n, width)) == n,
    decreases width,
{
    if width == 0 {
    } else {
        assert(pow16(width) == 16 * pow16((width - 1) as nat));
        assert(n / 16 < pow16((width - 1) as nat)) by (nonlinear_arith)
            requires
                n < 16 * pow16((width - 1) as nat),
        ;
        lemma_to_hex_pad_value(n / 16, (width - 1) as nat);
        let pre = spec_to_hex_pad(n / 16, (width - 1) as nat);
        let s = spec_to_hex_pad(n, width);
        lemma_to_hex_pad_wf(n / 16, (width - 1) as nat);
        assert(s.drop_last() =~= pre);
        lemma_hex_char_val((n % 16) as int);
        assert(hex_value(s) == (n / 16) * 16 + n % 16);
        assert((n / 16) * 16 + n % 16 == n) by (nonlinear_arith);
    }
}

/// The value of a digit sequence is below `16^len`.
pub proof fn lemma_hex_value_bound(s: Seq<char>)
    requires
        is_hex_seq(s),
    ensures
        hex_value(s) < pow16(s.len()),
    decreases s.len(),
{
    if s.len() > 0 {
        assert(is_hex_seq(s.drop_last())) by {
            assert forall|i: int|
                0 <= i < s.drop_last().len() implies hex_val(#[trigger] s.drop_last()[i])
                < 16 by {
                assert(s.drop_last()[i] == s[i]);
            }
        }
        lemma_hex_value_bound(s.drop_last());
        assert(hex_val(s.last()) < 16);
        assert(hex_value(s.drop_last()) * 16 + 16 <= pow16(s.len())) by (nonlinear_arith)
            requires
                hex_value(s.drop_last()) < pow16((s.len() - 1) as nat),
                pow16(s.len()) == 16 * pow16((s.len() - 1) as nat),
        ;
    }
}

/// Monotonicity of `16^k`.
pub proof fn lemma_pow16_mono(a: nat, b: nat)
    requires
        a <= b,
    ensures
        pow16(a) <= pow16(b),
    decreases b,
{
    if a < b && b > 0 {
        lemma_pow16_mono(a, (b - 1) as nat);
        assert(pow16(b) == 16 * pow16((b - 1) as nat));
    }
}

/// `16^16` is one beyond the largest sixteen-digit value, `2^64 - 1`.
pub proof fn lemma_pow16_16()
    ensures
        pow16(16) == 0x1_0000_0000_0000_0000,
{
    reveal_with_fuel(pow16, 17);
}

/// A token decodes to exactly the generation and offset it encodes.
pub proof fn lemma_cursor_round_trip(generation: u64, offset: u64)
    ensures
        spec_decode(spec_cursor_token(generation as nat, offset as nat)) == Some(
            (generation as nat, offset as nat),
        ),
{
    let g = spec_to_hex_pad(generation as nat, 16);
    let o = spec_to_hex_pad(offset as nat, 16);
    lemma_to_hex_pad_wf(generation as nat, 16);
    lemma_to_hex_pad_wf(offset as nat, 16);
    let t = spec_cursor_token(generation as nat, offset as nat);
    assert(t.len() == 32);
    assert(is_hex_seq(t)) by {
        assert forall|i: int| 0 <= i < t.len() implies hex_val(#[trigger] t[i]) < 16 by {
            if i < 16 {
                assert(t[i] == g[i]);
            } else {
                assert(t[i] == o[i - 16]);
            }
        }
    }
    assert(t.take(16) =~= g);
    assert(t.skip(16) =~= o);
    lemma_pow16_16();
    lemma_to_hex_pad_value(generation as nat, 16);
    lemma_to_hex_pad_value(offset as nat, 16);
}

/// The hexadecimal digit character of a value below sixteen.
fn hex_digit_str(d: u8) -> (r: &'static str)
    requires
        d < 16,
    ensures
        r@ =~= seq![hex_char_of(d as int)],
{
    proof {
        reveal_strlit("0");
        reveal_strlit("1");
        reveal_strlit("2");
        reveal_strlit("3");
        reveal_strlit("4");
        reveal_strlit("5");
        reveal_strlit("6");
        reveal_strlit("7");
        reveal_strlit("8");
        reveal_strlit("9");
        reveal_strlit("a");
        reveal_strlit("b");
        reveal_strlit("c");
        reveal_strlit("d");
        reveal_strlit("e");
        reveal_strlit("f");
    }
    match d {
        0 => "0",
        1 => "1",
        2 => "2",
        3 => "3",
        4 => "4",
        5 => "5",
        6 => "6",
        7 => "7",
        8 => "8",
        9 => "9",
        10 => "a",
        11 => "b",
        12 => "c",
        13 => "d",
        14 => "e",
        _ => "f",
    }
}

/// The value of a hexadecimal digit character; sixteen for any other.
fn hex_digit_val(c: char) -> (r: u8)
    ensures
        r as int == hex_val(c),
{
    if c == '0' {
        0
    } else if c == '1' {
        1
    } else if c == '2' {
        2
    } else if c == '3' {
        3
    } else if c == '4' {
        4
    } else if c == '5' {
        5
    } else if c == '6' {
        6
    } else if c == '7' {
        7
    } else if c == '8' {
        8
    } else if c == '9' {
        9
    } else if c == 'a' {
        10
    } else if c == 'b' {
        11
    } else if c == 'c' {
        12
    } else if c == 'd' {
        13
    } else if c == 'e' {
        14
    } else if c == 'f' {
        15
    } else {
        16
    }
}

/// The zero-padded hexadecimal rendering of `n`, `width` digits wide.
fn u64_to_hex_pad(n: u64, width: usize) -> (r: String)
    ensures
        r@ == spec_to_hex_pad(n as nat, width as nat),
    decreases width,
{
    if width == 0 {
        String::new()
    } else {
        let mut s = u64_to_hex_pad(n / 16, width - 1);
        let d = hex_digit_str((n % 16) as u8);
        s.append(d);
        proof {
            assert(s@ =~= spec_to_hex_pad((n / 16) as nat, (width - 1) as nat).push(
                hex_char_of((n % 16) as int),
            ));
        }
        s
    }
}

/// Encode a resume cursor: generation field, then offset field.
pub fn encode_cursor(generation: u64, offset: u64) -> (r: String)
    ensures
        r@ == spec_cursor_token(generation as nat, offset as nat),
{
    let mut s = u64_to_hex_pad(generation, 16);
    let o = u64_to_hex_pad(offset, 16);
    s.append(o.as_str());
    s
}

/// Decode a cursor token to its generation and offset, or nothing for
/// any string that encoding cannot produce.
#[verifier::loop_isolation(false)]
pub fn decode_cursor(s: &str) -> (r: Option<(u64, u64)>)
    ensures
        match r {
            Some(p) => spec_decode(s@) == Some((p.0 as nat, p.1 as nat)),
            None => spec_decode(s@) is None,
        },
{
    let len = s.unicode_len();
    if len != 32 {
        return None;
    }
    let ghost gpart = s@.take(16);
    let ghost opart = s@.skip(16);
    let mut generation: u64 = 0;
    let mut offset: u64 = 0;
    let mut i: usize = 0;
    proof {
        assert(gpart.take(0) =~= Seq::<char>::empty());
    }
    while i < 16
        invariant
            i <= 16,
            s@.len() == 32,
            generation as nat == hex_value(gpart.take(i as int)),
            is_hex_seq(gpart.take(i as int)),
            gpart.take(i as int).len() == i,
        decreases 16 - i,
    {
        let c = s.get_char(i);
        let d = hex_digit_val(c);
        if d >= 16 {
            proof {
                assert(s@[i as int] == c);
                assert(!is_hex_seq(s@));
            }
            return None;
        }
        proof {
            lemma_hex_value_bound(gpart.take(i as int));
            lemma_pow16_mono(i as nat, 15);
            assert(pow16(16) == 0x1_0000_0000_0000_0000) by {
                lemma_pow16_16();
            }
            assert(generation * 16 + 16 <= 0x1_0000_0000_0000_0000) by (nonlinear_arith)
                requires
                    generation < pow16(15),
                    pow16(16) == 0x1_0000_0000_0000_0000,
                    pow16(16) == 16 * pow16(15),
            ;
            assert(gpart.take(i + 1).drop_last() =~= gpart.take(i as int));
            assert(gpart.take(i + 1).last() == s@[i as int]);
        }
        generation = generation * 16 + (d as u64);
        proof {
            assert forall|j: int| 0 <= j < i + 1 implies hex_val(
                #[trigger] gpart.take(i + 1)[j],
            ) < 16 by {
                if j < i {
                    assert(gpart.take(i + 1)[j] == gpart.take(i as int)[j]);
                }
            }
        }
        i = i + 1;
    }
    proof {
        assert(gpart.take(16) =~= gpart);
        assert(opart.take(0) =~= Seq::<char>::empty());
    }
    let mut k: usize = 0;
    while k < 16
        invariant
            k <= 16,
            s@.len() == 32,
            offset as nat == hex_value(opart.take(k as int)),
            is_hex_seq(opart.take(k as int)),
            opart.take(k as int).len() == k,
        decreases 16 - k,
    {
        let c = s.get_char(16 + k);
        let d = hex_digit_val(c);
        if d >= 16 {
            proof {
                assert(s@[16 + k as int] == c);
                assert(!is_hex_seq(s@));
            }
            return None;
        }
        proof {
            lemma_hex_value_bound(opart.take(k as int));
            lemma_pow16_mono(k as nat, 15);
            assert(pow16(16) == 0x1_0000_0000_0000_0000) by {
                lemma_pow16_16();
            }
            assert(offset * 16 + 16 <= 0x1_0000_0000_0000_0000) by (nonlinear_arith)
                requires
                    offset < pow16(15),
                    pow16(16) == 0x1_0000_0000_0000_0000,
                    pow16(16) == 16 * pow16(15),
            ;
            assert(opart.take(k + 1).drop_last() =~= opart.take(k as int));
            assert(opart.take(k + 1).last() == opart[k as int]);
            assert(opart[k as int] == s@[16 + k as int]);
        }
        offset = offset * 16 + (d as u64);
        proof {
            assert forall|j: int| 0 <= j < k + 1 implies hex_val(
                #[trigger] opart.take(k + 1)[j],
            ) < 16 by {
                if j < k {
                    assert(opart.take(k + 1)[j] == opart.take(k as int)[j]);
                }
            }
        }
        k = k + 1;
    }
    proof {
        assert(opart.take(16) =~= opart);
        assert(is_hex_seq(s@)) by {
            assert forall|j: int| 0 <= j < s@.len() implies hex_val(#[trigger] s@[j]) < 16 by {
                if j < 16 {
                    assert(gpart[j] == s@[j]);
                } else {
                    assert(opart[j - 16] == s@[j]);
                }
            }
        }
    }
    Some((generation, offset))
}

} // verus!
