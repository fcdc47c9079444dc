//! Fixed-width lowercase hexadecimal, the notation of trace and span ids.

use vstd::prelude::*;

verus! {

/// Whether `c` is one of `0`..`9`, `a`..`f`.
pub open spec fn is_hex_digit(c: char) -> bool {
    ('0' <= c && c <= '9') || ('a' <= c && c <= 'f')
}

/// The value of a hexadecimal digit.
pub open spec fn digit_value(c: char) -> nat {
    if '0' <= c && c <= '9' {
        (c as u8 - 48) as nat
    } else {
        (c as u8 - 87) as nat
    }
}

/// The digit that stands for `value`, which is below 16.
pub open spec fn digit_char(value: nat) -> char {
    if value < 10 {
        ((value + 48) as u8) as char
    } else {
        ((value + 87) as u8) as char
    }
}

/// Whether every character of `text` is a hexadecimal digit.
pub open spec fn all_hex(text: Seq<char>) -> bool {
    forall|i: int| 0 <= i < text.len() ==> is_hex_digit(#[trigger] text[i])
}

/// The number that `text` denotes, most significant digit first.
pub open spec fn hex_value(text: Seq<char>) -> nat
    decreases text.len(),
{
    if text.len() == 0 {
        0
    } else {
        hex_value(text.drop_last()) * 16 + digit_value(text.last())
    }
}

/// The last `width` hexadecimal digits of `value`, most significant first.
pub open spec fn hex_text(value: nat, width: nat) -> Seq<char>
    decreases width,
{
    if width == 0 {
        Seq::empty()
    } else {
        hex_text(value / 16, (width - 1) as nat).push(digit_char(value % 16))
    }
}

/// Sixteen to the power of `n`.
pub open spec fn pow16(n: nat) -> nat
    decreases n,
{
    if n == 0 {
        1
    } else {
        16 * pow16((n - 1) as nat)
    }
}

/// Powers of sixteen grow with the exponent.
pub proof fn lemma_pow16_grows(a: nat, b: nat)
    requires
        a <= b,
    ensures
        0 < pow16(a) <= pow16(b),
    decreases b,
{
    if b == 0 {
    } else if a == b {
        lemma_pow16_grows((a - 1) as nat, (b - 1) as nat);
    } else {
        lemma_pow16_grows(a, (b - 1) as nat);
    }
}

/// Sixteen digits span the 64-bit numbers, thirty-two the 128-bit ones.
pub proof fn lemma_pow16_widths()
    ensures
        pow16(16) == 0x1_0000_0000_0000_0000,
        pow16(32) == 0x1_0000_0000_0000_0000_0000_0000_0000_0000,
{
    reveal_with_fuel(pow16, 17);
    assert(pow16(16) == 0x1_0000_0000_0000_0000);
    assert(pow16(32) == pow16(16) * pow16(16)) by {
        lemma_pow16_sum(16, 16);
    }
}

/// The power of a sum is the product of the powers.
pub proof fn lemma_pow16_sum(a: nat, b: nat)
    ensures
        pow16(a + b) == pow16(a) * pow16(b),
    decreases b,
{
    if b == 0 {
        assert(pow16(a) * 1 == pow16(a));
    } else {
        let less = (b - 1) as nat;
        lemma_pow16_sum(a, less);
        assert((a + b - 1) as nat == a + less);
        assert(pow16(a + b) == 16 * pow16(a + less));
        assert(pow16(b) == 16 * pow16(less));
        let x = pow16(a);
        let y = pow16(less);
        assert(16 * (x * y) == x * (16 * y)) by (nonlinear_arith);
    }
}

/// A text of `n` digits denotes a number below sixteen to the `n`.
pub proof fn lemma_hex_value_bound(text: Seq<char>)
    requires
        all_hex(text),
    ensures
        hex_value(text) < pow16(text.len()),
    decreases text.len(),
{
    if text.len() > 0 {
        let front = text.drop_last();
        assert forall|i: int| 0 <= i < front.len() implies is_hex_digit(#[trigger] front[i]) by {
            assert(front[i] == text[i]);
        }
        lemma_hex_value_bound(front);
        assert(is_hex_digit(text.last()));
        assert(digit_value(text.last()) < 16);
    }
}

/// Writing a number that fits `width` digits gives that many hexadecimal
/// digits, and they denote the number again.
pub proof fn lemma_hex_text_value(value: nat, width: nat)
    requires
        value < pow16(width),
    ensures
        hex_text(value, width).len() == width,
        all_hex(hex_text(value, width)),
        hex_value(hex_text(value, width)) == value,
    decreases width,
{
    if width > 0 {
        let front = hex_text(value / 16, (width - 1) as nat);
        let text = hex_text(value, width);
        lemma_hex_text_value(value / 16, (width - 1) as nat);
        let d = value % 16;
        assert(is_hex_digit(digit_char(d)) && digit_value(digit_char(d)) == d);
        assert(text.drop_last() == front);
        assert(text.last() == digit_char(d));
        assert forall|i: int| 0 <= i < text.len() implies is_hex_digit(#[trigger] text[i]) by {
            if i < front.len() {
                assert(text[i] == front[i]);
            }
        }
    }
}

/// The value of one hexadecimal digit, or `None` for any other character.
pub fn hex_digit(c: char) -> (value: Option<u8>)
    ensures
        value is Some <==> is_hex_digit(c),
        value matches Some(v) ==> v == digit_value(c),
{
    if '0' <= c && c <= '9' {
        Some(c as u8 - 48)
    } else if 'a' <= c && c <= 'f' {
        Some(c as u8 - 87)
    } else {
        None
    }
}

/// Reads the `width` hexadecimal digits of `chars` that start at `start`.
/// Gives `None` if one of them is no lowercase hexadecimal digit.
pub fn parse_hex(chars: &Vec<char>, start: usize, width: usize) -> (value: Option<u128>)
    requires
        width <= 32,
        start + width <= chars.len(),
    ensures
        value is Some <==> all_hex(chars@.subrange(start as int, start + width)),
        value matches Some(v) ==> v == hex_value(chars@.subrange(start as int, start + width)),
{
    let ghost digits = chars@.subrange(start as int, start + width);
    let mut acc: u128 = 0;
    let mut i: usize = 0;
    assert(digits.take(0) == Seq::<char>::empty());
    while i < width
        invariant
            i <= width <= 32,
            start + width <= chars.len(),
            digits == chars@.subrange(start as int, start + width),
            all_hex(digits.take(i as int)),
            acc == hex_value(digits.take(i as int)),
        decreases width - i,
    {
        let ghost seen = digits.take(i as int);
        let ghost more = digits.take(i + 1);
        assert(more.drop_last() == seen);
        assert(more.last() == chars@[start + i]);
        match hex_digit(chars[start + i]) {
            None => {
                assert(!is_hex_digit(digits[i as int]));
                return None;
            },
            Some(d) => {
                proof {
                    lemma_hex_value_bound(seen);
                    lemma_pow16_grows(i as nat + 1, 32);
                    lemma_pow16_widths();
                    assert forall|k: int| 0 <= k < more.len() implies is_hex_digit(
                        #[trigger] more[k],
                    ) by {
                        if k < i {
                            assert(more[k] == seen[k]);
                        }
                    }
                }
                acc = acc * 16 + d as u128;
            },
        }
        i += 1;
    }
    assert(digits.take(width as int) == digits);
    Some(acc)
}

} // verus!
