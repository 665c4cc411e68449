//! Whole numbers as text: how they are written and how they are read.

use vstd::prelude::*;

verus! {

/// The digit that stands for `d`, for `d` from 0 to 15; the digits above 9
/// are letters, capital where `upper` is set.
pub open spec fn digit_char(d: int, upper: bool) -> char {
    if d < 10 {
        ('0' as int + d) as char
    } else if upper {
        ('A' as int + d - 10) as char
    } else {
        ('a' as int + d - 10) as char
    }
}

/// The digits of `n` in base `radix`, the highest first, without leading
/// zeros; one digit for 0.
pub open spec fn digits(n: nat, radix: nat, upper: bool) -> Seq<char>
    decreases n,
    via digits_decreases
{
    if radix < 2 || n < radix {
        seq![digit_char(n as int, upper)]
    } else {
        digits(n / radix, radix, upper).push(digit_char((n % radix) as int, upper))
    }
}

#[via_fn]
proof fn digits_decreases(n: nat, radix: nat, upper: bool) {
    if radix >= 2 && n >= radix {
        lemma_quotient_is_less(n, radix);
    }
}

/// Dividing a number by 2 or more makes it less, unless it is 0.
pub proof fn lemma_quotient_is_less(n: nat, radix: nat)
    requires
        radix >= 2,
        n > 0,
    ensures
        n / radix < n,
{
    assert(n / radix < n) by (nonlinear_arith)
        requires
            radix >= 2,
            n > 0,
    ;
}

/// `n` in decimal, with a minus sign before a negative number.
pub open spec fn decimal_text(n: int) -> Seq<char> {
    if n < 0 {
        seq!['-'] + digits((-n) as nat, 10, false)
    } else {
        digits(n as nat, 10, false)
    }
}

/// The number whose 64 bits are those of `n` in two's complement.
pub open spec fn twos_complement(n: int) -> nat {
    if n < 0 {
        (n + 0x1_0000_0000_0000_0000) as nat
    } else {
        n as nat
    }
}

/// The 64 bits of `n` in hexadecimal, without leading zeros.
pub open spec fn hex_text(n: int, upper: bool) -> Seq<char> {
    digits(twos_complement(n), 16, upper)
}

fn digit_to_char(d: u8, upper: bool) -> (c: char)
    requires
        d < 16,
    ensures
        c == digit_char(d as int, upper),
{
    if d < 10 {
        (48u8 + d) as char
    } else if upper {
        (55u8 + d) as char
    } else {
        (87u8 + d) as char
    }
}

/// Appends the digits of `n` in base `radix` to `out`.
pub fn push_digits(out: &mut String, n: u128, radix: u128, upper: bool)
    requires
        2 <= radix <= 16,
    ensures
        final(out)@ == old(out)@ + digits(n as nat, radix as nat, upper),
    decreases n,
{
    if n >= radix {
        proof {
            lemma_quotient_is_less(n as nat, radix as nat);
        }
        push_digits(out, n / radix, radix, upper);
    }
    let ghost higher = out@;
    out.push(digit_to_char((n % radix) as u8, upper));
    proof {
        let last = digit_char((n as nat % radix as nat) as int, upper);
        assert(out@ == higher.push(last));
        if n >= radix {
            assert(higher == old(out)@ + digits(n as nat / radix as nat, radix as nat, upper));
            assert(digits(n as nat, radix as nat, upper) == digits(
                n as nat / radix as nat,
                radix as nat,
                upper,
            ).push(last));
        } else {
            vstd::arithmetic::div_mod::lemma_small_mod(n as nat, radix as nat);
        }
        assert(out@ =~= old(out)@ + digits(n as nat, radix as nat, upper));
    }
}

/// Appends `n` in decimal to `out`.
pub fn push_decimal(out: &mut String, n: i64)
    ensures
        final(out)@ == old(out)@ + decimal_text(n as int),
{
    if n < 0 {
        out.push('-');
        let magnitude: u64 = ((-(n + 1)) as u64) + 1;
        push_digits(out, magnitude as u128, 10, false);
        assert(out@ =~= old(out)@ + decimal_text(n as int));
    } else {
        push_digits(out, n as u128, 10, false);
    }
}

/// Appends the 64 bits of `n` in hexadecimal to `out`.
pub fn push_hex(out: &mut String, n: i64, upper: bool)
    ensures
        final(out)@ == old(out)@ + hex_text(n as int, upper),
{
    let bits: u64 = if n < 0 {
        u64::MAX - ((-(n + 1)) as u64)
    } else {
        n as u64
    };
    push_digits(out, bits as u128, 16, upper);
}

/// Why a text is not a whole number of 64 bits.
#[derive(Debug, Clone, Copy, PartialEq, Eq, Structural)]
pub enum IntErrorKind {
    /// The text is empty.
    Empty,
    /// The text holds a character that is no digit, or only a sign.
    InvalidDigit,
    /// The number is above the largest number of 64 bits.
    PosOverflow,
    /// The number is below the smallest number of 64 bits.
    NegOverflow,
}

impl IntErrorKind {
    /// The reason in words.
    pub open spec fn message(self) -> Seq<char> {
        match self {
            IntErrorKind::Empty => "cannot parse integer from empty string"@,
            IntErrorKind::InvalidDigit => "invalid digit found in string"@,
            IntErrorKind::PosOverflow => "number too large to fit in target type"@,
            IntErrorKind::NegOverflow => "number too small to fit in target type"@,
        }
    }

    pub fn describe(&self) -> (text: &'static str)
        ensures
            text@ == self.message(),
    {
        match self {
            IntErrorKind::Empty => "cannot parse integer from empty string",
            IntErrorKind::InvalidDigit => "invalid digit found in string",
            IntErrorKind::PosOverflow => "number too large to fit in target type",
            IntErrorKind::NegOverflow => "number too small to fit in target type",
        }
    }
}

/// The value of `c` as a digit in base `radix`: the ten digits count from 0,
/// the letters, small or capital, from 10.
pub open spec fn digit_value(c: char, radix: int) -> Option<int> {
    let value = if '0' <= c <= '9' {
        c as int - '0' as int
    } else if 'a' <= c <= 'z' {
        c as int - 'a' as int + 10
    } else if 'A' <= c <= 'Z' {
        c as int - 'A' as int + 10
    } else {
        radix
    };
    if value < radix {
        Some(value)
    } else {
        None
    }
}

/// Reads the digits of `text` from index `i` on, from the left, with `acc`
/// the number read so far. The first character that is no digit ends the
/// reading with `InvalidDigit`; the first digit with which the number leaves
/// the range of 64 bits ends it with an overflow.
pub open spec fn accumulate(text: Seq<char>, radix: int, negative: bool, acc: int, i: int) -> Result<
    int,
    IntErrorKind,
>
    decreases text.len() - i,
{
    if i < 0 || i >= text.len() {
        Ok(acc)
    } else {
        match digit_value(text[i], radix) {
            None => Err(IntErrorKind::InvalidDigit),
            Some(d) => {
                let next = if negative {
                    acc * radix - d
                } else {
                    acc * radix + d
                };
                if next > i64::MAX {
                    Err(IntErrorKind::PosOverflow)
                } else if next < i64::MIN {
                    Err(IntErrorKind::NegOverflow)
                } else {
                    accumulate(text, radix, negative, next, i + 1)
                }
            },
        }
    }
}

/// The whole number of 64 bits that `text` writes in base `radix`: an
/// optional sign, then at least one digit, and nothing else.
pub open spec fn parse_int(text: Seq<char>, radix: int) -> Result<int, IntErrorKind> {
    if text.len() == 0 {
        Err(IntErrorKind::Empty)
    } else if text[0] == '+' || text[0] == '-' {
        if text.len() == 1 {
            Err(IntErrorKind::InvalidDigit)
        } else {
            accumulate(text, radix, text[0] == '-', 0, 1)
        }
    } else {
        accumulate(text, radix, false, 0, 0)
    }
}

fn char_digit_value(c: char, radix: u32) -> (d: Option<u32>)
    requires
        2 <= radix <= 36,
    ensures
        match d {
            Some(v) => digit_value(c, radix as int) == Some(v as int),
            None => digit_value(c, radix as int) is None,
        },
{
    let code: u32 = c as u32;
    let value: u32 = if '0' <= c && c <= '9' {
        code - 48
    } else if 'a' <= c && c <= 'z' {
        code - 97 + 10
    } else if 'A' <= c && c <= 'Z' {
        code - 65 + 10
    } else {
        radix
    };
    if value < radix {
        Some(value)
    } else {
        None
    }
}

/// Reads the characters of `v` from `from` up to `to` as a whole number in
/// base `radix`.
pub fn parse_i64(v: &Vec<char>, from: usize, to: usize, radix: u32) -> (r: Result<i64, IntErrorKind>)
    requires
        from <= to <= v.len(),
        2 <= radix <= 36,
    ensures
        match r {
            Ok(n) => parse_int(v@.subrange(from as int, to as int), radix as int) == Ok::<
                int,
                IntErrorKind,
            >(n as int),
            Err(kind) => parse_int(v@.subrange(from as int, to as int), radix as int) == Err::<
                int,
                IntErrorKind,
            >(kind),
        },
{
    let ghost text = v@.subrange(from as int, to as int);
    if from == to {
        return Err(IntErrorKind::Empty);
    }
    let first = v[from];
    assert(text[0] == first);
    let negative = first == '-';
    let mut i: usize = from;
    if first == '+' || first == '-' {
        if to - from == 1 {
            return Err(IntErrorKind::InvalidDigit);
        }
        i = from + 1;
    }
    let mut acc: i64 = 0;
    while i < to
        invariant
            from <= i <= to <= v.len(),
            2 <= radix <= 36,
            text == v@.subrange(from as int, to as int),
            accumulate(text, radix as int, negative, acc as int, i - from) == parse_int(
                text,
                radix as int,
            ),
        decreases to - i,
    {
        assert(text[i - from] == v@[i as int]);
        match char_digit_value(v[i], radix) {
            None => {
                return Err(IntErrorKind::InvalidDigit);
            },
            Some(d) => {
                assert(-0x8000_0000_0000_0000 * 36 <= acc * radix <= 0x8000_0000_0000_0000 * 36)
                    by (nonlinear_arith)
                    requires
                        -0x8000_0000_0000_0000 <= acc < 0x8000_0000_0000_0000,
                        2 <= radix <= 36,
                ;
                let wide: i128 = if negative {
                    (acc as i128) * (radix as i128) - (d as i128)
                } else {
                    (acc as i128) * (radix as i128) + (d as i128)
                };
                assert(wide == if negative {
                    acc * radix - d
                } else {
                    acc * radix + d
                }) by (nonlinear_arith)
                    requires
                        wide == if negative {
                            (acc as int) * (radix as int) - (d as int)
                        } else {
                            (acc as int) * (radix as int) + (d as int)
                        },
                ;
                if wide > i64::MAX as i128 {
                    return Err(IntErrorKind::PosOverflow);
                }
                if wide < i64::MIN as i128 {
                    return Err(IntErrorKind::NegOverflow);
                }
                acc = wide as i64;
            },
        }
        i = i + 1;
    }
    Ok(acc)
}

} // verus!
