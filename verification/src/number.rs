//! Decimal and hexadecimal number text, with the exact acceptance rules of
//! Rust's integer parsing (`str::parse::<i64>` and `u32::from_str_radix`).

use vstd::prelude::*;

verus! {

/// Why a number text was refused, as Rust's `IntErrorKind` reports it.
#[derive(Debug, Clone, Copy, PartialEq, Eq, Structural)]
pub enum IntErrorKind {
    Empty,
    InvalidDigit,
    PosOverflow,
    NegOverflow,
}

impl IntErrorKind {
    /// The text of the corresponding `ParseIntError`.
    pub fn message(&self) -> (m: String)
        ensures
            m@ == self.spec_message(),
    {
        match self {
            IntErrorKind::Empty => String::from_str("cannot parse integer from empty string"),
            IntErrorKind::InvalidDigit => String::from_str("invalid digit found in string"),
            IntErrorKind::PosOverflow => String::from_str("number too large to fit in target type"),
            IntErrorKind::NegOverflow => String::from_str("number too small to fit in target type"),
        }
    }

    pub open spec fn spec_message(&self) -> Seq<char> {
        match self {
            IntErrorKind::Empty => "cannot parse integer from empty string"@,
            IntErrorKind::InvalidDigit => "invalid digit found in string"@,
            IntErrorKind::PosOverflow => "number too large to fit in target type"@,
            IntErrorKind::NegOverflow => "number too small to fit in target type"@,
        }
    }
}

pub open spec fn is_digit(c: char) -> bool {
    '0' <= c && c <= '9'
}

pub open spec fn digit_val(c: char) -> int {
    c as int - '0' as int
}

pub open spec fn digit_char(d: nat) -> char {
    (d + '0' as nat) as char
}

/// Left-to-right accumulation of decimal digits into an `i64`, adding digits
/// for a positive number and subtracting them for a negative one.
pub open spec fn accumulate_decimal(d: Seq<char>, negative: bool) -> Result<i64, IntErrorKind>
    decreases d.len(),
{
    if d.len() == 0 {
        Ok(0i64)
    } else {
        match accumulate_decimal(d.drop_last(), negative) {
            Err(e) => Err(e),
            Ok(prev) => if !is_digit(d.last()) {
                Err(IntErrorKind::InvalidDigit)
            } else if negative {
                let v = prev * 10 - digit_val(d.last());
                if v < i64::MIN {
                    Err(IntErrorKind::NegOverflow)
                } else {
                    Ok(v as i64)
                }
            } else {
                let v = prev * 10 + digit_val(d.last());
                if v > i64::MAX {
                    Err(IntErrorKind::PosOverflow)
                } else {
                    Ok(v as i64)
                }
            },
        }
    }
}

/// `str::parse::<i64>`: an optional sign followed by one or more ASCII digits.
pub open spec fn spec_parse_i64(s: Seq<char>) -> Result<i64, IntErrorKind> {
    if s.len() == 0 {
        Err(IntErrorKind::Empty)
    } else if (s[0] == '+' || s[0] == '-') && s.len() == 1 {
        Err(IntErrorKind::InvalidDigit)
    } else if s[0] == '+' {
        accumulate_decimal(s.drop_first(), false)
    } else if s[0] == '-' {
        accumulate_decimal(s.drop_first(), true)
    } else {
        accumulate_decimal(s, false)
    }
}

fn accumulate_decimal_exec(s: &Vec<char>, start: usize, negative: bool) -> (r: Result<i64, IntErrorKind>)
    requires
        start <= s@.len(),
    ensures
        r == accumulate_decimal(s@.skip(start as int), negative),
{
    let mut acc: i64 = 0;
    let mut i = start;
    while i < s.len()
        invariant
            start <= i <= s@.len(),
            accumulate_decimal(s@.subrange(start as int, i as int), negative) == Ok::<i64, IntErrorKind>(acc),
            negative ==> acc <= 0,
            !negative ==> acc >= 0,
        decreases s.len() - i,
    {
        let c = s[i];
        let ghost d = s@.subrange(start as int, i as int + 1);
        assert(d.drop_last() =~= s@.subrange(start as int, i as int));
        if !('0' <= c && c <= '9') {
            proof { lemma_accumulate_err_extends(s@, start as int, i as int + 1, negative); }
            return Err(IntErrorKind::InvalidDigit);
        }
        let digit = (c as u32 - '0' as u32) as i64;
        let next = if negative {
            match acc.checked_mul(10) {
                Some(m) => m.checked_sub(digit),
                None => None,
            }
        } else {
            match acc.checked_mul(10) {
                Some(m) => m.checked_add(digit),
                None => None,
            }
        };
        assert(d.last() == c);
        assert(digit_val(c) == digit as int);
        assert(accumulate_decimal(d.drop_last(), negative) == Ok::<i64, IntErrorKind>(acc));
        match next {
            Some(v) => {
                acc = v;
            },
            None => {
                assert(accumulate_decimal(d, negative) is Err);
                proof { lemma_accumulate_err_extends(s@, start as int, i as int + 1, negative); }
                return if negative { Err(IntErrorKind::NegOverflow) } else { Err(IntErrorKind::PosOverflow) };
            },
        }
        i = i + 1;
    }
    assert(s@.subrange(start as int, s@.len() as int) =~= s@.skip(start as int));
    Ok(acc)
}

/// Once the accumulation fails on a prefix, it fails with the same error on
/// every longer prefix.
proof fn lemma_accumulate_err_extends(s: Seq<char>, start: int, k: int, negative: bool)
    requires
        0 <= start <= k <= s.len(),
        accumulate_decimal(s.subrange(start, k), negative) is Err,
    ensures
        accumulate_decimal(s.skip(start), negative) == accumulate_decimal(s.subrange(start, k), negative),
    decreases s.len() - k,
{
    if k < s.len() {
        let d = s.subrange(start, k + 1);
        assert(d.drop_last() =~= s.subrange(start, k));
        lemma_accumulate_err_extends(s, start, k + 1, negative);
    } else {
        assert(s.subrange(start, k) =~= s.skip(start));
    }
}

/// `str::parse::<i64>` on a character sequence.
pub fn parse_i64_chars(s: &Vec<char>) -> (r: Result<i64, IntErrorKind>)
    ensures
        r == spec_parse_i64(s@),
{
    if s.len() == 0 {
        return Err(IntErrorKind::Empty);
    }
    let first = s[0];
    if (first == '+' || first == '-') && s.len() == 1 {
        return Err(IntErrorKind::InvalidDigit);
    }
    if first == '+' {
        assert(s@.skip(1) =~= s@.drop_first());
        accumulate_decimal_exec(s, 1, false)
    } else if first == '-' {
        assert(s@.skip(1) =~= s@.drop_first());
        accumulate_decimal_exec(s, 1, true)
    } else {
        assert(s@.skip(0) =~= s@);
        accumulate_decimal_exec(s, 0, false)
    }
}

/// `str::parse::<i64>` on a string slice.
pub fn parse_i64(s: &str) -> (r: Result<i64, IntErrorKind>)
    ensures
        r == spec_parse_i64(s@),
{
    let v = crate::text::chars_of(s);
    parse_i64_chars(&v)
}

/// Decimal digits of a natural number, most significant first, without
/// leading zeros.
pub open spec fn decimal_digits(n: nat) -> Seq<char>
    decreases n,
{
    if n < 10 {
        seq![digit_char(n)]
    } else {
        decimal_digits(n / 10).push(digit_char(n % 10))
    }
}

/// Every character of a natural number's decimal text is a digit.
pub proof fn lemma_decimal_digits_are_digits(n: nat)
    ensures
        forall|i: int| 0 <= i < decimal_digits(n).len() ==> is_digit(#[trigger] decimal_digits(n)[i]),
    decreases n,
{
    let d = decimal_digits(n);
    if n >= 10 {
        lemma_decimal_digits_are_digits(n / 10);
        assert forall|i: int| 0 <= i < d.len() implies is_digit(#[trigger] d[i]) by {
            if i < d.len() - 1 {
                assert(d[i] == decimal_digits(n / 10)[i]);
            } else {
                assert(d[i] as int == (n % 10) + 48);
            }
        }
    } else {
        assert(d[0] as int == n + 48);
    }
}

/// The text `i64::to_string` produces.
pub open spec fn decimal_text(v: int) -> Seq<char> {
    if v < 0 {
        seq!['-'] + decimal_digits((-v) as nat)
    } else {
        decimal_digits(v as nat)
    }
}

fn push_decimal_digits(n: u64, out: &mut Vec<char>)
    ensures
        final(out)@ == old(out)@ + decimal_digits(n as nat),
    decreases n,
{
    if n >= 10 {
        push_decimal_digits(n / 10, out);
    }
    let d = (n % 10) as u32;
    let c = char_from_digit(d);
    out.push(c);
    assert(old(out)@ + decimal_digits(n as nat) =~= if n >= 10 {
        (old(out)@ + decimal_digits((n / 10) as nat)).push(digit_char((n % 10) as nat))
    } else {
        old(out)@.push(digit_char(n as nat))
    });
}

fn char_from_digit(d: u32) -> (c: char)
    requires
        d < 10,
    ensures
        c == digit_char(d as nat),
{
    match d {
        0 => '0',
        1 => '1',
        2 => '2',
        3 => '3',
        4 => '4',
        5 => '5',
        6 => '6',
        7 => '7',
        8 => '8',
        _ => '9',
    }
}

/// `i64::to_string` as characters.
pub fn i64_decimal_chars(v: i64) -> (r: Vec<char>)
    ensures
        r@ == decimal_text(v as int),
{
    let mut out: Vec<char> = Vec::new();
    if v < 0 {
        out.push('-');
        let magnitude: u64 = if v == i64::MIN { 9223372036854775808u64 } else { (-v) as u64 };
        push_decimal_digits(magnitude, &mut out);
    } else {
        push_decimal_digits(v as u64, &mut out);
    }
    out
}

/// `i64::to_string`.
pub fn i64_to_string(v: i64) -> (r: String)
    ensures
        r@ == decimal_text(v as int),
{
    let c = i64_decimal_chars(v);
    crate::text::string_from_chars(&c)
}

proof fn lemma_digit_char_val(d: nat)
    requires
        d < 10,
    ensures
        is_digit(digit_char(d)),
        digit_val(digit_char(d)) == d,
{
    assert(digit_char(d) as int == d + 48);
}

proof fn lemma_decimal_digits_nonempty(n: nat)
    ensures
        decimal_digits(n).len() >= 1,
        is_digit(decimal_digits(n)[0]),
    decreases n,
{
    if n >= 10 {
        lemma_decimal_digits_nonempty(n / 10);
    } else {
        lemma_digit_char_val(n);
    }
}

proof fn lemma_accumulate_decimal_digits(n: nat, negative: bool)
    requires
        !negative ==> n <= i64::MAX,
        negative ==> n <= 9223372036854775808,
    ensures
        accumulate_decimal(decimal_digits(n), negative) == Ok::<i64, IntErrorKind>(
            (if negative { -n } else { n as int }) as i64,
        ),
    decreases n,
{
    let d = decimal_digits(n);
    let target: int = if negative { -n } else { n as int };
    if n < 10 {
        lemma_digit_char_val(n);
        assert(d.drop_last() =~= Seq::<char>::empty());
        assert(accumulate_decimal(d.drop_last(), negative) == Ok::<i64, IntErrorKind>(0i64));
        assert(d.last() == digit_char(n));
        assert(is_digit(d.last()));
    } else {
        lemma_digit_char_val(n % 10);
        lemma_accumulate_decimal_digits(n / 10, negative);
        assert(d.drop_last() =~= decimal_digits(n / 10));
        assert(d.last() == digit_char(n % 10));
        assert((n / 10) * 10 + n % 10 == n);
        let prev: i64 = (if negative { -((n / 10) as int) } else { (n / 10) as int }) as i64;
        assert(prev as int == (if negative { -((n / 10) as int) } else { (n / 10) as int }));
        assert(accumulate_decimal(d.drop_last(), negative) == Ok::<i64, IntErrorKind>(prev));
        assert(is_digit(d.last()));
        if negative {
            assert(prev * 10 - digit_val(d.last()) == target);
        } else {
            assert(prev * 10 + digit_val(d.last()) == target);
        }
    }
}

/// Printing an `i64` and parsing the text back gives the same number.
pub proof fn lemma_parse_decimal_text(v: i64)
    ensures
        spec_parse_i64(decimal_text(v as int)) == Ok::<i64, IntErrorKind>(v),
{
    if v < 0 {
        let m = (-(v as int)) as nat;
        lemma_decimal_digits_nonempty(m);
        lemma_accumulate_decimal_digits(m, true);
        assert((seq!['-'] + decimal_digits(m)).drop_first() =~= decimal_digits(m));
    } else {
        lemma_decimal_digits_nonempty(v as nat);
        lemma_accumulate_decimal_digits(v as nat, false);
    }
}


pub open spec fn is_hex_digit(c: char) -> bool {
    ('0' <= c && c <= '9') || ('a' <= c && c <= 'f') || ('A' <= c && c <= 'F')
}

pub open spec fn hex_val(c: char) -> int {
    if '0' <= c && c <= '9' {
        c as int - '0' as int
    } else if 'a' <= c && c <= 'f' {
        c as int - 'a' as int + 10
    } else {
        c as int - 'A' as int + 10
    }
}

/// Left-to-right accumulation of hexadecimal digits into a `u32`.
pub open spec fn accumulate_hex(d: Seq<char>) -> Result<u32, IntErrorKind>
    decreases d.len(),
{
    if d.len() == 0 {
        Ok(0u32)
    } else {
        match accumulate_hex(d.drop_last()) {
            Err(e) => Err(e),
            Ok(prev) => if !is_hex_digit(d.last()) {
                Err(IntErrorKind::InvalidDigit)
            } else {
                let v = prev * 16 + hex_val(d.last());
                if v > u32::MAX {
                    Err(IntErrorKind::PosOverflow)
                } else {
                    Ok(v as u32)
                }
            },
        }
    }
}

/// `u32::from_str_radix(s, 16)`: an optional `+` followed by one or more hex digits.
pub open spec fn spec_parse_hex_u32(s: Seq<char>) -> Result<u32, IntErrorKind> {
    if s.len() == 0 {
        Err(IntErrorKind::Empty)
    } else if (s[0] == '+' || s[0] == '-') && s.len() == 1 {
        Err(IntErrorKind::InvalidDigit)
    } else if s[0] == '+' {
        accumulate_hex(s.drop_first())
    } else {
        accumulate_hex(s)
    }
}

proof fn lemma_accumulate_hex_err_extends(s: Seq<char>, start: int, k: int)
    requires
        0 <= start <= k <= s.len(),
        accumulate_hex(s.subrange(start, k)) is Err,
    ensures
        accumulate_hex(s.skip(start)) == accumulate_hex(s.subrange(start, k)),
    decreases s.len() - k,
{
    if k < s.len() {
        let d = s.subrange(start, k + 1);
        assert(d.drop_last() =~= s.subrange(start, k));
        lemma_accumulate_hex_err_extends(s, start, k + 1);
    } else {
        assert(s.subrange(start, k) =~= s.skip(start));
    }
}

fn hex_digit_value(c: char) -> (r: Option<u32>)
    ensures
        r is Some <==> is_hex_digit(c),
        r matches Some(v) ==> v as int == hex_val(c) && v < 16,
{
    if '0' <= c && c <= '9' {
        Some(c as u32 - '0' as u32)
    } else if 'a' <= c && c <= 'f' {
        Some(c as u32 - 'a' as u32 + 10)
    } else if 'A' <= c && c <= 'F' {
        Some(c as u32 - 'A' as u32 + 10)
    } else {
        None
    }
}

fn accumulate_hex_exec(s: &Vec<char>, start: usize) -> (r: Result<u32, IntErrorKind>)
    requires
        start <= s@.len(),
    ensures
        r == accumulate_hex(s@.skip(start as int)),
{
    let mut acc: u32 = 0;
    let mut i = start;
    while i < s.len()
        invariant
            start <= i <= s@.len(),
            accumulate_hex(s@.subrange(start as int, i as int)) == Ok::<u32, IntErrorKind>(acc),
        decreases s.len() - i,
    {
        let c = s[i];
        let ghost d = s@.subrange(start as int, i as int + 1);
        assert(d.drop_last() =~= s@.subrange(start as int, i as int));
        assert(d.last() == c);
        match hex_digit_value(c) {
            None => {
                proof { lemma_accumulate_hex_err_extends(s@, start as int, i as int + 1); }
                return Err(IntErrorKind::InvalidDigit);
            },
            Some(digit) => {
                let next = match acc.checked_mul(16) {
                    Some(m) => m.checked_add(digit),
                    None => None,
                };
                match next {
                    Some(v) => {
                        acc = v;
                    },
                    None => {
                        assert(accumulate_hex(d) is Err);
                        proof { lemma_accumulate_hex_err_extends(s@, start as int, i as int + 1); }
                        return Err(IntErrorKind::PosOverflow);
                    },
                }
            },
        }
        i = i + 1;
    }
    assert(s@.subrange(start as int, s@.len() as int) =~= s@.skip(start as int));
    Ok(acc)
}

/// `u32::from_str_radix(s, 16)` on a character sequence.
pub fn parse_hex_u32_chars(s: &Vec<char>) -> (r: Result<u32, IntErrorKind>)
    ensures
        r == spec_parse_hex_u32(s@),
{
    if s.len() == 0 {
        return Err(IntErrorKind::Empty);
    }
    let first = s[0];
    if (first == '+' || first == '-') && s.len() == 1 {
        return Err(IntErrorKind::InvalidDigit);
    }
    if first == '+' {
        assert(s@.skip(1) =~= s@.drop_first());
        accumulate_hex_exec(s, 1)
    } else {
        assert(s@.skip(0) =~= s@);
        accumulate_hex_exec(s, 0)
    }
}

pub open spec fn hex_char(d: nat) -> char {
    if d < 10 {
        (d + '0' as nat) as char
    } else {
        (d - 10 + 'a' as nat) as char
    }
}

/// Lower-case hexadecimal digits of a natural number without leading zeros.
pub open spec fn hex_digits(n: nat) -> Seq<char>
    decreases n,
{
    if n < 16 {
        seq![hex_char(n)]
    } else {
        hex_digits(n / 16).push(hex_char(n % 16))
    }
}

/// The text `format!("{:04x}", n)` produces: lower-case hex, zero-padded to
/// at least four digits.
pub open spec fn hex4_text(n: nat) -> Seq<char> {
    let h = hex_digits(n);
    if h.len() < 4 {
        Seq::new((4 - h.len()) as nat, |i: int| '0') + h
    } else {
        h
    }
}

fn hex_char_exec(d: u32) -> (c: char)
    requires
        d < 16,
    ensures
        c == hex_char(d as nat),
{
    match d {
        0 => '0',
        1 => '1',
        2 => '2',
        3 => '3',
        4 => '4',
        5 => '5',
        6 => '6',
        7 => '7',
        8 => '8',
        9 => '9',
        10 => 'a',
        11 => 'b',
        12 => 'c',
        13 => 'd',
        14 => 'e',
        _ => 'f',
    }
}

fn push_hex_digits(n: u32, out: &mut Vec<char>)
    ensures
        final(out)@ == old(out)@ + hex_digits(n as nat),
    decreases n,
{
    if n >= 16 {
        push_hex_digits(n / 16, out);
    }
    let c = hex_char_exec(n % 16);
    out.push(c);
    assert(old(out)@ + hex_digits(n as nat) =~= if n >= 16 {
        (old(out)@ + hex_digits((n / 16) as nat)).push(hex_char((n % 16) as nat))
    } else {
        old(out)@.push(hex_char(n as nat))
    });
}

/// `format!("{:04x}", n)` as characters.
pub fn hex4_chars(n: u32) -> (r: Vec<char>)
    ensures
        r@ == hex4_text(n as nat),
{
    let mut digits: Vec<char> = Vec::new();
    push_hex_digits(n, &mut digits);
    assert(digits@ =~= hex_digits(n as nat));
    let mut out: Vec<char> = Vec::new();
    let mut k: usize = digits.len();
    while k < 4
        invariant
            digits@ == hex_digits(n as nat),
            digits@.len() <= k <= 4 || (k == digits@.len() && k >= 4),
            out@ == Seq::new((k - digits@.len()) as nat, |i: int| '0'),
        decreases 4 - k,
    {
        out.push('0');
        k = k + 1;
        assert(out@ =~= Seq::new((k - digits@.len()) as nat, |i: int| '0'));
    }
    let mut i: usize = 0;
    let ghost pad = out@;
    while i < digits.len()
        invariant
            i <= digits@.len(),
            out@ == pad + digits@.take(i as int),
        decreases digits.len() - i,
    {
        out.push(digits[i]);
        i = i + 1;
        assert(out@ =~= pad + digits@.take(i as int));
    }
    assert(digits@.take(digits@.len() as int) =~= digits@);
    proof {
        if hex_digits(n as nat).len() >= 4 {
            assert(pad =~= Seq::<char>::empty());
            assert(out@ =~= hex_digits(n as nat));
        }
    }
    out
}

proof fn lemma_hex_char_val(d: nat)
    requires
        d < 16,
    ensures
        is_hex_digit(hex_char(d)),
        hex_val(hex_char(d)) == d,
        hex_char(d) != '.',
        hex_char(d) != '+',
        hex_char(d) != '-',
{
    if d < 10 {
        assert(hex_char(d) as int == d + 48);
    } else {
        assert(hex_char(d) as int == d - 10 + 97);
    }
}

proof fn lemma_accumulate_hex_digits(n: nat)
    requires
        n <= u32::MAX,
    ensures
        accumulate_hex(hex_digits(n)) == Ok::<u32, IntErrorKind>(n as u32),
        forall|i: int| 0 <= i < hex_digits(n).len() ==> #[trigger] hex_digits(n)[i] != '.',
        hex_digits(n).len() >= 1,
        hex_digits(n)[0] != '+' && hex_digits(n)[0] != '-',
    decreases n,
{
    let d = hex_digits(n);
    if n < 16 {
        lemma_hex_char_val(n);
        assert(d.drop_last() =~= Seq::<char>::empty());
        assert(accumulate_hex(d.drop_last()) == Ok::<u32, IntErrorKind>(0u32));
    } else {
        lemma_hex_char_val(n % 16);
        lemma_accumulate_hex_digits(n / 16);
        assert(d.drop_last() =~= hex_digits(n / 16));
        assert(d.last() == hex_char(n % 16));
        assert((n / 16) * 16 + n % 16 == n);
        assert(accumulate_hex(d.drop_last()) == Ok::<u32, IntErrorKind>((n / 16) as u32));
        assert forall|i: int| 0 <= i < d.len() implies #[trigger] d[i] != '.' by {
            if i < d.len() - 1 {
                assert(d[i] == hex_digits(n / 16)[i]);
            }
        }
        assert(d[0] == hex_digits(n / 16)[0]);
    }
}

proof fn lemma_accumulate_hex_leading_zeros(z: nat, h: Seq<char>)
    requires
        accumulate_hex(h) is Ok,
    ensures
        accumulate_hex(Seq::new(z, |i: int| '0') + h) == accumulate_hex(h),
    decreases h.len(), z,
{
    let p = Seq::new(z, |i: int| '0') + h;
    if h.len() == 0 {
        assert(p =~= Seq::new(z, |i: int| '0'));
        if z > 0 {
            assert(p.drop_last() =~= Seq::new((z - 1) as nat, |i: int| '0') + h);
            lemma_accumulate_hex_leading_zeros((z - 1) as nat, h);
            assert(p.last() == '0');
        }
    } else {
        assert(p.drop_last() =~= Seq::new(z, |i: int| '0') + h.drop_last());
        assert(p.last() == h.last());
        lemma_accumulate_hex_leading_zeros(z, h.drop_last());
    }
}

/// Formatting a `u32` with `{:04x}` and parsing it back in base 16 gives
/// the same number; the text holds no `.`.
pub proof fn lemma_parse_hex4_text(n: u32)
    ensures
        spec_parse_hex_u32(hex4_text(n as nat)) == Ok::<u32, IntErrorKind>(n),
        forall|i: int| 0 <= i < hex4_text(n as nat).len() ==> #[trigger] hex4_text(n as nat)[i] != '.',
        hex4_text(n as nat).len() >= 4,
{
    let h = hex_digits(n as nat);
    lemma_accumulate_hex_digits(n as nat);
    let t = hex4_text(n as nat);
    if h.len() < 4 {
        let z = (4 - h.len()) as nat;
        lemma_accumulate_hex_leading_zeros(z, h);
        assert(t[0] == '0');
        assert forall|i: int| 0 <= i < t.len() implies #[trigger] t[i] != '.' by {
            if i >= z {
                assert(t[i] == h[i - z]);
            }
        }
    }
}

} // verus!
