//! Small string-building helpers shared by the notation and display code.

use vstd::prelude::*;

verus! {

/// Relies on `String::push`: appends exactly one character to the string.
#[verifier::external_body]
pub fn push_char(s: &mut String, c: char)
    ensures
        final (s)@ == old(s)@.push(c),
{
    s.push(c);
}

/// What `String::from_utf8_lossy` returns for a byte sequence: each
/// invalid UTF-8 sequence is replaced, everything else is decoded.
pub uninterp spec fn utf8_lossy_of(bytes: Seq<u8>) -> Seq<char>;

/// Relies on `String::from_utf8_lossy`: valid UTF-8 decodes unchanged
/// (stated through vstd's UTF-8 model), and the result depends on the
/// bytes alone.
#[verifier::external_body]
pub fn utf8_lossy(bytes: &[u8]) -> (r: String)
    ensures
        r@ == utf8_lossy_of(bytes@),
        bytes@.len() == 0 ==> r@.len() == 0,
        vstd::utf8::valid_utf8(bytes@) ==> r@ == vstd::utf8::decode_utf8(bytes@),
{
    String::from_utf8_lossy(bytes).into_owned()
}

/// Decimal digits of `n`, most significant first.
pub open spec fn spec_decimal(n: nat) -> Seq<char>
    decreases n,
{
    if n < 10 {
        seq![spec_digit_char(n)]
    } else {
        spec_decimal(n / 10).push(spec_digit_char(n % 10))
    }
}

/// The character for a single decimal digit.
pub open spec fn spec_digit_char(d: nat) -> char {
    if d == 0 {
        '0'
    } else if d == 1 {
        '1'
    } else if d == 2 {
        '2'
    } else if d == 3 {
        '3'
    } else if d == 4 {
        '4'
    } else if d == 5 {
        '5'
    } else if d == 6 {
        '6'
    } else if d == 7 {
        '7'
    } else if d == 8 {
        '8'
    } else {
        '9'
    }
}

fn digit_char(d: u64) -> (c: char)
    requires
        d < 10,
    ensures
        c == spec_digit_char(d as nat),
{
    if d == 0 {
        '0'
    } else if d == 1 {
        '1'
    } else if d == 2 {
        '2'
    } else if d == 3 {
        '3'
    } else if d == 4 {
        '4'
    } else if d == 5 {
        '5'
    } else if d == 6 {
        '6'
    } else if d == 7 {
        '7'
    } else if d == 8 {
        '8'
    } else {
        '9'
    }
}

/// Append the decimal form of `n` to `out`.
pub fn append_decimal(out: &mut String, n: u64)
    ensures
        final (out)@ == old(out)@ + spec_decimal(n as nat),
    decreases n,
{
    if n < 10 {
        push_char(out, digit_char(n));
        assert(out@ =~= old(out)@ + spec_decimal(n as nat));
    } else {
        append_decimal(out, n / 10);
        push_char(out, digit_char(n % 10));
        assert(out@ =~= old(out)@ + spec_decimal(n as nat));
    }
}

/// Ten to the `w`-th power.
pub open spec fn spec_pow10(w: nat) -> nat
    decreases w,
{
    if w == 0 {
        1
    } else {
        10 * spec_pow10((w - 1) as nat)
    }
}

fn pow10(w: u64) -> (r: u64)
    requires
        w <= 10,
    ensures
        r == spec_pow10(w as nat),
    decreases w,
{
    if w == 0 {
        1
    } else {
        let p = pow10(w - 1);
        assert(spec_pow10(w as nat) == 10 * spec_pow10((w - 1) as nat));
        assert(spec_pow10((w as nat - 1) as nat) <= spec_pow10(9)) by {
            lemma_pow10_mono((w as nat - 1) as nat, 9);
        }
        proof {
            reveal_with_fuel(spec_pow10, 11);
            assert(spec_pow10(9) == 1000000000);
        }
        10 * p
    }
}

proof fn lemma_pow10_mono(a: nat, b: nat)
    requires
        a <= b,
    ensures
        spec_pow10(a) <= spec_pow10(b),
    decreases b,
{
    if a < b {
        lemma_pow10_mono(a, (b - 1) as nat);
    }
}

/// Decimal digits of `n` left-padded with zeros to at least `width`
/// characters.
pub open spec fn spec_zero_padded(n: nat, width: nat) -> Seq<char>
    decreases width,
{
    if width <= 1 {
        spec_decimal(n)
    } else if n < spec_pow10((width - 1) as nat) {
        seq!['0'] + spec_zero_padded(n, (width - 1) as nat)
    } else {
        spec_decimal(n)
    }
}

/// Append the decimal form of `n`, left-padded with zeros to at least
/// `width` characters.
pub fn append_zero_padded(out: &mut String, n: u64, width: u64)
    requires
        width <= 10,
    ensures
        final (out)@ == old(out)@ + spec_zero_padded(n as nat, width as nat),
    decreases width,
{
    if width <= 1 {
        append_decimal(out, n);
    } else if n < pow10(width - 1) {
        push_char(out, '0');
        append_zero_padded(out, n, width - 1);
        assert(out@ =~= old(out)@ + spec_zero_padded(n as nat, width as nat));
    } else {
        append_decimal(out, n);
    }
}

} // verus!

verus! {

/// The character for one uppercase hexadecimal digit.
pub open spec fn spec_hex_char(d: nat) -> char {
    if d < 10 {
        spec_digit_char(d)
    } else if d == 10 {
        'A'
    } else if d == 11 {
        'B'
    } else if d == 12 {
        'C'
    } else if d == 13 {
        'D'
    } else if d == 14 {
        'E'
    } else {
        'F'
    }
}

fn hex_char(d: u8) -> (c: char)
    requires
        d < 16,
    ensures
        c == spec_hex_char(d as nat),
{
    if d < 10 {
        digit_char(d as u64)
    } else if d == 10 {
        'A'
    } else if d == 11 {
        'B'
    } else if d == 12 {
        'C'
    } else if d == 13 {
        'D'
    } else if d == 14 {
        'E'
    } else {
        'F'
    }
}

/// Two uppercase hex digits of a byte.
pub open spec fn spec_hex2(b: u8) -> Seq<char> {
    seq![spec_hex_char((b / 16) as nat), spec_hex_char((b % 16) as nat)]
}

/// Append the two-digit uppercase hex form of a byte.
pub fn append_hex2(out: &mut String, b: u8)
    ensures
        final (out)@ == old(out)@ + spec_hex2(b),
{
    push_char(out, hex_char(b / 16));
    push_char(out, hex_char(b % 16));
    proof {
        assert(out@ =~= old(out)@ + spec_hex2(b));
    }
}

/// Four uppercase hex digits of a 16-bit value.
pub open spec fn spec_hex4(w: u16) -> Seq<char> {
    spec_hex2((w / 256) as u8) + spec_hex2((w % 256) as u8)
}

/// Append the four-digit uppercase hex form of a 16-bit value.
pub fn append_hex4(out: &mut String, w: u16)
    ensures
        final (out)@ == old(out)@ + spec_hex4(w),
{
    append_hex2(out, (w / 256) as u8);
    append_hex2(out, (w % 256) as u8);
    proof {
        assert(out@ =~= old(out)@ + spec_hex4(w));
    }
}

/// The uppercase-hex debug form of a byte sequence: two digits per
/// byte, comma-separated, in square brackets.
pub open spec fn spec_hex_list_body(bytes: Seq<u8>, i: int) -> Seq<char>
    decreases bytes.len() - i,
{
    if i < 0 || i >= bytes.len() {
        Seq::empty()
    } else if i + 1 == bytes.len() {
        spec_hex2(bytes[i])
    } else {
        spec_hex2(bytes[i]) + seq![',', ' '] + spec_hex_list_body(bytes, i + 1)
    }
}

pub open spec fn spec_hex_list(bytes: Seq<u8>) -> Seq<char> {
    seq!['['] + spec_hex_list_body(bytes, 0) + seq![']']
}

/// Append the bracketed uppercase-hex list form of a byte slice.
pub fn append_hex_list(out: &mut String, bytes: &[u8])
    ensures
        final (out)@ == old(out)@ + spec_hex_list(bytes@),
{
    push_char(out, '[');
    append_hex_list_body(out, bytes, 0);
    push_char(out, ']');
    proof {
        assert(out@ =~= old(out)@ + spec_hex_list(bytes@));
    }
}

/// Append the comma-separated hex entries from index `i` onward.
fn append_hex_list_body(out: &mut String, bytes: &[u8], i: usize)
    requires
        i <= bytes@.len(),
    ensures
        final (out)@ == old(out)@ + spec_hex_list_body(bytes@, i as int),
    decreases bytes@.len() - i,
{
    if i >= bytes.len() {
        proof {
            assert(spec_hex_list_body(bytes@, i as int) =~= Seq::<char>::empty());
        }
        return ;
    }
    append_hex2(out, bytes[i]);
    if i + 1 < bytes.len() {
        push_char(out, ',');
        push_char(out, ' ');
        append_hex_list_body(out, bytes, i + 1);
    }
    proof {
        assert(out@ =~= old(out)@ + spec_hex_list_body(bytes@, i as int));
    }
}


} // verus!
