//! Reading an RGB color from a hexadecimal color code such as `#ff00bb` or
//! `abc`, and writing one as lower- or upper-case hexadecimal digits.

use core::num::ParseIntError;
use vstd::layout::size_of;
use vstd::prelude::*;
use vstd::string::*;
use vstd::utf8::*;

use crate::rgb::Rgb;
use crate::stimulus::Stimulus;

verus! {

broadcast use vstd::utf8::group_utf8_lib;

/// Declares std's error for a string that is no valid integer.
#[verifier::external_type_specification]
#[verifier::external_body]
pub struct ExParseIntError(ParseIntError);

/// Error type for parsing a string of hexadecimal characters to an `Rgb` color.
#[derive(Debug)]
pub enum FromHexError {
    /// An error occurred while parsing the string into a valid integer.
    ParseIntError(ParseIntError),
    /// The hex value was not in a valid 3 or 6 character format.
    HexFormatError(&'static str),
}

impl From<ParseIntError> for FromHexError {
    fn from(err: ParseIntError) -> (e: FromHexError) {
        FromHexError::ParseIntError(err)
    }
}

impl vstd::std_specs::convert::FromSpecImpl<ParseIntError> for FromHexError {
    open spec fn obeys_from_spec() -> bool {
        true
    }

    open spec fn from_spec(err: ParseIntError) -> FromHexError {
        FromHexError::ParseIntError(err)
    }
}

impl From<&'static str> for FromHexError {
    fn from(err: &'static str) -> (e: FromHexError) {
        FromHexError::HexFormatError(err)
    }
}

impl vstd::std_specs::convert::FromSpecImpl<&'static str> for FromHexError {
    open spec fn obeys_from_spec() -> bool {
        true
    }

    open spec fn from_spec(err: &'static str) -> FromHexError {
        FromHexError::HexFormatError(err)
    }
}

impl FromHexError {
    /// The lower-level error that caused this one: the integer error, or none
    /// for a code of the wrong format.
    pub fn source(&self) -> (r: Option<&ParseIntError>)
        ensures
            match self {
                FromHexError::ParseIntError(e) => r == Some(e),
                FromHexError::HexFormatError(_) => r is None,
            },
    {
        match self {
            FromHexError::ParseIntError(e) => Some(e),
            FromHexError::HexFormatError(_) => None,
        }
    }

    /// The error as text: the integer error's own message, or the format
    /// problem followed by the accepted formats.
    pub fn to_string(&self) -> (s: String)
        ensures
            match self {
                FromHexError::ParseIntError(e) => to_string_from_display_ensures::<ParseIntError>(
                    e,
                    s,
                ),
                FromHexError::HexFormatError(msg) => s@ == msg@
                    + ", please use format '#fff', 'fff', '#ffffff' or 'ffffff'."@,
            },
    {
        match self {
            FromHexError::ParseIntError(e) => e.to_string(),
            FromHexError::HexFormatError(msg) => {
                let mut text: String = (*msg).to_owned();
                text.append(", please use format '#fff', 'fff', '#ffffff' or 'ffffff'.");
                text
            },
        }
    }
}

/// The value of an ASCII hexadecimal digit (`0-9`, `a-f`, `A-F`).
pub open spec fn hex_digit_value(b: u8) -> Option<nat> {
    if 0x30 <= b <= 0x39 {
        Some((b - 0x30) as nat)
    } else if 0x61 <= b <= 0x66 {
        Some((b - 0x61 + 10) as nat)
    } else if 0x41 <= b <= 0x46 {
        Some((b - 0x41 + 10) as nat)
    } else {
        None
    }
}

/// The value of a string of hexadecimal digits, most significant first, or
/// `None` when one of the bytes is no hexadecimal digit.
pub open spec fn hex_digits_value(digits: Seq<u8>) -> Option<nat>
    decreases digits.len(),
{
    if digits.len() == 0 {
        Some(0)
    } else {
        match (hex_digits_value(digits.drop_last()), hex_digit_value(digits.last())) {
            (Some(high), Some(low)) => Some(high * 16 + low),
            _ => None,
        }
    }
}

/// The `u8` that one or more hexadecimal digits (and nothing else) stand
/// for, or `None` when a byte is no hexadecimal digit or the value is too large.
pub open spec fn hex_number(digits: Seq<u8>) -> Option<u8> {
    if digits.len() == 0 {
        None
    } else {
        match hex_digits_value(digits) {
            Some(v) => if v <= 255 { Some(v as u8) } else { None },
            None => None,
        }
    }
}

/// What `u8::from_str_radix(s, 16)` gives for a string with the bytes `s`: an
/// optional `+` followed by one or more hexadecimal digits whose value fits in
/// a `u8`, or `None` for an error.
pub open spec fn parse_u8_hex(s: Seq<u8>) -> Option<u8> {
    hex_number(if s.len() > 0 && s[0] == 0x2b { s.drop_first() } else { s })
}

/// Calls `u8::from_str_radix(s, 16)`. Its documentation states that the string
/// is read as an optional `+` sign followed by only digits of the radix, and
/// that the result is an error when that is not so or the value overflows.
/// Which `ParseIntError` comes back is left unsaid.
#[verifier::external_body]
fn u8_from_hex_str(s: &str) -> (r: Result<u8, ParseIntError>)
    ensures
        match r {
            Ok(v) => parse_u8_hex(s.spec_bytes()) == Some(v),
            Err(_) => parse_u8_hex(s.spec_bytes()) is None,
        },
{
    u8::from_str_radix(s, 16)
}

/// The hex code once one leading `#` is taken off.
pub open spec fn strip_hash(bytes: Seq<u8>) -> Seq<u8> {
    if bytes.len() > 0 && bytes[0] == 0x23 {
        bytes.drop_first()
    } else {
        bytes
    }
}

/// Whether a hex code has one of the two accepted lengths (in bytes).
pub open spec fn valid_hex_code_length(code: Seq<u8>) -> bool {
    code.len() == 3 || code.len() == 6
}

/// One component of a three-digit code: the digit at `i`, repeated (a `#fff`
/// code stands for `#ffffff`).
pub open spec fn short_hex_component(code: Seq<u8>, i: int) -> Option<u8> {
    match hex_number(code.subrange(i, i + 1)) {
        Some(v) => Some((v * 17) as u8),
        None => None,
    }
}

/// One component of a six-digit code: the two hexadecimal digits at `2 * i`.
pub open spec fn long_hex_component(code: Seq<u8>, i: int) -> Option<u8> {
    hex_number(code.subrange(2 * i, 2 * i + 2))
}

/// Whether cutting a hex code of an accepted length into its components stays
/// between characters, that is off UTF-8 continuation bytes (else the cut
/// panics). The first cut is always made; the second only once the first
/// component has been read, since a first component that is no number ends
/// the parse.
pub open spec fn hex_code_cuts_at_char_boundaries(code: Seq<u8>) -> bool {
    &&& code.len() == 3 ==> {
        &&& !is_continuation_byte(code[1])
        &&& short_hex_component(code, 0) is Some ==> !is_continuation_byte(code[2])
    }
    &&& code.len() == 6 ==> {
        &&& !is_continuation_byte(code[2])
        &&& long_hex_component(code, 0) is Some ==> !is_continuation_byte(code[4])
    }
}

/// The `(red, green, blue)` that a hex code (without `#`) of an accepted
/// length stands for, or `None` when a component is no valid hexadecimal
/// number.
pub open spec fn hex_code_components(code: Seq<u8>) -> Option<(u8, u8, u8)> {
    let c = if code.len() == 3 {
        (short_hex_component(code, 0), short_hex_component(code, 1), short_hex_component(code, 2))
    } else {
        (long_hex_component(code, 0), long_hex_component(code, 1), long_hex_component(code, 2))
    };
    match c {
        (Some(r), Some(g), Some(b)) => Some((r, g, b)),
        _ => None,
    }
}

/// A one-byte string has at most one digit.
proof fn lemma_single_digit_bound(s: Seq<u8>)
    requires
        s.len() == 1,
        hex_number(s) is Some,
    ensures
        hex_number(s)->Some_0 <= 15,
{
    assert(s.drop_last().len() == 0);
    reveal_with_fuel(hex_digits_value, 2);
}

/// A string of hexadecimal digits has a hexadecimal digit at every place.
proof fn lemma_hex_digits_all_digits(s: Seq<u8>, i: int)
    requires
        hex_digits_value(s) is Some,
        0 <= i < s.len(),
    ensures
        hex_digit_value(s[i]) is Some,
    decreases s.len(),
{
    if i < s.len() - 1 {
        assert(s.drop_last()[i] == s[i]);
        lemma_hex_digits_all_digits(s.drop_last(), i);
    }
}

/// Reads a component of a hex code: one or more hexadecimal digits, and
/// nothing else (a sign is no hexadecimal digit). The error is the one that
/// `u8::from_str_radix` gives for the component, or for its leading `+` alone
/// where the radix parser would take the sign.
fn parse_hex_component(s: &str) -> (r: Result<u8, ParseIntError>)
    ensures
        match r {
            Ok(v) => hex_number(s.spec_bytes()) == Some(v),
            Err(_) => hex_number(s.spec_bytes()) is None,
        },
{
    let bytes = s.as_bytes();
    if bytes.len() > 0 && bytes[0] == 0x2bu8 {
        proof {
            lemma_ascii_first_byte_boundary(s.spec_bytes());
            if hex_digits_value(s.spec_bytes()) is Some {
                lemma_hex_digits_all_digits(s.spec_bytes(), 0);
            }
        }
        let (sign, _) = s.split_at(1);
        assert(sign.spec_bytes() =~= seq![0x2bu8]);
        assert(seq![0x2bu8].drop_first().len() == 0);
        match u8_from_hex_str(sign) {
            Ok(v) => {
                assert(false);
                Ok(v)
            },
            Err(e) => Err(e),
        }
    } else {
        u8_from_hex_str(s)
    }
}

/// Cutting a string where the bytes are a character boundary.
proof fn lemma_ascii_first_byte_boundary(bytes: Seq<u8>)
    requires
        valid_utf8(bytes),
        bytes.len() > 0,
        bytes[0] < 0x80,
    ensures
        is_char_boundary(bytes, 1),
{
    reveal_with_fuel(is_char_boundary, 2);
}

/// A character boundary of a string is one too of what follows an earlier
/// boundary.
proof fn lemma_boundary_after_cut(bytes: Seq<u8>, k: int, j: int)
    requires
        valid_utf8(bytes),
        0 < k < j < bytes.len(),
        is_char_boundary(bytes, k),
        is_char_boundary(bytes, j),
    ensures
        is_char_boundary(bytes.subrange(k, bytes.len() as int), j - k),
{
    let rest = bytes.subrange(k, bytes.len() as int);
    assert(valid_utf8(rest));
    assert(!is_continuation_byte(bytes[j]));
    assert(rest[j - k] == bytes[j]);
    assert(!is_continuation_byte(rest[j - k]));
}

impl<S> Rgb<S, u8> {
    /// Parses a color hex code of format `#ff00bb`, `ff00bb`, `#abc` or `abc`
    /// into an `Rgb<S, u8>`. A three-digit code repeats each digit.
    pub fn from_str(hex: &str) -> (r: Result<Self, FromHexError>)
        requires
            hex_code_cuts_at_char_boundaries(strip_hash(hex.spec_bytes())),
        ensures
            ({
                let code = strip_hash(hex.spec_bytes());
                &&& !valid_hex_code_length(code) ==> (r matches Err(
                    FromHexError::HexFormatError(msg),
                ) && msg@ == "invalid hex code format"@)
                &&& valid_hex_code_length(code) ==> match hex_code_components(code) {
                    Some((red, green, blue)) => r == Ok::<Self, FromHexError>(
                        Rgb::spec_new(red, green, blue),
                    ),
                    None => r matches Err(FromHexError::ParseIntError(_)),
                }
            }),
    {
        let ghost bytes = hex.spec_bytes();
        let hex_bytes = hex.as_bytes();
        let has_hash = hex_bytes.len() > 0 && hex_bytes[0] == 0x23u8;
        let hex_code: &str = if has_hash {
            proof {
                lemma_ascii_first_byte_boundary(bytes);
            }
            let (_, stripped) = hex.split_at(1);
            assert(stripped.spec_bytes() =~= bytes.drop_first());
            stripped
        } else {
            hex
        };
        let ghost code = hex_code.spec_bytes();
        assert(code =~= strip_hash(bytes));
        let len = hex_code.as_bytes().len();
        if len == 3 {
            let (red_str, rest) = hex_code.split_at(1);
            assert(red_str.spec_bytes() == code.subrange(0, 1));
            let red = match parse_hex_component(red_str) {
                Ok(v) => v,
                Err(e) => return Err(FromHexError::ParseIntError(e)),
            };
            proof {
                lemma_boundary_after_cut(code, 1, 2);
            }
            let (green_str, blue_str) = rest.split_at(1);
            assert(green_str.spec_bytes() == code.subrange(1, 2));
            assert(blue_str.spec_bytes() == code.subrange(2, 3));
            let green = match parse_hex_component(green_str) {
                Ok(v) => v,
                Err(e) => return Err(FromHexError::ParseIntError(e)),
            };
            let blue = match parse_hex_component(blue_str) {
                Ok(v) => v,
                Err(e) => return Err(FromHexError::ParseIntError(e)),
            };
            proof {
                lemma_single_digit_bound(code.subrange(0, 1));
                lemma_single_digit_bound(code.subrange(1, 2));
                lemma_single_digit_bound(code.subrange(2, 3));
            }
            Ok(Rgb::new(red * 17, green * 17, blue * 17))
        } else if len == 6 {
            let (red_str, rest) = hex_code.split_at(2);
            assert(red_str.spec_bytes() == code.subrange(0, 2));
            let red = match parse_hex_component(red_str) {
                Ok(v) => v,
                Err(e) => return Err(FromHexError::ParseIntError(e)),
            };
            proof {
                lemma_boundary_after_cut(code, 2, 4);
            }
            let (green_str, blue_str) = rest.split_at(2);
            assert(green_str.spec_bytes() == code.subrange(2, 4));
            assert(blue_str.spec_bytes() == code.subrange(4, 6));
            let green = match parse_hex_component(green_str) {
                Ok(v) => v,
                Err(e) => return Err(FromHexError::ParseIntError(e)),
            };
            let blue = match parse_hex_component(blue_str) {
                Ok(v) => v,
                Err(e) => return Err(FromHexError::ParseIntError(e)),
            };
            Ok(Rgb::new(red, green, blue))
        } else {
            Err(FromHexError::HexFormatError("invalid hex code format"))
        }
    }
}

/// The character of the hexadecimal digit `d` (below 16), lower or upper case.
pub open spec fn hex_digit_char(d: nat, upper: bool) -> char {
    if d < 10 {
        (0x30 + d) as char
    } else if upper {
        (0x41 + d - 10) as char
    } else {
        (0x61 + d - 10) as char
    }
}

/// The hexadecimal digits of `n`, most significant first, with no leading
/// zeros (zero itself is the single digit `0`).
pub open spec fn hex_digits(n: nat, upper: bool) -> Seq<char>
    decreases n,
{
    if n < 16 {
        seq![hex_digit_char(n, upper)]
    } else {
        hex_digits(n / 16, upper).push(hex_digit_char(n % 16, upper))
    }
}

/// `s` with zeros put before it until it is `width` characters long.
pub open spec fn zero_padded(s: Seq<char>, width: nat) -> Seq<char> {
    if s.len() >= width {
        s
    } else {
        Seq::new((width - s.len()) as nat, |_i: int| '0') + s
    }
}

/// Three numbers in hexadecimal, each padded with zeros to `width`.
pub open spec fn hex_triple(red: nat, green: nat, blue: nat, width: nat, upper: bool) -> Seq<
    char,
> {
    zero_padded(hex_digits(red, upper), width) + zero_padded(hex_digits(green, upper), width)
        + zero_padded(hex_digits(blue, upper), width)
}

/// The number of digits each component takes: the width asked for, or else
/// two digits for each byte of the component type.
pub open spec fn hex_width<T>(width: Option<usize>) -> nat {
    match width {
        Some(w) => w as nat,
        None => 2 * size_of::<T>(),
    }
}

/// Whether a width asked for is one that `std::fmt` can pad to: format widths
/// are limited to 16 bits.
pub open spec fn hex_width_fits(width: Option<usize>) -> bool {
    width matches Some(w) ==> w <= 0xFFFF
}

/// Calls `format!` with `{:0width$x}` for each of the three numbers, which the
/// documentation of `std::fmt` defines as the lower-case hexadecimal digits of
/// the number padded on the left with zeros to `width` characters; widths are
/// limited to 16 bits.
#[verifier::external_body]
fn format_lower_hex3(red: u64, green: u64, blue: u64, width: usize) -> (s: String)
    requires
        width <= 0xFFFF,
    ensures
        s@ == hex_triple(red as nat, green as nat, blue as nat, width as nat, false),
{
    format!("{:0width$x}{:0width$x}{:0width$x}", red, green, blue, width = width)
}

/// Calls `format!` with `{:0width$X}` for each of the three numbers, which the
/// documentation of `std::fmt` defines as the upper-case hexadecimal digits of
/// the number padded on the left with zeros to `width` characters; widths are
/// limited to 16 bits.
#[verifier::external_body]
fn format_upper_hex3(red: u64, green: u64, blue: u64, width: usize) -> (s: String)
    requires
        width <= 0xFFFF,
    ensures
        s@ == hex_triple(red as nat, green as nat, blue as nat, width as nat, true),
{
    format!("{:0width$X}{:0width$X}{:0width$X}", red, green, blue, width = width)
}

/// An unsigned integer component that can be written in hexadecimal.
pub trait HexComponent: Stimulus {
    /// The type takes at most eight bytes.
    proof fn lemma_size()
        ensures
            1 <= size_of::<Self>() <= 8,
    ;

    /// The value, widened to `u64`.
    fn to_u64(self) -> (v: u64)
        ensures
            v as nat == self.spec_value(),
    ;
}

impl HexComponent for u8 {
    proof fn lemma_size() {
        broadcast use vstd::layout::layout_of_primitives;

        assert(size_of::<u8>() == 1);
    }

    fn to_u64(self) -> (v: u64) {
        self as u64
    }
}

impl HexComponent for u16 {
    proof fn lemma_size() {
        broadcast use vstd::layout::layout_of_primitives;

        assert(size_of::<u16>() == 2);
    }

    fn to_u64(self) -> (v: u64) {
        self as u64
    }
}

impl HexComponent for u32 {
    proof fn lemma_size() {
        broadcast use vstd::layout::layout_of_primitives;

        assert(size_of::<u32>() == 4);
    }

    fn to_u64(self) -> (v: u64) {
        self as u64
    }
}

impl HexComponent for u64 {
    proof fn lemma_size() {
        broadcast use vstd::layout::layout_of_primitives;

        assert(size_of::<u64>() == 8);
    }

    fn to_u64(self) -> (v: u64) {
        self
    }
}

impl<S, T: HexComponent> Rgb<S, T> {
    /// The width that formatting uses: the one asked for, else two digits per
    /// byte of the component type.
    fn hex_format_width(width: Option<usize>) -> (w: usize)
        requires
            hex_width_fits(width),
        ensures
            w as nat == hex_width::<T>(width),
            w <= 0xFFFF,
    {
        proof {
            T::lemma_size();
        }
        match width {
            Some(w) => w,
            None => core::mem::size_of::<T>() * 2,
        }
    }

    /// The color as lower-case hexadecimal digits, red then green then blue,
    /// each padded with zeros to `width` digits, or to two digits per byte of
    /// the component type when no width is given.
    pub fn fmt_lower_hex(&self, width: Option<usize>) -> (s: String)
        requires
            hex_width_fits(width),
        ensures
            s@ == hex_triple(
                self.red.spec_value(),
                self.green.spec_value(),
                self.blue.spec_value(),
                hex_width::<T>(width),
                false,
            ),
    {
        let size = Self::hex_format_width(width);
        format_lower_hex3(self.red.to_u64(), self.green.to_u64(), self.blue.to_u64(), size)
    }

    /// The color as upper-case hexadecimal digits, red then green then blue,
    /// each padded with zeros to `width` digits, or to two digits per byte of
    /// the component type when no width is given.
    pub fn fmt_upper_hex(&self, width: Option<usize>) -> (s: String)
        requires
            hex_width_fits(width),
        ensures
            s@ == hex_triple(
                self.red.spec_value(),
                self.green.spec_value(),
                self.blue.spec_value(),
                hex_width::<T>(width),
                true,
            ),
    {
        let size = Self::hex_format_width(width);
        format_upper_hex3(self.red.to_u64(), self.green.to_u64(), self.blue.to_u64(), size)
    }
}

/// A character with an ASCII lower-case letter raised to upper case.
pub open spec fn ascii_upper_char(c: char) -> char {
    if 'a' <= c <= 'z' {
        ((c as u32) - 32) as char
    } else {
        c
    }
}

/// A text with its ASCII lower-case letters raised to upper case.
pub open spec fn ascii_uppercase(s: Seq<char>) -> Seq<char> {
    s.map_values(|c: char| ascii_upper_char(c))
}

/// The upper-case digits of a number are its lower-case digits raised.
proof fn lemma_hex_digits_upper(n: nat)
    ensures
        hex_digits(n, true) == ascii_uppercase(hex_digits(n, false)),
    decreases n,
{
    if n < 16 {
        assert(hex_digits(n, true) =~= ascii_uppercase(hex_digits(n, false)));
    } else {
        lemma_hex_digits_upper(n / 16);
        assert(hex_digits(n, true) =~= ascii_uppercase(hex_digits(n, false)));
    }
}

/// Raising letters commutes with zero padding.
proof fn lemma_zero_padded_upper(s: Seq<char>, width: nat)
    ensures
        zero_padded(ascii_uppercase(s), width) == ascii_uppercase(zero_padded(s, width)),
{
    assert(zero_padded(ascii_uppercase(s), width) =~= ascii_uppercase(zero_padded(s, width)));
}

/// Upper-case hexadecimal formatting differs from lower-case formatting only
/// in letter case: the same digits and padding, with `a-f` raised to `A-F`.
pub proof fn lemma_upper_hex_is_uppercased_lower_hex<S, T: HexComponent>(
    c: Rgb<S, T>,
    width: Option<usize>,
)
    ensures
        hex_triple(
            c.red.spec_value(),
            c.green.spec_value(),
            c.blue.spec_value(),
            hex_width::<T>(width),
            true,
        ) == ascii_uppercase(
            hex_triple(
                c.red.spec_value(),
                c.green.spec_value(),
                c.blue.spec_value(),
                hex_width::<T>(width),
                false,
            ),
        ),
{
    let w = hex_width::<T>(width);
    let (r, g, b) = (c.red.spec_value(), c.green.spec_value(), c.blue.spec_value());
    lemma_hex_digits_upper(r);
    lemma_hex_digits_upper(g);
    lemma_hex_digits_upper(b);
    lemma_zero_padded_upper(hex_digits(r, false), w);
    lemma_zero_padded_upper(hex_digits(g, false), w);
    lemma_zero_padded_upper(hex_digits(b, false), w);
    let lr = zero_padded(hex_digits(r, false), w);
    let lg = zero_padded(hex_digits(g, false), w);
    let lb = zero_padded(hex_digits(b, false), w);
    assert(ascii_uppercase(lr + lg + lb) =~= ascii_uppercase(lr) + ascii_uppercase(lg)
        + ascii_uppercase(lb));
}

/// One leading `#` is optional: a code reads the same with it as without it.
pub proof fn lemma_hash_prefix_optional(code: Seq<u8>)
    requires
        code.len() == 0 || code[0] != 0x23,
    ensures
        strip_hash(seq![0x23u8] + code) == code,
        strip_hash(code) == code,
{
    assert((seq![0x23u8] + code).drop_first() =~= code);
}

/// A three-digit code stands for the same color as the six-digit code that
/// repeats each of its digits.
pub proof fn lemma_short_code_expands(code: Seq<u8>)
    requires
        code.len() == 3,
    ensures
        hex_code_components(code) == hex_code_components(
            seq![code[0], code[0], code[1], code[1], code[2], code[2]],
        ),
{
    let long = seq![code[0], code[0], code[1], code[1], code[2], code[2]];
    assert forall|i: int| 0 <= i < 3 implies #[trigger] short_hex_component(code, i)
        == long_hex_component(long, i) by {
        let one = code.subrange(i, i + 1);
        let two = long.subrange(2 * i, 2 * i + 2);
        assert(one =~= seq![code[i]]);
        assert(two =~= seq![code[i], code[i]]);
        assert(one.drop_last() =~= Seq::<u8>::empty());
        assert(two.drop_last() =~= one);
        assert(two.drop_first() =~= one);
        reveal_with_fuel(hex_digits_value, 3);
    }
}

/// A hexadecimal digit character is ASCII and reads back as its digit.
proof fn lemma_hex_digit_char(d: nat, upper: bool)
    requires
        d < 16,
    ensures
        '\0' <= hex_digit_char(d, upper) <= '\u{7f}',
        hex_digit_value(hex_digit_char(d, upper) as u8) == Some(d),
        hex_digit_char(d, upper) as u8 != 0x23,
        hex_digit_char(d, upper) as u8 != 0x2b,
        d == 0 ==> hex_digit_char(d, upper) == '0',
{
}

/// A byte written with two hexadecimal digits.
proof fn lemma_two_digits(n: u8, upper: bool)
    ensures
        zero_padded(hex_digits(n as nat, upper), 2) == seq![
            hex_digit_char(n as nat / 16, upper),
            hex_digit_char(n as nat % 16, upper),
        ],
{
    lemma_hex_digit_char(0, upper);
    if n < 16 {
        assert(zero_padded(hex_digits(n as nat, upper), 2) =~= seq![
            hex_digit_char(n as nat / 16, upper),
            hex_digit_char(n as nat % 16, upper),
        ]);
    } else {
        assert(hex_digits(n as nat / 16, upper) == seq![hex_digit_char(n as nat / 16, upper)]);
        assert(hex_digits(n as nat, upper) =~= seq![
            hex_digit_char(n as nat / 16, upper),
            hex_digit_char(n as nat % 16, upper),
        ]);
    }
}

/// The two ASCII bytes of a byte's hexadecimal digits read back as the byte.
proof fn lemma_parse_two_digits(n: u8, upper: bool, bytes: Seq<u8>)
    requires
        bytes == seq![
            hex_digit_char(n as nat / 16, upper) as u8,
            hex_digit_char(n as nat % 16, upper) as u8,
        ],
    ensures
        hex_number(bytes) == Some(n),
{
    lemma_hex_digit_char(n as nat / 16, upper);
    lemma_hex_digit_char(n as nat % 16, upper);
    assert(bytes.drop_last() =~= seq![bytes[0]]);
    assert(bytes.drop_last().drop_last() =~= Seq::<u8>::empty());
    reveal_with_fuel(hex_digits_value, 3);
}

/// The UTF-8 bytes of six hexadecimal digit characters: one byte per digit,
/// each a character boundary, and no leading `#`.
proof fn lemma_hex_chars_bytes(chars: Seq<char>, digits: Seq<nat>, upper: bool)
    requires
        chars.len() == 6,
        digits.len() == 6,
        forall|i: int| 0 <= i < 6 ==> digits[i] < 16,
        forall|i: int| 0 <= i < 6 ==> #[trigger] chars[i] == hex_digit_char(digits[i], upper),
    ensures
        encode_utf8(chars).len() == 6,
        forall|i: int|
            0 <= i < 6 ==> #[trigger] encode_utf8(chars)[i] == hex_digit_char(
                digits[i],
                upper,
            ) as u8,
        strip_hash(encode_utf8(chars)) == encode_utf8(chars),
        hex_code_cuts_at_char_boundaries(encode_utf8(chars)),
{
    assert forall|i: int| 0 <= i < 6 implies '\0' <= #[trigger] chars[i] <= '\u{7f}' by {
        lemma_hex_digit_char(digits[i], upper);
    }
    assert(is_ascii_chars(chars));
    let bytes = encode_utf8(chars);
    assert forall|i: int| 0 <= i < 6 implies #[trigger] bytes[i] == hex_digit_char(
        digits[i],
        upper,
    ) as u8 by {
        assert(bytes[i] == chars[i] as u8);
    }
    lemma_hex_digit_char(digits[0], upper);
    lemma_hex_digit_char(digits[2], upper);
    lemma_hex_digit_char(digits[4], upper);
    assert(valid_utf8(bytes));
    assert(!is_continuation_byte(bytes[2]));
    assert(!is_continuation_byte(bytes[4]));
    assert(is_char_boundary(bytes, 2));
    assert(is_char_boundary(bytes, 4));
}

/// The six hexadecimal digits of three bytes.
pub open spec fn byte_digits(red: u8, green: u8, blue: u8) -> Seq<nat> {
    seq![
        red as nat / 16,
        red as nat % 16,
        green as nat / 16,
        green as nat % 16,
        blue as nat / 16,
        blue as nat % 16,
    ]
}

/// Three bytes written with two hexadecimal digits each.
proof fn lemma_hex_triple_bytes(red: u8, green: u8, blue: u8, upper: bool)
    ensures
        hex_triple(red as nat, green as nat, blue as nat, 2, upper) =~= Seq::new(
            6,
            |i: int| hex_digit_char(byte_digits(red, green, blue)[i], upper),
        ),
{
    lemma_two_digits(red, upper);
    lemma_two_digits(green, upper);
    lemma_two_digits(blue, upper);
}

/// Six bytes that are the hexadecimal digits of three bytes read back as them.
proof fn lemma_parse_byte_digits(bytes: Seq<u8>, red: u8, green: u8, blue: u8, upper: bool)
    requires
        bytes.len() == 6,
        forall|i: int|
            0 <= i < 6 ==> #[trigger] bytes[i] == hex_digit_char(
                byte_digits(red, green, blue)[i],
                upper,
            ) as u8,
    ensures
        hex_code_components(bytes) == Some((red, green, blue)),
{
    let digits = byte_digits(red, green, blue);
    assert(bytes.subrange(0, 2) =~= seq![bytes[0], bytes[1]]);
    assert(bytes.subrange(2, 4) =~= seq![bytes[2], bytes[3]]);
    assert(bytes.subrange(4, 6) =~= seq![bytes[4], bytes[5]]);
    lemma_parse_two_digits(red, upper, bytes.subrange(0, 2));
    lemma_parse_two_digits(green, upper, bytes.subrange(2, 4));
    lemma_parse_two_digits(blue, upper, bytes.subrange(4, 6));
}

/// Formatting a color with `u8` components in hexadecimal at the default width
/// and reading the text back as a hex code gives the color back: the text is a
/// six-digit code without `#` whose three components are those of the color.
pub proof fn lemma_hex_format_parse_round_trip<S>(c: Rgb<S, u8>, upper: bool)
    ensures
        ({
            let bytes = encode_utf8(
                hex_triple(
                    c.red.spec_value(),
                    c.green.spec_value(),
                    c.blue.spec_value(),
                    hex_width::<u8>(None),
                    upper,
                ),
            );
            &&& strip_hash(bytes) == bytes
            &&& hex_code_cuts_at_char_boundaries(bytes)
            &&& valid_hex_code_length(bytes)
            &&& hex_code_components(bytes) == Some((c.red, c.green, c.blue))
        }),
{
    assert(hex_width::<u8>(None) == 2) by {
        broadcast use vstd::layout::layout_of_primitives;

    }
    let chars = hex_triple(c.red as nat, c.green as nat, c.blue as nat, 2, upper);
    let digits = byte_digits(c.red, c.green, c.blue);
    lemma_hex_triple_bytes(c.red, c.green, c.blue, upper);
    assert forall|i: int| 0 <= i < 6 implies #[trigger] digits[i] < 16 by {}
    lemma_hex_chars_bytes(chars, digits, upper);
    lemma_parse_byte_digits(encode_utf8(chars), c.red, c.green, c.blue, upper);
}

} // verus!
