use vstd::prelude::*;

verus! {

/// Relies on `std::num::ParseIntError` as an opaque value: the library only carries it.
#[verifier::external_type_specification]
#[verifier::external_body]
pub struct ExParseIntError(std::num::ParseIntError);

/// An ASCII decimal digit.
pub open spec fn is_digit(c: char) -> bool {
    '0' <= c && c <= '9'
}

/// A non-empty run of decimal digits.
pub open spec fn all_digits(s: Seq<char>) -> bool {
    s.len() > 0 && forall|i: int| 0 <= i < s.len() ==> is_digit(#[trigger] s[i])
}

/// The value of a run of decimal digits, most significant first.
pub open spec fn digits_value(s: Seq<char>) -> int
    decreases s.len(),
{
    if s.len() == 0 {
        0
    } else {
        digits_value(s.drop_last()) * 10 + (s.last() as int - '0' as int)
    }
}

/// The number that `s` writes in decimal: an optional `+` (or `-` where
/// `signed`) followed by one or more digits, and nothing else.
pub open spec fn decimal_value(s: Seq<char>, signed: bool) -> Option<int> {
    if s.len() > 0 && s[0] == '+' && all_digits(s.drop_first()) {
        Some(digits_value(s.drop_first()))
    } else if signed && s.len() > 0 && s[0] == '-' && all_digits(s.drop_first()) {
        Some(-digits_value(s.drop_first()))
    } else if all_digits(s) {
        Some(digits_value(s))
    } else {
        None
    }
}

/// `v` holds a number between `lo` and `hi`.
pub open spec fn in_range(v: Option<int>, lo: int, hi: int) -> bool {
    v is Some && lo <= v->0 && v->0 <= hi
}

/// A primitive integer type that can be read from a line of text.
pub trait Numeric: Sized {
    /// The smallest value of the type.
    spec fn lowest() -> int;

    /// The largest value of the type.
    spec fn highest() -> int;

    /// The integer that a value stands for.
    spec fn value(&self) -> int;

    /// The value that `s` writes, if it writes one in the type's range.
    open spec fn text_value(s: Seq<char>) -> Option<int> {
        let v = decimal_value(s, Self::lowest() < 0);
        if in_range(v, Self::lowest(), Self::highest()) {
            v
        } else {
            None
        }
    }

    /// Parses `s` as a decimal number of the type.
    fn parse_text(s: &str) -> (r: Result<Self, std::num::ParseIntError>)
        ensures
            r is Ok <==> Self::text_value(s@) is Some,
            r is Ok ==> Self::text_value(s@) == Some(r->Ok_0.value()),
    ;
}

/// Relies on `<i8 as FromStr>::from_str`: an optional sign and decimal digits, in range.
#[verifier::external_body]
fn parse_i8(s: &str) -> (r: Result<i8, std::num::ParseIntError>)
    ensures
        r is Ok <==> in_range(decimal_value(s@, true), i8::MIN as int, i8::MAX as int),
        r is Ok ==> decimal_value(s@, true) == Some(r->Ok_0 as int),
{
    s.parse::<i8>()
}

impl Numeric for i8 {
    open spec fn lowest() -> int {
        i8::MIN as int
    }

    open spec fn highest() -> int {
        i8::MAX as int
    }

    open spec fn value(&self) -> int {
        *self as int
    }

    fn parse_text(s: &str) -> (r: Result<i8, std::num::ParseIntError>) {
        parse_i8(s)
    }
}

/// Relies on `<u8 as FromStr>::from_str`: an optional `+` and decimal digits, in range.
#[verifier::external_body]
fn parse_u8(s: &str) -> (r: Result<u8, std::num::ParseIntError>)
    ensures
        r is Ok <==> in_range(decimal_value(s@, false), u8::MIN as int, u8::MAX as int),
        r is Ok ==> decimal_value(s@, false) == Some(r->Ok_0 as int),
{
    s.parse::<u8>()
}

impl Numeric for u8 {
    open spec fn lowest() -> int {
        u8::MIN as int
    }

    open spec fn highest() -> int {
        u8::MAX as int
    }

    open spec fn value(&self) -> int {
        *self as int
    }

    fn parse_text(s: &str) -> (r: Result<u8, std::num::ParseIntError>) {
        parse_u8(s)
    }
}

/// Relies on `<i16 as FromStr>::from_str`: an optional sign and decimal digits, in range.
#[verifier::external_body]
fn parse_i16(s: &str) -> (r: Result<i16, std::num::ParseIntError>)
    ensures
        r is Ok <==> in_range(decimal_value(s@, true), i16::MIN as int, i16::MAX as int),
        r is Ok ==> decimal_value(s@, true) == Some(r->Ok_0 as int),
{
    s.parse::<i16>()
}

impl Numeric for i16 {
    open spec fn lowest() -> int {
        i16::MIN as int
    }

    open spec fn highest() -> int {
        i16::MAX as int
    }

    open spec fn value(&self) -> int {
        *self as int
    }

    fn parse_text(s: &str) -> (r: Result<i16, std::num::ParseIntError>) {
        parse_i16(s)
    }
}

/// Relies on `<u16 as FromStr>::from_str`: an optional `+` and decimal digits, in range.
#[verifier::external_body]
fn parse_u16(s: &str) -> (r: Result<u16, std::num::ParseIntError>)
    ensures
        r is Ok <==> in_range(decimal_value(s@, false), u16::MIN as int, u16::MAX as int),
        r is Ok ==> decimal_value(s@, false) == Some(r->Ok_0 as int),
{
    s.parse::<u16>()
}

impl Numeric for u16 {
    open spec fn lowest() -> int {
        u16::MIN as int
    }

    open spec fn highest() -> int {
        u16::MAX as int
    }

    open spec fn value(&self) -> int {
        *self as int
    }

    fn parse_text(s: &str) -> (r: Result<u16, std::num::ParseIntError>) {
        parse_u16(s)
    }
}

/// Relies on `<i32 as FromStr>::from_str`: an optional sign and decimal digits, in range.
#[verifier::external_body]
fn parse_i32(s: &str) -> (r: Result<i32, std::num::ParseIntError>)
    ensures
        r is Ok <==> in_range(decimal_value(s@, true), i32::MIN as int, i32::MAX as int),
        r is Ok ==> decimal_value(s@, true) == Some(r->Ok_0 as int),
{
    s.parse::<i32>()
}

impl Numeric for i32 {
    open spec fn lowest() -> int {
        i32::MIN as int
    }

    open spec fn highest() -> int {
        i32::MAX as int
    }

    open spec fn value(&self) -> int {
        *self as int
    }

    fn parse_text(s: &str) -> (r: Result<i32, std::num::ParseIntError>) {
        parse_i32(s)
    }
}

/// Relies on `<u32 as FromStr>::from_str`: an optional `+` and decimal digits, in range.
#[verifier::external_body]
fn parse_u32(s: &str) -> (r: Result<u32, std::num::ParseIntError>)
    ensures
        r is Ok <==> in_range(decimal_value(s@, false), u32::MIN as int, u32::MAX as int),
        r is Ok ==> decimal_value(s@, false) == Some(r->Ok_0 as int),
{
    s.parse::<u32>()
}

impl Numeric for u32 {
    open spec fn lowest() -> int {
        u32::MIN as int
    }

    open spec fn highest() -> int {
        u32::MAX as int
    }

    open spec fn value(&self) -> int {
        *self as int
    }

    fn parse_text(s: &str) -> (r: Result<u32, std::num::ParseIntError>) {
        parse_u32(s)
    }
}

/// Relies on `<i64 as FromStr>::from_str`: an optional sign and decimal digits, in range.
#[verifier::external_body]
fn parse_i64(s: &str) -> (r: Result<i64, std::num::ParseIntError>)
    ensures
        r is Ok <==> in_range(decimal_value(s@, true), i64::MIN as int, i64::MAX as int),
        r is Ok ==> decimal_value(s@, true) == Some(r->Ok_0 as int),
{
    s.parse::<i64>()
}

impl Numeric for i64 {
    open spec fn lowest() -> int {
        i64::MIN as int
    }

    open spec fn highest() -> int {
        i64::MAX as int
    }

    open spec fn value(&self) -> int {
        *self as int
    }

    fn parse_text(s: &str) -> (r: Result<i64, std::num::ParseIntError>) {
        parse_i64(s)
    }
}

/// Relies on `<u64 as FromStr>::from_str`: an optional `+` and decimal digits, in range.
#[verifier::external_body]
fn parse_u64(s: &str) -> (r: Result<u64, std::num::ParseIntError>)
    ensures
        r is Ok <==> in_range(decimal_value(s@, false), u64::MIN as int, u64::MAX as int),
        r is Ok ==> decimal_value(s@, false) == Some(r->Ok_0 as int),
{
    s.parse::<u64>()
}

impl Numeric for u64 {
    open spec fn lowest() -> int {
        u64::MIN as int
    }

    open spec fn highest() -> int {
        u64::MAX as int
    }

    open spec fn value(&self) -> int {
        *self as int
    }

    fn parse_text(s: &str) -> (r: Result<u64, std::num::ParseIntError>) {
        parse_u64(s)
    }
}

/// Relies on `<i128 as FromStr>::from_str`: an optional sign and decimal digits, in range.
#[verifier::external_body]
fn parse_i128(s: &str) -> (r: Result<i128, std::num::ParseIntError>)
    ensures
        r is Ok <==> in_range(decimal_value(s@, true), i128::MIN as int, i128::MAX as int),
        r is Ok ==> decimal_value(s@, true) == Some(r->Ok_0 as int),
{
    s.parse::<i128>()
}

impl Numeric for i128 {
    open spec fn lowest() -> int {
        i128::MIN as int
    }

    open spec fn highest() -> int {
        i128::MAX as int
    }

    open spec fn value(&self) -> int {
        *self as int
    }

    fn parse_text(s: &str) -> (r: Result<i128, std::num::ParseIntError>) {
        parse_i128(s)
    }
}

/// Relies on `<u128 as FromStr>::from_str`: an optional `+` and decimal digits, in range.
#[verifier::external_body]
fn parse_u128(s: &str) -> (r: Result<u128, std::num::ParseIntError>)
    ensures
        r is Ok <==> in_range(decimal_value(s@, false), u128::MIN as int, u128::MAX as int),
        r is Ok ==> decimal_value(s@, false) == Some(r->Ok_0 as int),
{
    s.parse::<u128>()
}

impl Numeric for u128 {
    open spec fn lowest() -> int {
        u128::MIN as int
    }

    open spec fn highest() -> int {
        u128::MAX as int
    }

    open spec fn value(&self) -> int {
        *self as int
    }

    fn parse_text(s: &str) -> (r: Result<u128, std::num::ParseIntError>) {
        parse_u128(s)
    }
}

/// Relies on `<isize as FromStr>::from_str`: an optional sign and decimal digits, in range.
#[verifier::external_body]
fn parse_isize(s: &str) -> (r: Result<isize, std::num::ParseIntError>)
    ensures
        r is Ok <==> in_range(decimal_value(s@, true), isize::MIN as int, isize::MAX as int),
        r is Ok ==> decimal_value(s@, true) == Some(r->Ok_0 as int),
{
    s.parse::<isize>()
}

impl Numeric for isize {
    open spec fn lowest() -> int {
        isize::MIN as int
    }

    open spec fn highest() -> int {
        isize::MAX as int
    }

    open spec fn value(&self) -> int {
        *self as int
    }

    fn parse_text(s: &str) -> (r: Result<isize, std::num::ParseIntError>) {
        parse_isize(s)
    }
}

/// Relies on `<usize as FromStr>::from_str`: an optional `+` and decimal digits, in range.
#[verifier::external_body]
fn parse_usize(s: &str) -> (r: Result<usize, std::num::ParseIntError>)
    ensures
        r is Ok <==> in_range(decimal_value(s@, false), usize::MIN as int, usize::MAX as int),
        r is Ok ==> decimal_value(s@, false) == Some(r->Ok_0 as int),
{
    s.parse::<usize>()
}

impl Numeric for usize {
    open spec fn lowest() -> int {
        usize::MIN as int
    }

    open spec fn highest() -> int {
        usize::MAX as int
    }

    open spec fn value(&self) -> int {
        *self as int
    }

    fn parse_text(s: &str) -> (r: Result<usize, std::num::ParseIntError>) {
        parse_usize(s)
    }
}

} // verus!
