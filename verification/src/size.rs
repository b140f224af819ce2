use vstd::prelude::*;
use crate::decimal::{
    chars_of, decimal_digits, is_digit, lemma_decimal_digits, lemma_parse_decimal, parse_u32_range,
    parse_u32_spec, without_sign,
};
use crate::error::RequestError;

verus! {

/// The character that joins width and height.
pub open spec fn separator() -> char {
    'x'
}

/// Whether position `i` of `s` holds the only separator in `s`.
pub open spec fn sole_separator(s: Seq<char>, i: int) -> bool {
    &&& 0 <= i < s.len()
    &&& s[i] == separator()
    &&& forall|j: int| 0 <= j < s.len() && s[j] == separator() ==> j == i
}

/// A width and a height as the size of an image: both must be at least 1.
pub open spec fn dimensions(width: u32, height: u32) -> Result<(u32, u32), RequestError> {
    if width >= 1 && height >= 1 {
        Ok((width, height))
    } else {
        Err(RequestError::InvalidSize)
    }
}

/// The dimensions that a size string asks for: an integer alone stands for a
/// square; otherwise the string must split at its single `x` into width and
/// height. Width and height are positive: a zero is no size.
pub open spec fn size_of(s: Seq<char>) -> Result<(u32, u32), RequestError> {
    match parse_u32_spec(s) {
        Some(side) => dimensions(side, side),
        None => {
            if exists|i: int| sole_separator(s, i) {
                let i = choose|i: int| sole_separator(s, i);
                match (parse_u32_spec(s.take(i)), parse_u32_spec(s.skip(i + 1))) {
                    (Some(width), Some(height)) => dimensions(width, height),
                    _ => Err(RequestError::InvalidSize),
                }
            } else {
                Err(RequestError::InvalidSize)
            }
        },
    }
}

/// Where the single separator of `chars` stands, if it has exactly one.
fn find_sole_separator(chars: &Vec<char>) -> (at: Option<usize>)
    ensures
        match at {
            Some(i) => sole_separator(chars@, i as int),
            None => !exists|i: int| sole_separator(chars@, i),
        },
{
    let mut found: Option<usize> = None;
    let mut k: usize = 0;
    while k < chars.len()
        invariant
            k <= chars.len(),
            match found {
                Some(i) => i < k && chars[i as int] == separator() && forall|j: int|
                    0 <= j < k && chars[j] == separator() ==> j == i,
                None => forall|j: int| 0 <= j < k ==> chars[j] != separator(),
            },
        decreases chars.len() - k,
    {
        if chars[k] == 'x' {
            match found {
                Some(_) => {
                    return None;
                },
                None => {
                    found = Some(k);
                },
            }
        }
        k += 1;
    }
    found
}

/// A width and a height as the size of an image, or the error where either is zero.
fn checked_dimensions(width: u32, height: u32) -> (r: Result<(u32, u32), RequestError>)
    ensures
        r == dimensions(width, height),
{
    if width >= 1 && height >= 1 {
        Ok((width, height))
    } else {
        Err(RequestError::InvalidSize)
    }
}

/// Reads a size: `N` for a square of side `N`, or `WxH`, with `N`, `W` and `H`
/// at least 1.
pub fn parse_size(size: &str) -> (r: Result<(u32, u32), RequestError>)
    ensures
        r == size_of(size@),
{
    let chars = chars_of(size);
    assert(chars@.subrange(0, chars.len() as int) == chars@);
    match parse_u32_range(&chars, 0, chars.len()) {
        Some(side) => checked_dimensions(side, side),
        None => {
            match find_sole_separator(&chars) {
                None => Err(RequestError::InvalidSize),
                Some(i) => {
                    let width = parse_u32_range(&chars, 0, i);
                    let height = parse_u32_range(&chars, i + 1, chars.len());
                    match (width, height) {
                        (Some(w), Some(h)) => checked_dimensions(w, h),
                        _ => Err(RequestError::InvalidSize),
                    }
                },
            }
        },
    }
}

/// The notation `WxH` of a width and a height.
pub open spec fn size_notation(width: u32, height: u32) -> Seq<char> {
    decimal_digits(width as nat) + seq![separator()] + decimal_digits(height as nat)
}

/// A number alone asks for a square: the decimal notation of any 32-bit `side`
/// of at least 1 reads as `side` by `side`.
pub proof fn lemma_square_size(side: u32)
    requires
        side >= 1,
    ensures
        size_of(decimal_digits(side as nat)) == Ok::<(u32, u32), RequestError>((side, side)),
{
    lemma_parse_decimal(side);
}

/// `WxH` asks for `W` by `H`: the notation of any 32-bit width and height of at
/// least 1 reads as that width and that height.
pub proof fn lemma_rect_size(width: u32, height: u32)
    requires
        width >= 1,
        height >= 1,
    ensures
        size_of(size_notation(width, height)) == Ok::<(u32, u32), RequestError>((width, height)),
{
    let left = decimal_digits(width as nat);
    let right = decimal_digits(height as nat);
    let s = size_notation(width, height);
    let at = left.len() as int;
    lemma_decimal_digits(width as nat);
    lemma_decimal_digits(height as nat);
    lemma_parse_decimal(width);
    lemma_parse_decimal(height);
    assert(!is_digit(s[at]));
    assert(sole_separator(s, at));
    assert(s.take(at) == left);
    assert(s.skip(at + 1) == right);
}

/// No size has a zero in it: whatever reads as a size is at least 1 wide and at
/// least 1 high.
pub proof fn lemma_size_is_positive(s: Seq<char>)
    ensures
        size_of(s) matches Ok((width, height)) ==> width >= 1 && height >= 1,
{
}

} // verus!
