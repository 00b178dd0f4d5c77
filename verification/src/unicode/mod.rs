//! Unicode class lookup over the generated code point ranges.
pub mod tables;

use vstd::prelude::*;
pub use self::tables::{
    letter_class, letter_cp, number_class, number_cp, o200k_lower_class, o200k_lower_cp,
    o200k_upper_class, o200k_upper_cp, whitespace_class, whitespace_cp,
};

verus! {

/// `\p{L}`: the char is a letter.
pub fn is_letter(c: char) -> (r: bool)
    ensures
        r == letter_class(c as u32),
{
    letter_cp(c as u32)
}

/// `\p{N}`: the char is a number.
pub fn is_number(c: char) -> (r: bool)
    ensures
        r == number_class(c as u32),
{
    number_cp(c as u32)
}

/// `\s`: the char is white space.
pub fn is_whitespace(c: char) -> (r: bool)
    ensures
        r == whitespace_class(c as u32),
{
    whitespace_cp(c as u32)
}

/// `[\p{Lu}\p{Lt}\p{Lm}\p{Lo}\p{M}]`.
pub fn is_o200k_upper(c: char) -> (r: bool)
    ensures
        r == o200k_upper_class(c as u32),
{
    o200k_upper_cp(c as u32)
}

/// `[\p{Ll}\p{Lm}\p{Lo}\p{M}]`.
pub fn is_o200k_lower(c: char) -> (r: bool)
    ensures
        r == o200k_lower_class(c as u32),
{
    o200k_lower_cp(c as u32)
}

} // verus!
