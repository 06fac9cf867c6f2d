//! Where an executable is left.

use vstd::prelude::*;
use vstd::string::*;

use crate::driver::fields::OutputType;

verus! {

/// The ten digits, in their order.
pub open spec fn digits() -> Seq<char> {
    "0123456789"@
}

/// The number in decimal, without leading zeros.
pub open spec fn decimal(number: nat) -> Seq<char>
    decreases number,
{
    if number < 10 {
        seq![digits()[number as int]]
    } else {
        decimal(number / 10).push(digits()[(number % 10) as int])
    }
}

/// The directory in which an executable is left: the one that was asked for,
/// else the one in which the toolchain left it, else the one the driver runs in.
pub open spec fn place_directory(
    output_directory: Option<Seq<char>>,
    parent: Option<Seq<char>>,
) -> Seq<char> {
    match output_directory {
        Some(directory) => directory,
        None => match parent {
            Some(directory) => directory,
            None => Seq::empty(),
        },
    }
}

/// The name under which an executable is left, before its extension: the name
/// that the toolchain gave it without its extension, and `output` with the
/// place of the executable in the answer where it has none.
pub open spec fn place_name(stem: Option<Seq<char>>, index: nat) -> Seq<char> {
    match stem {
        Some(name) => name,
        None => "output"@ + decimal(index),
    }
}

/// What an optional text stands for.
pub open spec fn optional_view(text: Option<String>) -> Option<Seq<char>> {
    match text {
        Some(text) => Some(text@),
        None => None,
    }
}

/// The digit `digit` as a text.
fn digit_text(digit: usize) -> (text: &'static str)
    requires
        digit < 10,
    ensures
        text@ == seq![digits()[digit as int]],
{
    proof {
        reveal_strlit("0123456789");
    }
    let all = "0123456789";
    let text = all.substring_ascii(digit, digit + 1);
    assert(text@ =~= seq![digits()[digit as int]]);
    text
}

/// The number in decimal.
pub fn decimal_text(number: usize) -> (text: String)
    ensures
        text@ == decimal(number as nat),
    decreases number,
{
    if number < 10 {
        digit_text(number).to_owned()
    } else {
        let text = decimal_text(number / 10).concat(digit_text(number % 10));
        assert(text@ =~= decimal(number as nat));
        text
    }
}

/// Settles where an executable is left: the directory, the name before the
/// extension, and the extension.
///
/// `output_directory` is the directory that was asked for, if one was.
/// `parent` and `stem` are the directory and the name without extension of the
/// executable as the toolchain left it, where its path has them, and `index`
/// is its place in the answer of the toolchain, from 0.
pub fn output_place(
    output_directory: Option<String>,
    parent: Option<String>,
    stem: Option<String>,
    index: usize,
    output_type: OutputType,
) -> (place: (String, String, &'static str))
    ensures
        place.0@ == place_directory(optional_view(output_directory), optional_view(parent)),
        place.1@ == place_name(optional_view(stem), index as nat),
        place.2@ == output_type.extension(),
{
    let directory = match output_directory {
        Some(directory) => directory,
        None => match parent {
            Some(directory) => directory,
            None => String::new(),
        },
    };
    let name = match stem {
        Some(name) => name,
        None => String::from_str("output").concat(decimal_text(index).as_str()),
    };
    (directory, name, output_type.extension_name())
}

} // verus!
