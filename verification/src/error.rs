//! The error surfaced to callers when the glyph atlas cannot grow any further.

use vstd::prelude::*;

verus! {

/// Result of `TextBrush` errors and problems.
#[derive(Debug, Clone, Copy, PartialEq, Eq, Structural)]
pub enum BrushError {
    /// Cache texture exceeded the limitations of the graphics device.
    /// Holds the device's maximum 2D texture dimension.
    TooBigCacheTexture(u32),
}

/// What every error message starts with.
pub const MESSAGE_HEAD: &'static str =
    "wgpu-text: While trying to resize the cache texture, the 'wgpu::Limits { max_texture_dimension_2d }' limit of ";

/// What follows the limit in the message about an atlas that is too big.
pub const MESSAGE_TAIL: &'static str =
    " was crossed!\nResizing the cache texture should be avoided from the start by building TextBrush with BrushBuilder::initial_cache_size() and providing bigger cache texture dimensions.";

/// The character that stands for a decimal digit.
pub open spec fn digit_char(digit: nat) -> char
    recommends
        digit < 10,
{
    if digit == 0 {
        '0'
    } else if digit == 1 {
        '1'
    } else if digit == 2 {
        '2'
    } else if digit == 3 {
        '3'
    } else if digit == 4 {
        '4'
    } else if digit == 5 {
        '5'
    } else if digit == 6 {
        '6'
    } else if digit == 7 {
        '7'
    } else if digit == 8 {
        '8'
    } else {
        '9'
    }
}

/// A number written in decimal, most significant digit first, without
/// leading zeros.
pub open spec fn decimal(n: nat) -> Seq<char>
    decreases n,
{
    if n < 10 {
        seq![digit_char(n)]
    } else {
        decimal(n / 10).push(digit_char(n % 10))
    }
}

/// The text of one decimal digit.
fn digit_text(digit: u32) -> (text: &'static str)
    requires
        digit < 10,
    ensures
        text@ == seq![digit_char(digit as nat)],
{
    proof {
        reveal_strlit("0");
        reveal_strlit("1");
        reveal_strlit("2");
        reveal_strlit("3");
        reveal_strlit("4");
        reveal_strlit("5");
        reveal_strlit("6");
        reveal_strlit("7");
        reveal_strlit("8");
        reveal_strlit("9");
    }
    let text = if digit == 0 {
        "0"
    } else if digit == 1 {
        "1"
    } else if digit == 2 {
        "2"
    } else if digit == 3 {
        "3"
    } else if digit == 4 {
        "4"
    } else if digit == 5 {
        "5"
    } else if digit == 6 {
        "6"
    } else if digit == 7 {
        "7"
    } else if digit == 8 {
        "8"
    } else {
        "9"
    };
    assert(text@ =~= seq![digit_char(digit as nat)]);
    text
}

/// Appends `n` in decimal to `text`.
fn push_decimal(text: &mut String, n: u32)
    ensures
        final(text)@ == old(text)@ + decimal(n as nat),
    decreases n,
{
    if n >= 10 {
        push_decimal(text, n / 10);
    }
    text.append(digit_text(n % 10));
    assert(text@ =~= old(text)@ + decimal(n as nat));
}

impl BrushError {
    /// The limit that was crossed.
    pub open spec fn limit(self) -> u32 {
        match self {
            BrushError::TooBigCacheTexture(dimensions) => dimensions,
        }
    }

    /// The text of the message: the device limit, in decimal, between the
    /// two fixed parts.
    pub open spec fn message_text(self) -> Seq<char> {
        MESSAGE_HEAD@ + decimal(self.limit() as nat) + MESSAGE_TAIL@
    }

    /// Describes the error to the user, and how to avoid it.
    pub fn message(&self) -> (text: String)
        ensures
            text@ == self.message_text(),
    {
        let mut text = String::from_str(MESSAGE_HEAD);
        match self {
            BrushError::TooBigCacheTexture(dimensions) => {
                push_decimal(&mut text, *dimensions);
            },
        }
        text.append(MESSAGE_TAIL);
        text
    }
}

} // verus!
