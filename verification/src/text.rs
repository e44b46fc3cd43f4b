//! Text for the overlay: a queueing text writer and verified decimal
//! formatting for its labels.  Glyph shaping is the compositor side's
//! concern; the scene only records what to draw.

use vstd::prelude::*;
use crate::draw::{Brush, BrushModel, Color};
use crate::geom::Affine;
use crate::scene::{CommandModel, SceneBuf};
use vstd::string::StringExecFns;

verus! {

/// The decimal digit character for a value below ten.
pub open spec fn digit_char(d: int) -> char {
    if d == 0 {
        '0'
    } else if d == 1 {
        '1'
    } else if d == 2 {
        '2'
    } else if d == 3 {
        '3'
    } else if d == 4 {
        '4'
    } else if d == 5 {
        '5'
    } else if d == 6 {
        '6'
    } else if d == 7 {
        '7'
    } else if d == 8 {
        '8'
    } else {
        '9'
    }
}

/// The decimal digits of a number, most significant first.
pub open spec fn dec_digits(n: int) -> Seq<char>
    decreases n,
{
    if n < 10 {
        seq![digit_char(n)]
    } else {
        dec_digits(n / 10).push(digit_char(n % 10))
    }
}

/// A value counted in thousandths, shown with two decimal places, rounded
/// to the nearest hundredth (halves round up): the whole part, a point,
/// then two digits of hundredths.
pub open spec fn two_dec_label(v: int) -> Seq<char> {
    let c = v / 10 + if v % 10 >= 5 {
        1int
    } else {
        0int
    };
    dec_digits(c / 100) + seq!['.', digit_char(c % 100 / 10), digit_char(c % 100 % 10)]
}

/// One decimal digit as a string slice.
fn digit_str(d: u64) -> (s: &'static str)
    requires
        d < 10,
    ensures
        s@ == seq![digit_char(d as int)],
{
    proof {
        reveal_strlit("0");
        reveal_strlit("1");
        reveal_strlit("2");
        reveal_strlit("3");
        reveal_strlit("4");
        reveal_strlit("5");
        reveal_strlit("6");
        reveal_strlit("7");
        reveal_strlit("8");
        reveal_strlit("9");
    }
    let s: &'static str = if d == 0 {
        "0"
    } else if d == 1 {
        "1"
    } else if d == 2 {
        "2"
    } else if d == 3 {
        "3"
    } else if d == 4 {
        "4"
    } else if d == 5 {
        "5"
    } else if d == 6 {
        "6"
    } else if d == 7 {
        "7"
    } else if d == 8 {
        "8"
    } else {
        "9"
    };
    proof {
        assert(s@ =~= seq![digit_char(d as int)]);
    }
    s
}

/// The decimal representation of a number.
pub fn u64_to_string(n: u64) -> (s: String)
    ensures
        s@ == dec_digits(n as int),
    decreases n,
{
    if n < 10 {
        String::from_str(digit_str(n))
    } else {
        let prefix = u64_to_string(n / 10);
        let s = prefix.concat(digit_str(n % 10));
        proof {
            assert(s@ =~= dec_digits(n as int));
        }
        s
    }
}

/// A value counted in thousandths, formatted with two decimal places,
/// rounded to the nearest hundredth (halves round up).
pub fn format_two_dec(v: u64) -> (s: String)
    ensures
        s@ == two_dec_label(v as int),
{
    proof {
        reveal_strlit(".");
    }
    let c = v / 10 + if v % 10 >= 5 {
        1
    } else {
        0
    };
    let whole = u64_to_string(c / 100);
    let d1 = c % 100 / 10;
    let d2 = c % 100 % 10;
    let s = whole.concat(".").concat(digit_str(d1)).concat(digit_str(d2));
    proof {
        assert(s@ =~= two_dec_label(v as int));
    }
    s
}

/// Queues text lines into a scene.
pub struct SimpleText;

impl SimpleText {
    pub fn new() -> (t: SimpleText) {
        SimpleText
    }

    /// Queue one line of text at the given size and placement; without a
    /// brush the text is solid white.
    pub fn add(
        &mut self,
        scene: &mut SceneBuf,
        size: i64,
        brush: Option<&Brush>,
        transform: Affine,
        text: &str,
    )
        ensures
            final(scene)@ == old(scene)@.push(
                CommandModel::DrawText {
                    size,
                    transform,
                    brush: match brush {
                        Option::Some(b) => b@,
                        Option::None => BrushModel::Solid(Color { r: 255u8, g: 255u8, b: 255u8, a: 255u8 }),
                    },
                    text: text@,
                },
            ),
    {
        match brush {
            Some(b) => scene.draw_text(size, transform, b, text),
            None => scene.draw_text(
                size,
                transform,
                &Brush::Solid(Color { r: 255, g: 255, b: 255, a: 255 }),
                text,
            ),
        }
    }
}

impl Default for SimpleText {
    fn default() -> (t: Self) {
        SimpleText::new()
    }
}

} // verus!
