//! Text as a sequence of characters: the units a caret moves by, and where
//! they begin and end.
//!
//! An offset counts characters from the start of the text, so every offset
//! from zero to the text's length is a place where a caret can stand.

use vstd::prelude::*;

verus! {

/// How far one movement or deletion reaches.
#[derive(Clone, Copy, Debug, PartialEq, Eq, Structural)]
pub enum Unit {
    /// One character.
    Character,
    /// To the boundary of a word: over any blanks and then over the
    /// characters that are not blank.
    Word,
    /// To the line break before, or the line break after.
    Line,
    /// To the start or the end of the whole text.
    Document,
}

/// Which way a movement or deletion goes.
#[derive(Clone, Copy, Debug, PartialEq, Eq, Structural)]
pub enum Direction {
    /// Towards the start of the text.
    Backward,
    /// Towards the end of the text.
    Forward,
}

/// A kind of character, by which a run of like characters is told from what
/// surrounds it.
#[derive(Clone, Copy, Debug, PartialEq, Eq, Structural)]
pub enum CharClass {
    /// A blank: space, tab, line feed or carriage return.
    Blank,
    /// Anything but a blank.
    Solid,
    /// Anything but a line feed.
    InLine,
}

/// Whether `c` is a blank.
pub open spec fn is_blank(c: char) -> bool {
    c == ' ' || c == '\t' || c == '\n' || c == '\r'
}

/// Whether `c` belongs to `class`.
pub open spec fn in_class(c: char, class: CharClass) -> bool {
    match class {
        CharClass::Blank => is_blank(c),
        CharClass::Solid => !is_blank(c),
        CharClass::InLine => c != '\n',
    }
}

/// Where the run of `class` characters that ends at `pos` starts: `pos`
/// itself if the character before it is of another class.
pub open spec fn run_start(text: Seq<char>, pos: int, class: CharClass) -> int
    decreases pos,
{
    if 0 < pos <= text.len() && in_class(text[pos - 1], class) {
        run_start(text, pos - 1, class)
    } else {
        pos
    }
}

/// Where the run of `class` characters that starts at `pos` ends: `pos`
/// itself if the character at it is of another class.
pub open spec fn run_end(text: Seq<char>, pos: int, class: CharClass) -> int
    decreases text.len() - pos,
{
    if 0 <= pos < text.len() && in_class(text[pos], class) {
        run_end(text, pos + 1, class)
    } else {
        pos
    }
}

/// The offset one `unit` before `pos`.
pub open spec fn boundary_before(text: Seq<char>, pos: int, unit: Unit) -> int {
    match unit {
        Unit::Character => if pos > 0 {
            pos - 1
        } else {
            pos
        },
        Unit::Word => run_start(text, run_start(text, pos, CharClass::Blank), CharClass::Solid),
        Unit::Line => run_start(text, pos, CharClass::InLine),
        Unit::Document => 0,
    }
}

/// The offset one `unit` after `pos`.
pub open spec fn boundary_after(text: Seq<char>, pos: int, unit: Unit) -> int {
    match unit {
        Unit::Character => if pos < text.len() {
            pos + 1
        } else {
            pos
        },
        Unit::Word => run_end(text, run_end(text, pos, CharClass::Blank), CharClass::Solid),
        Unit::Line => run_end(text, pos, CharClass::InLine),
        Unit::Document => text.len() as int,
    }
}

/// The offset one `unit` from `pos` in `direction`.
pub open spec fn boundary(text: Seq<char>, pos: int, unit: Unit, direction: Direction) -> int {
    match direction {
        Direction::Backward => boundary_before(text, pos, unit),
        Direction::Forward => boundary_after(text, pos, unit),
    }
}

/// The text with the characters from `from` up to `to` replaced by `insert`.
pub open spec fn spliced(text: Seq<char>, from: int, to: int, insert: Seq<char>) -> Seq<char> {
    text.subrange(0, from) + insert + text.subrange(to, text.len() as int)
}

/// A run's start is what its name says: it lies at or before `pos`, every
/// character between it and `pos` is of the class, and the character before
/// it, if there is one, is not.
pub proof fn lemma_run_start(text: Seq<char>, pos: int, class: CharClass)
    requires
        0 <= pos <= text.len(),
    ensures
        0 <= run_start(text, pos, class) <= pos,
        forall|i: int|
            run_start(text, pos, class) <= i < pos ==> in_class(#[trigger] text[i], class),
        run_start(text, pos, class) > 0 ==> !in_class(
            text[run_start(text, pos, class) - 1],
            class,
        ),
    decreases pos,
{
    if 0 < pos && in_class(text[pos - 1], class) {
        lemma_run_start(text, pos - 1, class);
    }
}

/// A run's end is what its name says: it lies at or after `pos`, every
/// character between `pos` and it is of the class, and the character at it,
/// if there is one, is not.
pub proof fn lemma_run_end(text: Seq<char>, pos: int, class: CharClass)
    requires
        0 <= pos <= text.len(),
    ensures
        pos <= run_end(text, pos, class) <= text.len(),
        forall|i: int| pos <= i < run_end(text, pos, class) ==> in_class(#[trigger] text[i], class),
        run_end(text, pos, class) < text.len() ==> !in_class(
            text[run_end(text, pos, class)],
            class,
        ),
    decreases text.len() - pos,
{
    if pos < text.len() && in_class(text[pos], class) {
        lemma_run_end(text, pos + 1, class);
    }
}

/// A boundary lies inside the text, and on the side of `pos` that the
/// direction names.
pub proof fn lemma_boundary_in_text(text: Seq<char>, pos: int, unit: Unit, direction: Direction)
    requires
        0 <= pos <= text.len(),
    ensures
        0 <= boundary(text, pos, unit, direction) <= text.len(),
        direction == Direction::Backward ==> boundary(text, pos, unit, direction) <= pos,
        direction == Direction::Forward ==> boundary(text, pos, unit, direction) >= pos,
{
    lemma_run_start(text, pos, CharClass::Blank);
    lemma_run_start(text, run_start(text, pos, CharClass::Blank), CharClass::Solid);
    lemma_run_start(text, pos, CharClass::InLine);
    lemma_run_end(text, pos, CharClass::Blank);
    lemma_run_end(text, run_end(text, pos, CharClass::Blank), CharClass::Solid);
    lemma_run_end(text, pos, CharClass::InLine);
}

/// Whether `c` belongs to `class`.
pub fn char_in_class(c: char, class: CharClass) -> (yes: bool)
    ensures
        yes == in_class(c, class),
{
    match class {
        CharClass::Blank => c == ' ' || c == '\t' || c == '\n' || c == '\r',
        CharClass::Solid => !(c == ' ' || c == '\t' || c == '\n' || c == '\r'),
        CharClass::InLine => c != '\n',
    }
}

/// The characters of `text`, one by one.
pub fn chars_of(text: &str) -> (chars: Vec<char>)
    ensures
        chars@ == text@,
{
    let mut chars: Vec<char> = Vec::new();
    for c in it: text.chars()
        invariant
            chars@ == it.seq().take(it.index() as int),
            it.seq() == text@,
    {
        chars.push(c);
    }
    chars
}

/// Where the run of `class` characters that ends at `pos` starts.
pub fn find_run_start(text: &Vec<char>, pos: usize, class: CharClass) -> (start: usize)
    requires
        pos <= text@.len(),
    ensures
        start == run_start(text@, pos as int, class),
        start <= pos,
{
    let mut at: usize = pos;
    while at > 0 && char_in_class(text[at - 1], class)
        invariant
            at <= pos <= text@.len(),
            run_start(text@, at as int, class) == run_start(text@, pos as int, class),
        decreases at,
    {
        at = at - 1;
    }
    at
}

/// Where the run of `class` characters that starts at `pos` ends.
pub fn find_run_end(text: &Vec<char>, pos: usize, class: CharClass) -> (end: usize)
    requires
        pos <= text@.len(),
    ensures
        end == run_end(text@, pos as int, class),
        pos <= end <= text@.len(),
{
    let mut at: usize = pos;
    while at < text.len() && char_in_class(text[at], class)
        invariant
            pos <= at <= text@.len(),
            run_end(text@, at as int, class) == run_end(text@, pos as int, class),
        decreases text@.len() - at,
    {
        at = at + 1;
    }
    at
}

/// The offset one `unit` from `pos` in `direction`.
pub fn find_boundary(text: &Vec<char>, pos: usize, unit: Unit, direction: Direction) -> (at: usize)
    requires
        pos <= text@.len(),
    ensures
        at == boundary(text@, pos as int, unit, direction),
        at <= text@.len(),
        direction == Direction::Backward ==> at <= pos,
        direction == Direction::Forward ==> at >= pos,
{
    match direction {
        Direction::Backward => match unit {
            Unit::Character => if pos > 0 {
                pos - 1
            } else {
                pos
            },
            Unit::Word => {
                let blanks: usize = find_run_start(text, pos, CharClass::Blank);
                find_run_start(text, blanks, CharClass::Solid)
            },
            Unit::Line => find_run_start(text, pos, CharClass::InLine),
            Unit::Document => 0,
        },
        Direction::Forward => match unit {
            Unit::Character => if pos < text.len() {
                pos + 1
            } else {
                pos
            },
            Unit::Word => {
                let blanks: usize = find_run_end(text, pos, CharClass::Blank);
                find_run_end(text, blanks, CharClass::Solid)
            },
            Unit::Line => find_run_end(text, pos, CharClass::InLine),
            Unit::Document => text.len(),
        },
    }
}

/// The characters of `text` from `from` up to `to`, as a string of their own.
pub fn slice_of(text: &str, from: usize, to: usize) -> (out: String)
    requires
        from <= to <= text@.len(),
    ensures
        out@ == text@.subrange(from as int, to as int),
{
    String::from_str(text.substring_char(from, to))
}

/// `text` with the characters from `from` up to `to` replaced by `insert`.
pub fn splice(text: &str, from: usize, to: usize, insert: &str) -> (out: String)
    requires
        from <= to <= text@.len(),
    ensures
        out@ == spliced(text@, from as int, to as int, insert@),
{
    let len: usize = text.unicode_len();
    let mut out: String = String::from_str(text.substring_char(0, from));
    out.append(insert);
    out.append(text.substring_char(to, len));
    out
}

} // verus!
