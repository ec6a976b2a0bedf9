//! The grammar of templates.
//!
//! A template is text with holes. A hole stands between braces and names the
//! argument whose text takes its place, and the mode in which the argument
//! is written:
//!
//! ```text
//! template := ( text | "{{" | "}}" | hole )*
//! hole     := "{" [ index | name ] [ ":" [ "?" | "#?" ] ] "}"
//! index    := digit+
//! name     := ( letter | "_" ) ( letter | digit | "_" )*
//! ```
//!
//! Letters are the ASCII letters. A doubled brace stands for one brace. A hole without index or name takes
//! the next positional argument: the first such hole the argument 0, the
//! second the argument 1. Without a mode the argument is shown; `:?` asks for
//! its inspection text and `:#?` for the pretty variant.

use vstd::prelude::*;
use crate::decimal::{digits_value, is_digit, law_nat_text_reads_back, nat_text};
use crate::error::FormatError;
use crate::value::Mode;

verus! {

/// Classes of characters that the grammar tells apart.
#[derive(Clone, Copy)]
pub enum Class {
    /// Everything but the two braces.
    Plain,
    /// The decimal digits.
    Digit,
    /// What a name is made of: ASCII letters, digits and the underscore.
    Word,
}

/// Whether the character opens or closes a hole.
pub open spec fn is_brace(c: char) -> bool {
    c == '{' || c == '}'
}

/// Whether a name may begin with the character.
pub open spec fn is_word_start(c: char) -> bool {
    c == '_' || ('a' <= c && c <= 'z') || ('A' <= c && c <= 'Z')
}

impl Class {
    /// Whether the character belongs to the class.
    pub open spec fn admits(self, c: char) -> bool {
        match self {
            Class::Plain => !is_brace(c),
            Class::Digit => is_digit(c),
            Class::Word => is_word_start(c) || is_digit(c),
        }
    }

    /// Tells whether the character belongs to the class.
    pub fn has(self, c: char) -> (yes: bool)
        ensures
            yes == self.admits(c),
    {
        match self {
            Class::Plain => c != '{' && c != '}',
            Class::Digit => '0' <= c && c <= '9',
            Class::Word => c == '_' || ('a' <= c && c <= 'z') || ('A' <= c && c <= 'Z') || ('0'
                <= c && c <= '9'),
        }
    }
}

/// What a hole refers to.
pub enum Target {
    /// The positional argument with this index, counted from 0.
    Index(nat),
    /// The named argument with this name.
    Name(Seq<char>),
}

/// One piece of a template.
pub enum PieceView {
    /// Text that is written as it is.
    Literal(Seq<char>),
    /// A hole: the argument that fills it and the mode in which it is written.
    Hole(Target, Mode),
}

/// Where the longest run of characters of one class that starts at `i` ends:
/// the index of the first character from `i` on that is not of the class, or
/// the length of the text.
pub open spec fn run_end(s: Seq<char>, i: int, class: Class) -> int
    decreases s.len() - i,
{
    if 0 <= i < s.len() && class.admits(s[i]) {
        run_end(s, i + 1, class)
    } else {
        i
    }
}

/// Whether an index or a name begins at `i`.
pub open spec fn names_argument(s: Seq<char>, i: int) -> bool {
    0 <= i < s.len() && (is_digit(s[i]) || is_word_start(s[i]))
}

/// The target of the hole whose inside begins at `i`, and where the target
/// ends. `implicit` is the positional argument that the hole takes if it
/// names none.
pub open spec fn target_at(s: Seq<char>, i: int, implicit: nat) -> (Target, int) {
    if 0 <= i < s.len() && is_digit(s[i]) {
        let end = run_end(s, i, Class::Digit);
        (Target::Index(digits_value(s.subrange(i, end))), end)
    } else if 0 <= i < s.len() && is_word_start(s[i]) {
        let end = run_end(s, i, Class::Word);
        (Target::Name(s.subrange(i, end)), end)
    } else {
        (Target::Index(implicit), i)
    }
}

/// The mode of the hole whose target ends at `j`, and where the hole ends:
/// the index after its closing brace. `None` if what stands at `j` does not
/// close a hole.
pub open spec fn mode_at(s: Seq<char>, j: int) -> Option<(Mode, int)> {
    if 0 <= j < s.len() && s[j] == '}' {
        Some((Mode::Human, j + 1))
    } else if 0 <= j && j + 1 < s.len() && s[j] == ':' && s[j + 1] == '}' {
        Some((Mode::Human, j + 2))
    } else if 0 <= j && j + 2 < s.len() && s[j] == ':' && s[j + 1] == '?' && s[j + 2] == '}' {
        Some((Mode::Inspect, j + 3))
    } else if 0 <= j && j + 3 < s.len() && s[j] == ':' && s[j + 1] == '#' && s[j + 2] == '?'
        && s[j + 3] == '}' {
        Some((Mode::Pretty, j + 4))
    } else {
        None
    }
}

/// The piece that begins at `i`, where the next piece begins, and the
/// positional argument that the next hole without index or name takes.
///
/// An index that no `usize` holds is beyond every list of arguments: it is
/// undefined whatever the arguments are.
pub open spec fn piece_at(s: Seq<char>, i: int, implicit: nat) -> Result<
    (PieceView, int, nat),
    FormatError,
> {
    if s[i] == '{' {
        if i + 1 < s.len() && s[i + 1] == '{' {
            Ok((PieceView::Literal(seq!['{']), i + 2, implicit))
        } else {
            let (target, j) = target_at(s, i + 1, implicit);
            match mode_at(s, j) {
                None => Err(FormatError::Malformed),
                Some((mode, end)) => if target is Index && target->Index_0 > usize::MAX {
                    Err(FormatError::UndefinedIndex)
                } else if names_argument(s, i + 1) {
                    Ok((PieceView::Hole(target, mode), end, implicit))
                } else {
                    Ok((PieceView::Hole(target, mode), end, implicit + 1))
                },
            }
        }
    } else if s[i] == '}' {
        if i + 1 < s.len() && s[i + 1] == '}' {
            Ok((PieceView::Literal(seq!['}']), i + 2, implicit))
        } else {
            Err(FormatError::Malformed)
        }
    } else {
        let end = run_end(s, i, Class::Plain);
        Ok((PieceView::Literal(s.subrange(i, end)), end, implicit))
    }
}

/// The pieces of the text from `i` on, or the first error in it.
pub open spec fn pieces_from(s: Seq<char>, i: int, implicit: nat) -> Result<
    Seq<PieceView>,
    FormatError,
>
    decreases s.len() - i,
    via pieces_from_decreases
{
    if i < 0 || i >= s.len() {
        Ok(Seq::empty())
    } else {
        match piece_at(s, i, implicit) {
            Err(e) => Err(e),
            Ok((piece, next, count)) => match pieces_from(s, next, count) {
                Err(e) => Err(e),
                Ok(rest) => Ok(seq![piece] + rest),
            },
        }
    }
}

#[via_fn]
proof fn pieces_from_decreases(s: Seq<char>, i: int, implicit: nat) {
    if 0 <= i < s.len() {
        lemma_piece_at_advances(s, i, implicit);
    }
}

/// The pieces of a template, or the first error in it.
pub open spec fn parsed(text: Seq<char>) -> Result<Seq<PieceView>, FormatError> {
    pieces_from(text, 0, 0)
}

/// A run ends at or after its start and within the text, holds only
/// characters of its class, and cannot be made longer.
pub proof fn lemma_run_end(s: Seq<char>, i: int, class: Class)
    requires
        0 <= i <= s.len(),
    ensures
        i <= run_end(s, i, class) <= s.len(),
        forall|k: int| i <= k < run_end(s, i, class) ==> class.admits(#[trigger] s[k]),
        run_end(s, i, class) < s.len() ==> !class.admits(s[run_end(s, i, class)]),
    decreases s.len() - i,
{
    if i < s.len() && class.admits(s[i]) {
        lemma_run_end(s, i + 1, class);
    }
}

/// Every piece is at least one character long and ends within the text, and
/// no more holes have gone without index or name than characters were read.
pub proof fn lemma_piece_at_advances(s: Seq<char>, i: int, implicit: nat)
    requires
        0 <= i < s.len(),
    ensures
        piece_at(s, i, implicit) matches Ok((_, next, count)) ==> i < next <= s.len()
            && implicit <= count <= implicit + 1 && (count == implicit + 1 ==> i + 2 <= next),
{
    lemma_run_end(s, i, Class::Plain);
    lemma_run_end(s, i + 1, Class::Digit);
    lemma_run_end(s, i + 1, Class::Word);
}

/// A stretch of characters of one class that cannot be made longer is the
/// run that starts where it starts.
pub proof fn lemma_run_end_is(s: Seq<char>, i: int, j: int, class: Class)
    requires
        0 <= i <= j <= s.len(),
        forall|k: int| i <= k < j ==> class.admits(#[trigger] s[k]),
        j < s.len() ==> !class.admits(s[j]),
    ensures
        run_end(s, i, class) == j,
    decreases j - i,
{
    if i < j {
        lemma_run_end_is(s, i + 1, j, class);
    }
}

/// An index is read as it is written: a hole that holds the decimal text of
/// a number refers to the positional argument with that number.
pub proof fn law_index_hole_reads_back(n: nat)
    requires
        n <= usize::MAX,
    ensures
        parsed(seq!['{'] + nat_text(n) + seq!['}']) == Ok::<Seq<PieceView>, FormatError>(
            seq![PieceView::Hole(Target::Index(n), Mode::Human)],
        ),
{
    let digits = nat_text(n);
    let s = seq!['{'] + digits + seq!['}'];
    let end = 1 + digits.len() as int;
    law_nat_text_reads_back(n);
    assert forall|k: int| 1 <= k < end implies Class::Digit.admits(#[trigger] s[k]) by {
        assert(s[k] == digits[k - 1]);
    }
    lemma_run_end_is(s, 1, end, Class::Digit);
    assert(s.subrange(1, end) == digits);
    assert(pieces_from(s, end + 1, 0) == Ok::<Seq<PieceView>, FormatError>(Seq::empty()));
    assert(seq![PieceView::Hole(Target::Index(n), Mode::Human)] + Seq::<PieceView>::empty()
        == seq![PieceView::Hole(Target::Index(n), Mode::Human)]);
}

} // verus!
