//! Templates: text with holes that arguments fill.
//!
//! A template is read once, held as its pieces, and can then be written any
//! number of times with different arguments. Everything that can be wrong is
//! found before the first character is written: the grammar when the
//! template is read, the references and the modes when the arguments are
//! checked.

use vstd::prelude::*;
use vstd::string::StringExecFns;
use crate::error::FormatError;
use crate::decimal::{digits_value, is_digit, lemma_digits_value_grows};
use crate::grammar::{
    is_brace, lemma_piece_at_advances, lemma_run_end, lemma_run_end_is, mode_at, names_argument,
    parsed, piece_at, pieces_from, run_end, target_at, Class, PieceView, Target,
};
use crate::text::{chars_of, string_of};
use crate::value::{Mode, Value};

verus! {

/// What a hole refers to.
enum Reference {
    /// The positional argument with this index, counted from 0.
    Index(usize),
    /// The named argument with this name.
    Name(String),
}

impl View for Reference {
    type V = Target;

    closed spec fn view(&self) -> Target {
        match self {
            Reference::Index(n) => Target::Index(*n as nat),
            Reference::Name(name) => Target::Name(name@),
        }
    }
}

/// One piece of a template.
enum Piece {
    /// Text that is written as it is.
    Literal(String),
    /// A hole: the argument that fills it and the mode in which it is written.
    Hole(Reference, Mode),
}

impl View for Piece {
    type V = PieceView;

    closed spec fn view(&self) -> PieceView {
        match self {
            Piece::Literal(text) => PieceView::Literal(text@),
            Piece::Hole(reference, mode) => PieceView::Hole(reference@, *mode),
        }
    }
}

/// The views of a sequence of pieces.
spec fn piece_views(pieces: Seq<Piece>) -> Seq<PieceView> {
    pieces.map_values(|p: Piece| p@)
}

/// A template that was read without error.
pub struct Template {
    pieces: Vec<Piece>,
}

impl View for Template {
    type V = Seq<PieceView>;

    closed spec fn view(&self) -> Seq<PieceView> {
        piece_views(self.pieces@)
    }
}

/// The pieces already read, followed by what the rest of the text gives.
spec fn followed_by(
    before: Seq<PieceView>,
    rest: Result<Seq<PieceView>, FormatError>,
) -> Result<Seq<PieceView>, FormatError> {
    match rest {
        Ok(pieces) => Ok(before + pieces),
        Err(e) => Err(e),
    }
}

/// The index of the first argument with the given name from `from` on.
pub open spec fn bound_from(named: Seq<(String, Value)>, name: Seq<char>, from: int) -> Option<int>
    decreases named.len() - from,
{
    if from < 0 || from >= named.len() {
        None
    } else if named[from].0@ == name {
        Some(from)
    } else {
        bound_from(named, name, from + 1)
    }
}

/// The argument that a hole refers to. Where a name is bound more than once,
/// the first binding counts.
pub open spec fn referent<'a>(
    target: Target,
    positional: Seq<Value<'a>>,
    named: Seq<(String, Value<'a>)>,
) -> Result<Value<'a>, FormatError> {
    match target {
        Target::Index(n) => if n < positional.len() {
            Ok(positional[n as int])
        } else {
            Err(FormatError::UndefinedIndex)
        },
        Target::Name(name) => match bound_from(named, name, 0) {
            Some(k) => Ok(named[k].1),
            None => Err(FormatError::UndefinedName),
        },
    }
}

/// Why a piece cannot be written, if it cannot: a hole whose argument was
/// not given, or whose argument's type does not define the text that the
/// hole asks for. Text can always be written.
pub open spec fn piece_fault(
    piece: PieceView,
    positional: Seq<Value>,
    named: Seq<(String, Value)>,
) -> Option<FormatError> {
    match piece {
        PieceView::Literal(_) => None,
        PieceView::Hole(target, mode) => match referent(target, positional, named) {
            Err(e) => Some(e),
            Ok(value) => if value.supports(mode) {
                None
            } else {
                Some(FormatError::Unsupported)
            },
        },
    }
}

/// The text that stands for a piece that can be written: text for itself, a
/// hole for the text that its argument gives in the hole's mode.
pub open spec fn piece_text(
    piece: PieceView,
    positional: Seq<Value>,
    named: Seq<(String, Value)>,
) -> Seq<char> {
    match piece {
        PieceView::Literal(text) => text,
        PieceView::Hole(target, mode) => match referent(target, positional, named) {
            Ok(value) => value.text(mode),
            Err(_) => Seq::empty(),
        },
    }
}

/// The fault of the first piece that cannot be written, if there is one.
pub open spec fn first_fault(
    pieces: Seq<PieceView>,
    positional: Seq<Value>,
    named: Seq<(String, Value)>,
) -> Option<FormatError>
    decreases pieces.len(),
{
    if pieces.len() == 0 {
        None
    } else {
        match piece_fault(pieces[0], positional, named) {
            Some(e) => Some(e),
            None => first_fault(pieces.drop_first(), positional, named),
        }
    }
}

/// The texts of the pieces, one after the other.
pub open spec fn rendered(
    pieces: Seq<PieceView>,
    positional: Seq<Value>,
    named: Seq<(String, Value)>,
) -> Seq<char>
    decreases pieces.len(),
{
    if pieces.len() == 0 {
        Seq::empty()
    } else {
        rendered(pieces.drop_last(), positional, named) + piece_text(
            pieces.last(),
            positional,
            named,
        )
    }
}

/// What formatting a template text with the given arguments yields: the
/// error of the grammar if there is one, else the error of the first hole
/// that cannot be filled, else the text.
pub open spec fn formatted(
    text: Seq<char>,
    positional: Seq<Value>,
    named: Seq<(String, Value)>,
) -> Result<Seq<char>, FormatError> {
    match parsed(text) {
        Err(e) => Err(e),
        Ok(pieces) => match first_fault(pieces, positional, named) {
            Some(e) => Err(e),
            None => Ok(rendered(pieces, positional, named)),
        },
    }
}

/// A text without braces is written as it is, whatever the arguments are.
pub proof fn law_plain_text_is_written_as_it_is(
    text: Seq<char>,
    positional: Seq<Value>,
    named: Seq<(String, Value)>,
)
    requires
        forall|k: int| 0 <= k < text.len() ==> !is_brace(#[trigger] text[k]),
    ensures
        formatted(text, positional, named) == Ok::<Seq<char>, FormatError>(text),
{
    if text.len() == 0 {
        assert(rendered(Seq::<PieceView>::empty(), positional, named) == text);
    } else {
        lemma_run_end_is(text, 0, text.len() as int, Class::Plain);
        let whole = PieceView::Literal(text.subrange(0, text.len() as int));
        assert(pieces_from(text, text.len() as int, 0) == Ok::<Seq<PieceView>, FormatError>(
            Seq::empty(),
        ));
        let pieces = seq![whole];
        assert(first_fault(pieces, positional, named) is None) by {
            reveal_with_fuel(first_fault, 2);
        }
        assert(rendered(pieces, positional, named) == text) by {
            reveal_with_fuel(rendered, 2);
        }
    }
}

/// Whether every hole among the pieces refers to its argument by name.
pub open spec fn by_name_only(pieces: Seq<PieceView>) -> bool {
    forall|k: int|
        0 <= k < pieces.len() ==> !(#[trigger] pieces[k] matches PieceView::Hole(
            Target::Index(_),
            _,
        ))
}

/// A hole that names its argument is filled from the named arguments alone:
/// whatever the positional arguments are, and in whatever order they stand,
/// the hole has the same fault or the same text.
pub proof fn law_named_hole_ignores_positional(
    name: Seq<char>,
    mode: Mode,
    one: Seq<Value>,
    other: Seq<Value>,
    named: Seq<(String, Value)>,
)
    ensures
        piece_fault(PieceView::Hole(Target::Name(name), mode), one, named) == piece_fault(
            PieceView::Hole(Target::Name(name), mode),
            other,
            named,
        ),
        piece_text(PieceView::Hole(Target::Name(name), mode), one, named) == piece_text(
            PieceView::Hole(Target::Name(name), mode),
            other,
            named,
        ),
{
}

/// A string bound to a name is shown as it is: the hole that names it,
/// without a mode, can be written, and its text is the string unchanged.
pub proof fn law_named_string_is_shown_verbatim(
    name: Seq<char>,
    k: int,
    positional: Seq<Value>,
    named: Seq<(String, Value)>,
)
    requires
        bound_from(named, name, 0) == Some(k),
        named[k].1 is Text,
    ensures
        piece_fault(PieceView::Hole(Target::Name(name), Mode::Human), positional, named) is None,
        piece_text(PieceView::Hole(Target::Name(name), Mode::Human), positional, named)
            == named[k].1->Text_0@,
{
}

/// Pieces whose holes all name their arguments have the same first fault and
/// the same text whatever the positional arguments are.
proof fn lemma_pieces_by_name(
    pieces: Seq<PieceView>,
    one: Seq<Value>,
    other: Seq<Value>,
    named: Seq<(String, Value)>,
)
    requires
        by_name_only(pieces),
    ensures
        first_fault(pieces, one, named) == first_fault(pieces, other, named),
        rendered(pieces, one, named) == rendered(pieces, other, named),
    decreases pieces.len(),
{
    if pieces.len() > 0 {
        lemma_pieces_by_name(pieces.drop_first(), one, other, named);
        lemma_pieces_by_name(pieces.drop_last(), one, other, named);
    }
}

/// A template whose holes all name their arguments yields the same, error
/// or text, whatever the positional arguments are and in whatever order
/// they stand.
pub proof fn law_named_template_ignores_positional(
    text: Seq<char>,
    one: Seq<Value>,
    other: Seq<Value>,
    named: Seq<(String, Value)>,
)
    requires
        parsed(text) matches Ok(pieces) ==> by_name_only(pieces),
    ensures
        formatted(text, one, named) == formatted(text, other, named),
{
    if let Ok(pieces) = parsed(text) {
        lemma_pieces_by_name(pieces, one, other, named);
    }
}

/// Finds where the run of characters of one class that starts at `from` ends.
fn scan(chars: &Vec<char>, from: usize, class: Class) -> (end: usize)
    requires
        from <= chars.len(),
    ensures
        end == run_end(chars@, from as int, class),
        from <= end <= chars.len(),
{
    let mut k: usize = from;
    while k < chars.len() && class.has(chars[k])
        invariant
            from <= k <= chars.len(),
            run_end(chars@, from as int, class) == run_end(chars@, k as int, class),
        decreases chars.len() - k,
    {
        k += 1;
    }
    k
}

/// Reads the number that the digits `chars[from..to]` stand for, if a
/// `usize` holds it.
fn index_value(chars: &Vec<char>, from: usize, to: usize) -> (r: Option<usize>)
    requires
        from <= to <= chars.len(),
        forall|j: int| from <= j < to ==> is_digit(#[trigger] chars@[j]),
    ensures
        r is Some ==> r->Some_0 == digits_value(chars@.subrange(from as int, to as int)),
        r is None ==> digits_value(chars@.subrange(from as int, to as int)) > usize::MAX,
{
    let mut value: usize = 0;
    let mut k: usize = from;
    while k < to
        invariant
            from <= k <= to <= chars.len(),
            forall|j: int| from <= j < to ==> is_digit(#[trigger] chars@[j]),
            value == digits_value(chars@.subrange(from as int, k as int)),
        decreases to - k,
    {
        let c = chars[k];
        let digit: usize = (c as u32 - '0' as u32) as usize;
        assert(chars@.subrange(from as int, k + 1).drop_last() == chars@.subrange(
            from as int,
            k as int,
        ));
        if value > (usize::MAX - digit) / 10 {
            proof {
                let all = chars@.subrange(from as int, to as int);
                lemma_digits_value_grows(all, k + 1 - from);
                assert(all.take(k + 1 - from) == chars@.subrange(from as int, k + 1));
            }
            return None;
        }
        value = value * 10 + digit;
        k += 1;
    }
    Some(value)
}

/// Reads the target of the hole whose inside begins at `i`. The target is
/// `None` where it is an index that no `usize` holds.
fn read_target(chars: &Vec<char>, i: usize, implicit: usize) -> (r: (Option<Reference>, usize))
    requires
        i <= chars.len(),
    ensures
        r.1 == target_at(chars@, i as int, implicit as nat).1,
        i <= r.1 <= chars.len(),
        (r.1 == i) == !names_argument(chars@, i as int),
        r.0 is Some ==> r.0->Some_0@ == target_at(chars@, i as int, implicit as nat).0,
        r.0 is None ==> (target_at(chars@, i as int, implicit as nat).0 matches Target::Index(n)
            && n > usize::MAX),
{
    if i < chars.len() && Class::Digit.has(chars[i]) {
        let end = scan(chars, i, Class::Digit);
        proof {
            lemma_run_end(chars@, i as int, Class::Digit);
            lemma_run_end(chars@, i + 1, Class::Digit);
        }
        match index_value(chars, i, end) {
            Some(n) => (Some(Reference::Index(n)), end),
            None => (None, end),
        }
    } else if i < chars.len() && Class::Word.has(chars[i]) {
        let end = scan(chars, i, Class::Word);
        proof {
            lemma_run_end(chars@, i + 1, Class::Word);
        }
        (Some(Reference::Name(string_of(chars, i, end))), end)
    } else {
        (Some(Reference::Index(implicit)), i)
    }
}

/// Reads the mode of the hole whose target ends at `j`, and the index after
/// the hole's closing brace.
fn read_mode(chars: &Vec<char>, j: usize) -> (r: Option<(Mode, usize)>)
    requires
        j <= chars.len(),
    ensures
        mode_at(chars@, j as int) matches Some((mode, end)) ==> r == Some((mode, end as usize))
            && j < end <= chars.len(),
        mode_at(chars@, j as int) is None ==> r is None,
{
    let n = chars.len();
    if j < n && chars[j] == '}' {
        Some((Mode::Human, j + 1))
    } else if j < n && chars[j] == ':' {
        if n - j > 1 && chars[j + 1] == '}' {
            Some((Mode::Human, j + 2))
        } else if n - j > 2 && chars[j + 1] == '?' && chars[j + 2] == '}' {
            Some((Mode::Inspect, j + 3))
        } else if n - j > 3 && chars[j + 1] == '#' && chars[j + 2] == '?' && chars[j + 3] == '}' {
            Some((Mode::Pretty, j + 4))
        } else {
            None
        }
    } else {
        None
    }
}

/// Reads the piece that begins at `i`.
fn next_piece(chars: &Vec<char>, i: usize, implicit: usize) -> (r: Result<
    (Piece, usize, usize),
    FormatError,
>)
    requires
        i < chars.len(),
        implicit <= i,
    ensures
        piece_at(chars@, i as int, implicit as nat) matches Ok((piece, next, count)) ==> r is Ok
            && r->Ok_0.0@ == piece && r->Ok_0.1 == next && r->Ok_0.2 == count,
        piece_at(chars@, i as int, implicit as nat) matches Err(e) ==> r is Err && r->Err_0 == e,
{
    let c = chars[i];
    if c == '{' || c == '}' {
        if chars.len() - i > 1 && chars[i + 1] == c {
            let brace = string_of(chars, i, i + 1);
            assert(brace@ == seq![c]);
            return Ok((Piece::Literal(brace), i + 2, implicit));
        }
        if c == '}' {
            return Err(FormatError::Malformed);
        }
        let (target, j) = read_target(chars, i + 1, implicit);
        match read_mode(chars, j) {
            None => Err(FormatError::Malformed),
            Some((mode, end)) => match target {
                None => Err(FormatError::UndefinedIndex),
                Some(reference) => if j == i + 1 {
                    Ok((Piece::Hole(reference, mode), end, implicit + 1))
                } else {
                    Ok((Piece::Hole(reference, mode), end, implicit))
                },
            },
        }
    } else {
        let end = scan(chars, i, Class::Plain);
        Ok((Piece::Literal(string_of(chars, i, end)), end, implicit))
    }
}

/// Finds the first argument with the given name.
fn find_named(named: &Vec<(String, Value)>, name: &String) -> (r: Option<usize>)
    ensures
        bound_from(named@, name@, 0) matches Some(k) ==> r == Some(k as usize) && 0 <= k
            < named.len(),
        bound_from(named@, name@, 0) is None ==> r is None,
{
    let mut k: usize = 0;
    while k < named.len()
        invariant
            k <= named.len(),
            bound_from(named@, name@, 0) == bound_from(named@, name@, k as int),
        decreases named.len() - k,
    {
        if named[k].0 == *name {
            return Some(k);
        }
        k += 1;
    }
    None
}

/// Finds the argument that a hole refers to.
fn referent_of<'v, 'a>(
    reference: &Reference,
    positional: &'v Vec<Value<'a>>,
    named: &'v Vec<(String, Value<'a>)>,
) -> (r: Result<&'v Value<'a>, FormatError>)
    ensures
        referent(reference@, positional@, named@) matches Ok(value) ==> r is Ok && *r->Ok_0
            == value,
        referent(reference@, positional@, named@) matches Err(e) ==> r is Err && r->Err_0 == e,
{
    match reference {
        Reference::Index(n) => if *n < positional.len() {
            Ok(&positional[*n])
        } else {
            Err(FormatError::UndefinedIndex)
        },
        Reference::Name(name) => match find_named(named, name) {
            Some(k) => Ok(&named[k].1),
            None => Err(FormatError::UndefinedName),
        },
    }
}

impl Template {
    /// Reads a template. The result is the template's pieces, or the first
    /// error that the text holds.
    pub fn parse(text: &str) -> (r: Result<Template, FormatError>)
        ensures
            parsed(text@) matches Ok(pieces) ==> r is Ok && r->Ok_0@ == pieces,
            parsed(text@) matches Err(e) ==> r is Err && r->Err_0 == e,
    {
        let chars = chars_of(text);
        let mut pieces: Vec<Piece> = Vec::new();
        let mut i: usize = 0;
        let mut implicit: usize = 0;
        while i < chars.len()
            invariant
                chars@ == text@,
                i <= chars.len(),
                implicit <= i,
                parsed(text@) == followed_by(
                    piece_views(pieces@),
                    pieces_from(chars@, i as int, implicit as nat),
                ),
            decreases chars.len() - i,
        {
            proof {
                lemma_piece_at_advances(chars@, i as int, implicit as nat);
            }
            match next_piece(&chars, i, implicit) {
                Err(e) => {
                    return Err(e);
                },
                Ok((piece, next, count)) => {
                    proof {
                        let before = piece_views(pieces@);
                        let rest = pieces_from(chars@, next as int, count as nat);
                        assert(piece_views(pieces@.push(piece)) == before.push(piece@));
                        assert(rest matches Ok(tail) ==> before + (seq![piece@] + tail)
                            == before.push(piece@) + tail);
                    }
                    pieces.push(piece);
                    i = next;
                    implicit = count;
                },
            }
        }
        Ok(Template { pieces })
    }

    /// Checks that every hole can be filled from the given arguments: that
    /// the argument it refers to was given, and that the argument's type
    /// defines the text that the hole asks for. The error is that of the
    /// first hole that cannot be filled.
    pub fn check(&self, positional: &Vec<Value>, named: &Vec<(String, Value)>) -> (r: Result<
        (),
        FormatError,
    >)
        ensures
            first_fault(self@, positional@, named@) is None ==> r is Ok,
            first_fault(self@, positional@, named@) matches Some(e) ==> r is Err && r->Err_0
                == e,
    {
        let mut k: usize = 0;
        assert(self@.skip(0) == self@);
        while k < self.pieces.len()
            invariant
                k <= self.pieces.len(),
                first_fault(self@, positional@, named@) == first_fault(
                    self@.skip(k as int),
                    positional@,
                    named@,
                ),
            decreases self.pieces.len() - k,
        {
            proof {
                assert(self@.skip(k as int).drop_first() == self@.skip(k + 1));
            }
            match &self.pieces[k] {
                Piece::Literal(_) => {},
                Piece::Hole(reference, mode) => {
                    match referent_of(reference, positional, named) {
                        Err(e) => {
                            return Err(e);
                        },
                        Ok(value) => {
                            if !value.can_render(*mode) {
                                return Err(FormatError::Unsupported);
                            }
                        },
                    }
                },
            }
            k += 1;
        }
        Ok(())
    }

    /// Writes the template with the given arguments, which must have passed
    /// `check`: every piece in order, a hole as the text of its argument.
    pub fn render(&self, positional: &Vec<Value>, named: &Vec<(String, Value)>) -> (out: String)
        requires
            first_fault(self@, positional@, named@) is None,
        ensures
            out@ == rendered(self@, positional@, named@),
    {
        let mut out = String::new();
        let mut k: usize = 0;
        assert(self@.skip(0) == self@);
        while k < self.pieces.len()
            invariant
                k <= self.pieces.len(),
                first_fault(self@.skip(k as int), positional@, named@) is None,
                out@ == rendered(self@.take(k as int), positional@, named@),
            decreases self.pieces.len() - k,
        {
            proof {
                assert(self@.skip(k as int).drop_first() == self@.skip(k + 1));
                assert(self@.take(k + 1).drop_last() == self@.take(k as int));
            }
            match &self.pieces[k] {
                Piece::Literal(text) => {
                    out.append(text.as_str());
                },
                Piece::Hole(reference, mode) => {
                    match referent_of(reference, positional, named) {
                        Err(_) => {
                            assert(false);
                        },
                        Ok(value) => {
                            match value.render(*mode) {
                                Err(_) => {
                                    assert(false);
                                },
                                Ok(text) => {
                                    out.append(text.as_str());
                                },
                            }
                        },
                    }
                },
            }
            k += 1;
        }
        out
    }

    /// Checks the arguments and, if every hole can be filled, writes the
    /// template with them.
    pub fn format(&self, positional: &Vec<Value>, named: &Vec<(String, Value)>) -> (r: Result<
        String,
        FormatError,
    >)
        ensures
            first_fault(self@, positional@, named@) is None ==> r is Ok && r->Ok_0@ == rendered(
                self@,
                positional@,
                named@,
            ),
            first_fault(self@, positional@, named@) matches Some(e) ==> r is Err && r->Err_0
                == e,
    {
        match self.check(positional, named) {
            Err(e) => Err(e),
            Ok(_) => Ok(self.render(positional, named)),
        }
    }
}

/// Formats a template text with positional and named arguments: reads the
/// template, checks the arguments against it and only then writes. The
/// result is the text, or the first error met on that way.
pub fn format(text: &str, positional: &Vec<Value>, named: &Vec<(String, Value)>) -> (r: Result<
    String,
    FormatError,
>)
    ensures
        formatted(text@, positional@, named@) matches Ok(out) ==> r is Ok && r->Ok_0@ == out,
        formatted(text@, positional@, named@) matches Err(e) ==> r is Err && r->Err_0 == e,
{
    match Template::parse(text) {
        Err(e) => Err(e),
        Ok(template) => template.format(positional, named),
    }
}

} // verus!
