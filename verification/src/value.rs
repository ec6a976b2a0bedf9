//! Values as a formatter meets them at run time, and the choice of the text
//! that a value gives for a requested mode.

use vstd::prelude::*;
use vstd::string::StringExecFns;
use crate::decimal::{int_text, signed_to_string};
use crate::error::FormatError;
use crate::records::{
    Complex, DebugPrintable, Deep, Inspect, MinMax, Person, Point2D, Real, Show, Structure,
    UnPrintable,
};
use crate::text::{quote, quoted};

verus! {

/// The kind of text that is asked of a value.
#[derive(Debug, Clone, Copy, PartialEq, Eq)]
pub enum Mode {
    /// The human-readable text.
    Human,
    /// The inspection text on one line.
    Inspect,
    /// The inspection text in its pretty variant.
    Pretty,
}

/// A value of one of the types that this crate knows.
pub enum Value<'a> {
    /// An integer: shown and inspected in decimal.
    Int(i64),
    /// A string: shown as it is, inspected between quotes.
    Text(&'a str),
    /// A real number: shown and inspected by the texts that it carries.
    Real(Real),
    /// A record that defines no text.
    UnPrintable(UnPrintable),
    /// A record that can be inspected and not shown.
    DebugPrintable(DebugPrintable),
    /// A record in a record, inspected and not shown.
    Deep(Deep),
    /// A person, inspected and not shown.
    Person(Person<'a>),
    /// A record that can be shown and not inspected.
    Structure(Structure),
    /// A range, shown and inspected.
    MinMax(MinMax),
    /// A point, shown and inspected.
    Point2D(Point2D),
    /// A complex number, shown and inspected.
    Complex(Complex),
}

impl<'a> Value<'a> {
    /// Whether the value's type defines the text that the mode asks for.
    pub open spec fn supports(&self, mode: Mode) -> bool {
        match self {
            Value::Int(_) | Value::Text(_) | Value::Real(_) => true,
            Value::UnPrintable(_) => false,
            Value::DebugPrintable(_) | Value::Deep(_) | Value::Person(_) => mode != Mode::Human,
            Value::Structure(_) => mode == Mode::Human,
            Value::MinMax(_) | Value::Point2D(_) | Value::Complex(_) => true,
        }
    }

    /// The text that the value gives for a mode that its type supports.
    pub open spec fn text(&self, mode: Mode) -> Seq<char> {
        let pretty = mode == Mode::Pretty;
        match self {
            Value::Int(n) => int_text(*n as int),
            Value::Text(s) => if mode == Mode::Human {
                s@
            } else {
                quoted(s@)
            },
            Value::Real(r) => if mode == Mode::Human {
                r.shown@
            } else {
                r.inspected@
            },
            Value::UnPrintable(_) => Seq::empty(),
            Value::DebugPrintable(v) => v.inspect_text(pretty),
            Value::Deep(v) => v.inspect_text(pretty),
            Value::Person(v) => v.inspect_text(pretty),
            Value::Structure(v) => v.shown_text(),
            Value::MinMax(v) => if mode == Mode::Human {
                v.shown_text()
            } else {
                v.inspect_text(pretty)
            },
            Value::Point2D(v) => if mode == Mode::Human {
                v.shown_text()
            } else {
                v.inspect_text(pretty)
            },
            Value::Complex(v) => if mode == Mode::Human {
                v.shown_text()
            } else {
                v.inspect_text(pretty)
            },
        }
    }

    /// Tells whether the value's type defines the text that the mode asks for.
    pub fn can_render(&self, mode: Mode) -> (yes: bool)
        ensures
            yes == self.supports(mode),
    {
        let human = match mode {
            Mode::Human => true,
            _ => false,
        };
        match self {
            Value::Int(_) | Value::Text(_) | Value::Real(_) => true,
            Value::UnPrintable(_) => false,
            Value::DebugPrintable(_) | Value::Deep(_) | Value::Person(_) => !human,
            Value::Structure(_) => human,
            Value::MinMax(_) | Value::Point2D(_) | Value::Complex(_) => true,
        }
    }

    /// Chooses, by the value's type and the mode, the text to write, and
    /// writes it. A text that the type does not define is refused, and
    /// nothing is written in its place.
    pub fn render(&self, mode: Mode) -> (r: Result<String, FormatError>)
        ensures
            self.supports(mode) ==> r is Ok && r->Ok_0@ == self.text(mode),
            !self.supports(mode) ==> r == Err::<String, FormatError>(FormatError::Unsupported),
    {
        let (human, pretty) = match mode {
            Mode::Human => (true, false),
            Mode::Inspect => (false, false),
            Mode::Pretty => (false, true),
        };
        match self {
            Value::Int(n) => Ok(signed_to_string(*n)),
            Value::Text(s) => if human {
                Ok(String::from_str(s))
            } else {
                Ok(quote(s))
            },
            Value::Real(r) => if human {
                Ok(r.shown.clone())
            } else {
                Ok(r.inspected.clone())
            },
            Value::UnPrintable(_) => Err(FormatError::Unsupported),
            Value::DebugPrintable(v) => if human {
                Err(FormatError::Unsupported)
            } else {
                Ok(v.inspect(pretty))
            },
            Value::Deep(v) => if human {
                Err(FormatError::Unsupported)
            } else {
                Ok(v.inspect(pretty))
            },
            Value::Person(v) => if human {
                Err(FormatError::Unsupported)
            } else {
                Ok(v.inspect(pretty))
            },
            Value::Structure(v) => if human {
                Ok(v.fmt())
            } else {
                Err(FormatError::Unsupported)
            },
            Value::MinMax(v) => if human {
                Ok(v.fmt())
            } else {
                Ok(v.inspect(pretty))
            },
            Value::Point2D(v) => if human {
                Ok(v.fmt())
            } else {
                Ok(v.inspect(pretty))
            },
            Value::Complex(v) => if human {
                Ok(v.fmt())
            } else {
                Ok(v.inspect(pretty))
            },
        }
    }
}

} // verus!
