//! The record types, and the texts that each of them defines.
//!
//! A type has an inspection text if it implements [`Inspect`], and a
//! human-readable text if it implements [`Show`]. Asking a type for a text
//! that it does not define does not compile.

use vstd::prelude::*;
use vstd::string::StringExecFns;
use crate::decimal::{int_text, nat_text, signed_to_string, unsigned_to_string};
use crate::layout::{
    field_texts, law_named_text_on_one_line, law_tuple_text_on_one_line, named_record, named_text,
    texts, tuple_record, tuple_text,
};
use crate::text::{quote, quoted};

verus! {

/// The capability of being inspected: a text that shows the value's
/// structure, the type's name and every field in the order of declaration.
pub trait Inspect {
    /// The inspection text, on one line or in the pretty variant.
    spec fn inspect_text(&self, pretty: bool) -> Seq<char>;

    /// Writes the inspection text.
    fn inspect(&self, pretty: bool) -> (out: String)
        ensures
            out@ == self.inspect_text(pretty),
    ;
}

/// The capability of being shown to a reader: a text that the type itself
/// defines.
pub trait Show {
    /// The human-readable text.
    spec fn shown_text(&self) -> Seq<char>;

    /// Writes the human-readable text.
    fn fmt(&self) -> (out: String)
        ensures
            out@ == self.shown_text(),
    ;
}

/// A record of one integer that defines no text at all.
#[derive(Clone, Copy)]
pub struct UnPrintable(pub i32);

/// A record of one integer that can be inspected.
#[derive(Clone, Copy)]
pub struct DebugPrintable(pub i32);

/// A record that holds another record.
#[derive(Clone, Copy)]
pub struct Deep(pub DebugPrintable);

/// A person, with named fields.
#[derive(Clone, Copy)]
pub struct Person<'a> {
    pub name: &'a str,
    pub age: u8,
}

/// A record of one integer that is shown as that integer.
#[derive(Clone, Copy)]
pub struct Structure(pub i32);

/// A range, given by its least and its greatest value.
#[derive(Clone, Copy)]
pub struct MinMax(pub i64, pub i64);

/// A real number as a formatter meets it: by the text that shows it and the
/// text that inspects it. This crate decides where these texts stand in
/// a record's text; how a real number is written is decided where the
/// number is held.
pub struct Real {
    pub shown: String,
    pub inspected: String,
}

/// A point in the plane.
pub struct Point2D {
    pub x: Real,
    pub y: Real,
}

/// A complex number.
pub struct Complex {
    pub real: Real,
    pub imag: Real,
}

impl Inspect for DebugPrintable {
    open spec fn inspect_text(&self, pretty: bool) -> Seq<char> {
        tuple_text("DebugPrintable"@, seq![int_text(self.0 as int)], pretty)
    }

    fn inspect(&self, pretty: bool) -> (out: String) {
        let mut fields: Vec<String> = Vec::new();
        fields.push(signed_to_string(self.0 as i64));
        assert(texts(fields@) == seq![int_text(self.0 as int)]);
        tuple_record("DebugPrintable", &fields, pretty)
    }
}

impl Inspect for Deep {
    open spec fn inspect_text(&self, pretty: bool) -> Seq<char> {
        tuple_text("Deep"@, seq![self.0.inspect_text(pretty)], pretty)
    }

    fn inspect(&self, pretty: bool) -> (out: String) {
        let mut fields: Vec<String> = Vec::new();
        fields.push(self.0.inspect(pretty));
        assert(texts(fields@) == seq![self.0.inspect_text(pretty)]);
        tuple_record("Deep", &fields, pretty)
    }
}

impl<'a> Inspect for Person<'a> {
    open spec fn inspect_text(&self, pretty: bool) -> Seq<char> {
        named_text(
            "Person"@,
            seq![("name"@, quoted(self.name@)), ("age"@, nat_text(self.age as nat))],
            pretty,
        )
    }

    fn inspect(&self, pretty: bool) -> (out: String) {
        let mut fields: Vec<(String, String)> = Vec::new();
        fields.push((String::from_str("name"), quote(self.name)));
        fields.push((String::from_str("age"), unsigned_to_string(self.age as u64)));
        assert(field_texts(fields@) == seq![
            ("name"@, quoted(self.name@)),
            ("age"@, nat_text(self.age as nat)),
        ]);
        named_record("Person", &fields, pretty)
    }
}

impl Show for Structure {
    open spec fn shown_text(&self) -> Seq<char> {
        int_text(self.0 as int)
    }

    fn fmt(&self) -> (out: String) {
        signed_to_string(self.0 as i64)
    }
}

impl Inspect for MinMax {
    open spec fn inspect_text(&self, pretty: bool) -> Seq<char> {
        tuple_text("MinMax"@, seq![int_text(self.0 as int), int_text(self.1 as int)], pretty)
    }

    fn inspect(&self, pretty: bool) -> (out: String) {
        let mut fields: Vec<String> = Vec::new();
        fields.push(signed_to_string(self.0));
        fields.push(signed_to_string(self.1));
        assert(texts(fields@) == seq![int_text(self.0 as int), int_text(self.1 as int)]);
        tuple_record("MinMax", &fields, pretty)
    }
}

impl Show for MinMax {
    open spec fn shown_text(&self) -> Seq<char> {
        "("@ + int_text(self.0 as int) + ", "@ + int_text(self.1 as int) + ")"@
    }

    fn fmt(&self) -> (out: String) {
        let mut out = String::from_str("(");
        out.append(signed_to_string(self.0).as_str());
        out.append(", ");
        out.append(signed_to_string(self.1).as_str());
        out.append(")");
        out
    }
}

impl Inspect for Point2D {
    open spec fn inspect_text(&self, pretty: bool) -> Seq<char> {
        named_text(
            "Point2D"@,
            seq![("x"@, self.x.inspected@), ("y"@, self.y.inspected@)],
            pretty,
        )
    }

    fn inspect(&self, pretty: bool) -> (out: String) {
        let mut fields: Vec<(String, String)> = Vec::new();
        fields.push((String::from_str("x"), self.x.inspected.clone()));
        fields.push((String::from_str("y"), self.y.inspected.clone()));
        assert(field_texts(fields@) == seq![("x"@, self.x.inspected@), ("y"@, self.y.inspected@)]);
        named_record("Point2D", &fields, pretty)
    }
}

impl Show for Point2D {
    open spec fn shown_text(&self) -> Seq<char> {
        "x: "@ + self.x.shown@ + ", y: "@ + self.y.shown@
    }

    fn fmt(&self) -> (out: String) {
        let mut out = String::from_str("x: ");
        out.append(self.x.shown.as_str());
        out.append(", y: ");
        out.append(self.y.shown.as_str());
        out
    }
}

impl Inspect for Complex {
    open spec fn inspect_text(&self, pretty: bool) -> Seq<char> {
        named_text(
            "Complex"@,
            seq![("real"@, self.real.inspected@), ("imag"@, self.imag.inspected@)],
            pretty,
        )
    }

    fn inspect(&self, pretty: bool) -> (out: String) {
        let mut fields: Vec<(String, String)> = Vec::new();
        fields.push((String::from_str("real"), self.real.inspected.clone()));
        fields.push((String::from_str("imag"), self.imag.inspected.clone()));
        assert(field_texts(fields@) == seq![
            ("real"@, self.real.inspected@),
            ("imag"@, self.imag.inspected@),
        ]);
        named_record("Complex", &fields, pretty)
    }
}

impl Show for Complex {
    open spec fn shown_text(&self) -> Seq<char> {
        self.real.shown@ + " +"@ + self.imag.shown@ + "i"@
    }

    fn fmt(&self) -> (out: String) {
        let mut out = self.real.shown.clone();
        out.append(" +");
        out.append(self.imag.shown.as_str());
        out.append("i");
        out
    }
}

/// On one line, the inspection text of every record that can be inspected
/// is the name of its type followed by its fields in the order of their
/// declaration: between parentheses where the fields have no names, between
/// braces and each behind its name where they have. A record inside a
/// record is written by the same rule.
pub proof fn law_inspection_shows_name_and_fields(
    one: DebugPrintable,
    deep: Deep,
    person: Person,
    range: MinMax,
    point: Point2D,
    complex: Complex,
)
    ensures
        one.inspect_text(false) == "DebugPrintable"@ + "("@ + int_text(one.0 as int) + ")"@,
        deep.inspect_text(false) == "Deep"@ + "("@ + deep.0.inspect_text(false) + ")"@,
        person.inspect_text(false) == "Person"@ + " { "@ + "name"@ + ": "@ + quoted(person.name@)
            + ", "@ + "age"@ + ": "@ + nat_text(person.age as nat) + " }"@,
        range.inspect_text(false) == "MinMax"@ + "("@ + int_text(range.0 as int) + ", "@
            + int_text(range.1 as int) + ")"@,
        point.inspect_text(false) == "Point2D"@ + " { "@ + "x"@ + ": "@ + point.x.inspected@
            + ", "@ + "y"@ + ": "@ + point.y.inspected@ + " }"@,
        complex.inspect_text(false) == "Complex"@ + " { "@ + "real"@ + ": "@
            + complex.real.inspected@ + ", "@ + "imag"@ + ": "@ + complex.imag.inspected@ + " }"@,
{
    let unused = Seq::<char>::empty();
    law_tuple_text_on_one_line("DebugPrintable"@, int_text(one.0 as int), unused);
    law_tuple_text_on_one_line("Deep"@, deep.0.inspect_text(false), unused);
    law_tuple_text_on_one_line("MinMax"@, int_text(range.0 as int), int_text(range.1 as int));
    law_named_text_on_one_line(
        "Person"@,
        ("name"@, quoted(person.name@)),
        ("age"@, nat_text(person.age as nat)),
    );
    law_named_text_on_one_line(
        "Point2D"@,
        ("x"@, point.x.inspected@),
        ("y"@, point.y.inspected@),
    );
    law_named_text_on_one_line(
        "Complex"@,
        ("real"@, complex.real.inspected@),
        ("imag"@, complex.imag.inspected@),
    );
}

} // verus!
