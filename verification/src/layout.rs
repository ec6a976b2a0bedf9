//! How the inspection text of a record is laid out: the record's name, then
//! its fields in the order of their declaration, on one line or, in the
//! pretty variant, one field per line.

use vstd::prelude::*;
use vstd::string::StringExecFns;
use crate::text::chars_of;

verus! {

/// The views of a sequence of strings.
pub open spec fn texts(strings: Seq<String>) -> Seq<Seq<char>> {
    strings.map_values(|s: String| s@)
}

/// The views of a sequence of fields, each a name and the text of a value.
pub open spec fn field_texts(fields: Seq<(String, String)>) -> Seq<(Seq<char>, Seq<char>)> {
    fields.map_values(|f: (String, String)| (f.0@, f.1@))
}

/// The parts in order, with the separator between each two neighbours.
pub open spec fn joined(parts: Seq<Seq<char>>, sep: Seq<char>) -> Seq<char>
    decreases parts.len(),
{
    if parts.len() == 0 {
        Seq::empty()
    } else if parts.len() == 1 {
        parts[0]
    } else {
        joined(parts.drop_last(), sep) + sep + parts.last()
    }
}

/// Whether the character at `i` is the first of a line.
pub open spec fn begins_line(s: Seq<char>, i: int) -> bool {
    i == 0 || s[i - 1] == '\n'
}

/// The text with every line moved in by one level: four spaces stand before
/// each character that begins a line, a line feed included.
pub open spec fn indented(s: Seq<char>) -> Seq<char>
    decreases s.len(),
{
    if s.len() == 0 {
        Seq::empty()
    } else if begins_line(s, s.len() - 1) {
        indented(s.drop_last()) + "    "@ + seq![s.last()]
    } else {
        indented(s.drop_last()).push(s.last())
    }
}

/// The body of a pretty record: each entry on a line of its own, moved in by
/// one level and closed by a comma, the last one too.
pub open spec fn pretty_lines(entries: Seq<Seq<char>>) -> Seq<char>
    decreases entries.len(),
{
    if entries.len() == 0 {
        Seq::empty()
    } else {
        pretty_lines(entries.drop_last()) + indented(entries.last() + ",\n"@)
    }
}

/// The inspection text of a record with unnamed fields, given the texts of
/// its fields: `Name(a, b)`. A record without fields is its name alone.
pub open spec fn tuple_text(name: Seq<char>, fields: Seq<Seq<char>>, pretty: bool) -> Seq<char> {
    if fields.len() == 0 {
        name
    } else if pretty {
        name + "(\n"@ + pretty_lines(fields) + ")"@
    } else {
        name + "("@ + joined(fields, ", "@) + ")"@
    }
}

/// One named field as it stands in a record: `field: value`.
pub open spec fn entry_text(field: (Seq<char>, Seq<char>)) -> Seq<char> {
    field.0 + ": "@ + field.1
}

/// The entries of all fields, in order.
pub open spec fn entry_texts(fields: Seq<(Seq<char>, Seq<char>)>) -> Seq<Seq<char>> {
    fields.map_values(|f: (Seq<char>, Seq<char>)| entry_text(f))
}

/// The inspection text of a record with named fields, given each field's name
/// and the text of its value: `Name { a: 1, b: 2 }`. A record without fields
/// is its name alone.
pub open spec fn named_text(
    name: Seq<char>,
    fields: Seq<(Seq<char>, Seq<char>)>,
    pretty: bool,
) -> Seq<char> {
    if fields.len() == 0 {
        name
    } else if pretty {
        name + " {\n"@ + pretty_lines(entry_texts(fields)) + "}"@
    } else {
        name + " { "@ + joined(entry_texts(fields), ", "@) + " }"@
    }
}

/// A text that holds no line feed is moved in as one line: four spaces,
/// then the text. An empty text stays empty.
pub proof fn law_indented_single_line(line: Seq<char>)
    requires
        !line.contains('\n'),
    ensures
        line.len() == 0 ==> indented(line) == Seq::<char>::empty(),
        line.len() > 0 ==> indented(line) == "    "@ + line,
    decreases line.len(),
{
    if line.len() > 0 {
        law_indented_single_line(line.drop_last());
    }
}

/// In the pretty variant an entry that holds no line feed takes one line:
/// four spaces, the entry, a comma and a line feed.
pub proof fn law_pretty_entry_line(entries: Seq<Seq<char>>, entry: Seq<char>)
    requires
        !entry.contains('\n'),
    ensures
        pretty_lines(entries.push(entry)) == pretty_lines(entries) + "    "@ + entry + ",\n"@,
{
    reveal_strlit(",\n");
    law_indented_single_line((entry + ",\n"@).drop_last());
    assert(entries.push(entry).drop_last() == entries);
}

/// On one line a record with unnamed fields is its name and, between
/// parentheses, the texts of its fields in order with `, ` between them.
pub proof fn law_tuple_text_on_one_line(name: Seq<char>, first: Seq<char>, second: Seq<char>)
    ensures
        tuple_text(name, seq![first], false) == name + "("@ + first + ")"@,
        tuple_text(name, seq![first, second], false) == name + "("@ + first + ", "@ + second
            + ")"@,
{
    let two = seq![first, second];
    assert(joined(two, ", "@) == first + ", "@ + second) by {
        reveal_with_fuel(joined, 2);
    }
}

/// On one line a record with named fields is its name and, between braces,
/// each field as `name: value`, in order with `, ` between them.
pub proof fn law_named_text_on_one_line(
    name: Seq<char>,
    first: (Seq<char>, Seq<char>),
    second: (Seq<char>, Seq<char>),
)
    ensures
        named_text(name, seq![first], false) == name + " { "@ + first.0 + ": "@ + first.1
            + " }"@,
        named_text(name, seq![first, second], false) == name + " { "@ + first.0 + ": "@
            + first.1 + ", "@ + second.0 + ": "@ + second.1 + " }"@,
{
    let two = entry_texts(seq![first, second]);
    assert(joined(two, ", "@) == entry_text(first) + ", "@ + entry_text(second)) by {
        reveal_with_fuel(joined, 2);
    }
}

/// In the pretty variant a record with two named fields whose texts hold no
/// line feed takes four lines: the name and the opening brace, one line for
/// each field, moved in and closed by a comma, and the closing brace.
pub proof fn law_named_text_pretty(
    name: Seq<char>,
    first: (Seq<char>, Seq<char>),
    second: (Seq<char>, Seq<char>),
)
    requires
        !first.0.contains('\n'),
        !first.1.contains('\n'),
        !second.0.contains('\n'),
        !second.1.contains('\n'),
    ensures
        named_text(name, seq![first, second], true) == name + " {\n"@ + "    "@ + first.0
            + ": "@ + first.1 + ",\n"@ + "    "@ + second.0 + ": "@ + second.1 + ",\n"@ + "}"@,
{
    reveal_strlit(": ");
    let a = entry_text(first);
    let b = entry_text(second);
    law_pretty_entry_line(Seq::empty(), a);
    law_pretty_entry_line(seq![a], b);
    assert(seq![a].push(b) == entry_texts(seq![first, second]));
}

/// Moves every line of a text in by one level.
pub fn indent(text: &str) -> (out: String)
    ensures
        out@ == indented(text@),
{
    let chars = chars_of(text);
    let mut out = String::new();
    let mut at_line_start = true;
    let mut i: usize = 0;
    while i < chars.len()
        invariant
            i <= chars.len(),
            at_line_start == begins_line(chars@, i as int),
            out@ == indented(chars@.take(i as int)),
            chars@ == text@,
        decreases chars.len() - i,
    {
        let c = chars[i];
        assert(chars@.take(i + 1).drop_last() == chars@.take(i as int));
        if at_line_start {
            out.append("    ");
        }
        out.push(c);
        at_line_start = c == '\n';
        i += 1;
    }
    assert(chars@.take(i as int) == chars@);
    out
}

/// The entries joined by `", "`.
fn join_entries(entries: &Vec<String>) -> (out: String)
    ensures
        out@ == joined(texts(entries@), ", "@),
{
    let mut out = String::new();
    let mut i: usize = 0;
    while i < entries.len()
        invariant
            i <= entries.len(),
            out@ == joined(texts(entries@).take(i as int), ", "@),
        decreases entries.len() - i,
    {
        assert(texts(entries@).take(i + 1).drop_last() == texts(entries@).take(i as int));
        if i > 0 {
            out.append(", ");
        }
        out.append(entries[i].as_str());
        i += 1;
    }
    assert(texts(entries@).take(i as int) == texts(entries@));
    out
}

/// The entries one per line, each moved in and closed by a comma.
fn lines_of(entries: &Vec<String>) -> (out: String)
    ensures
        out@ == pretty_lines(texts(entries@)),
{
    let mut out = String::new();
    let mut i: usize = 0;
    while i < entries.len()
        invariant
            i <= entries.len(),
            out@ == pretty_lines(texts(entries@).take(i as int)),
        decreases entries.len() - i,
    {
        assert(texts(entries@).take(i + 1).drop_last() == texts(entries@).take(i as int));
        let mut line = entries[i].clone();
        line.append(",\n");
        let moved = indent(line.as_str());
        out.append(moved.as_str());
        i += 1;
    }
    assert(texts(entries@).take(i as int) == texts(entries@));
    out
}

/// Writes the inspection text of a record with unnamed fields from the texts
/// of its fields.
pub fn tuple_record(name: &str, fields: &Vec<String>, pretty: bool) -> (out: String)
    ensures
        out@ == tuple_text(name@, texts(fields@), pretty),
{
    let mut out = String::from_str(name);
    if fields.len() == 0 {
        return out;
    }
    if pretty {
        let body = lines_of(fields);
        out.append("(\n");
        out.append(body.as_str());
        out.append(")");
    } else {
        let body = join_entries(fields);
        out.append("(");
        out.append(body.as_str());
        out.append(")");
    }
    out
}

/// Writes the inspection text of a record with named fields from each
/// field's name and the text of its value.
pub fn named_record(name: &str, fields: &Vec<(String, String)>, pretty: bool) -> (out: String)
    ensures
        out@ == named_text(name@, field_texts(fields@), pretty),
{
    let mut out = String::from_str(name);
    if fields.len() == 0 {
        return out;
    }
    let mut entries: Vec<String> = Vec::new();
    let mut i: usize = 0;
    while i < fields.len()
        invariant
            i <= fields.len(),
            texts(entries@) == entry_texts(field_texts(fields@)).take(i as int),
        decreases fields.len() - i,
    {
        let mut entry = fields[i].0.clone();
        entry.append(": ");
        entry.append(fields[i].1.as_str());
        proof {
            let all = entry_texts(field_texts(fields@));
            assert(all.take(i + 1) == all.take(i as int).push(all[i as int]));
        }
        entries.push(entry);
        i += 1;
    }
    assert(entry_texts(field_texts(fields@)).take(i as int) == entry_texts(field_texts(fields@)));
    if pretty {
        let body = lines_of(&entries);
        out.append(" {\n");
        out.append(body.as_str());
        out.append("}");
    } else {
        let body = join_entries(&entries);
        out.append(" { ");
        out.append(body.as_str());
        out.append(" }");
    }
    out
}

} // verus!
