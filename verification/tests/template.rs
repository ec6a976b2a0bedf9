use record_fmt::error::FormatError;
use record_fmt::records::{
    Complex, DebugPrintable, Deep, MinMax, Person, Point2D, Real, Structure, UnPrintable,
};
use record_fmt::template;
use record_fmt::template::Template;
use record_fmt::value::Value;

fn number(x: f64) -> Real {
    Real { shown: format!("{}", x), inspected: format!("{:?}", x) }
}

fn none<'a>() -> Vec<(String, Value<'a>)> {
    Vec::new()
}

#[test]
fn text_without_holes_is_written_as_it_is() {
    assert_eq!(template::format("Compare structures", &vec![], &none()), Ok("Compare structures".to_string()));
    assert_eq!(template::format(" ", &vec![], &none()), Ok(" ".to_string()));
    assert_eq!(template::format("", &vec![], &none()), Ok(String::new()));
}

#[test]
fn doubled_braces_stand_for_one() {
    assert_eq!(template::format("{{}}", &vec![], &none()), Ok("{}".to_string()));
    assert_eq!(template::format("a{{b}}c", &vec![], &none()), Ok("a{b}c".to_string()));
    assert_eq!(template::format("{{{}}}", &vec![Value::Int(1)], &none()), Ok("{1}".to_string()));
}

#[test]
fn months_in_a_year() {
    assert_eq!(
        template::format("{:?} months in a year", &vec![Value::Int(12)], &none()),
        Ok("12 months in a year".to_string())
    );
}

#[test]
fn positional_and_named_arguments() {
    let positional = vec![Value::Text("Slater"), Value::Text("Christian")];
    let named = vec![("actor".to_string(), Value::Text("actor's"))];
    assert_eq!(
        template::format("{1:?} {0:?} is the {actor:?} name.", &positional, &named),
        Ok("\"Christian\" \"Slater\" is the \"actor's\" name.".to_string())
    );
    assert_eq!(
        template::format("{1} {0} is the {actor} name.", &positional, &named),
        Ok("Christian Slater is the actor's name.".to_string())
    );
}

#[test]
fn named_argument_is_substituted_whatever_the_positional_order() {
    let named = vec![("actor".to_string(), Value::Text("actor's"))];
    let one = vec![Value::Text("Slater"), Value::Text("Christian")];
    let other = vec![Value::Text("Christian"), Value::Text("Slater")];
    assert_eq!(template::format("{actor}", &one, &named), Ok("actor's".to_string()));
    assert_eq!(template::format("{actor}", &other, &named), Ok("actor's".to_string()));
    assert_eq!(template::format("{actor}", &vec![], &named), Ok("actor's".to_string()));
    assert_eq!(
        template::format("{0} {actor} {1}", &one, &named),
        Ok("Slater actor's Christian".to_string())
    );
    assert_eq!(
        template::format("{0} {actor} {1}", &other, &named),
        Ok("Christian actor's Slater".to_string())
    );
}

#[test]
fn records_fill_holes() {
    assert_eq!(
        template::format("Now {:?} will print!", &vec![Value::DebugPrintable(DebugPrintable(3))], &none()),
        Ok("Now DebugPrintable(3) will print!".to_string())
    );
    assert_eq!(
        template::format("Now {:?} will print!", &vec![Value::Deep(Deep(DebugPrintable(7)))], &none()),
        Ok("Now Deep(DebugPrintable(7)) will print!".to_string())
    );
    assert_eq!(
        template::format("{:#?}", &vec![Value::Person(Person { name: "Peter", age: 27 })], &none()),
        Ok("Person {\n    name: \"Peter\",\n    age: 27,\n}".to_string())
    );
}

#[test]
fn range_in_both_modes() {
    let positional = vec![Value::MinMax(MinMax(0, 14))];
    assert_eq!(template::format("Display: {}", &positional, &none()), Ok("Display: (0, 14)".to_string()));
    assert_eq!(template::format("Debug: {:?}", &positional, &none()), Ok("Debug: MinMax(0, 14)".to_string()));
}

#[test]
fn big_and_small_range_by_name() {
    let named = vec![
        ("big".to_string(), Value::MinMax(MinMax(-300, 300))),
        ("small".to_string(), Value::MinMax(MinMax(-3, 3))),
    ];
    assert_eq!(
        template::format("The big range is {big} and the small is {small}", &vec![], &named),
        Ok("The big range is (-300, 300) and the small is (-3, 3)".to_string())
    );
}

#[test]
fn point_and_complex_in_both_modes() {
    let point = vec![Value::Point2D(Point2D { x: number(3.3), y: number(7.2) })];
    assert_eq!(template::format("Display: {}", &point, &none()), Ok("Display: x: 3.3, y: 7.2".to_string()));
    assert_eq!(
        template::format("Debug: {:?}", &point, &none()),
        Ok("Debug: Point2D { x: 3.3, y: 7.2 }".to_string())
    );
    let complex = vec![Value::Complex(Complex { real: number(3.3), imag: number(7.2) })];
    assert_eq!(template::format("Display: {}", &complex, &none()), Ok("Display: 3.3 +7.2i".to_string()));
    assert_eq!(
        template::format("Debug: {:?}", &complex, &none()),
        Ok("Debug: Complex { real: 3.3, imag: 7.2 }".to_string())
    );
}

#[test]
fn holes_without_index_take_the_arguments_in_turn() {
    let positional = vec![Value::Int(1), Value::Int(2), Value::Int(3)];
    assert_eq!(template::format("{} {} {}", &positional, &none()), Ok("1 2 3".to_string()));
    assert_eq!(template::format("{}{:?}{:#?}", &positional, &none()), Ok("123".to_string()));
}

#[test]
fn explicit_holes_do_not_move_the_turn() {
    let positional = vec![Value::Int(10), Value::Int(20)];
    let named = vec![("n".to_string(), Value::Int(30))];
    assert_eq!(template::format("{} {1} {}", &positional, &none()), Ok("10 20 20".to_string()));
    assert_eq!(template::format("{1} {} {0} {}", &positional, &none()), Ok("20 10 10 20".to_string()));
    assert_eq!(template::format("{n} {} {n} {}", &positional, &named), Ok("30 10 30 20".to_string()));
}

#[test]
fn an_argument_may_fill_several_holes_or_none() {
    let positional = vec![Value::Int(1), Value::Int(2)];
    assert_eq!(template::format("{0}{0}{0}", &positional, &none()), Ok("111".to_string()));
    assert_eq!(template::format("nothing", &positional, &none()), Ok("nothing".to_string()));
}

#[test]
fn empty_mode_after_a_colon_shows() {
    let positional = vec![Value::Int(1), Value::Int(2)];
    assert_eq!(template::format("{:} {1:}", &positional, &none()), Ok("1 2".to_string()));
}

#[test]
fn index_with_leading_zeros() {
    let positional = vec![Value::Int(1), Value::Int(2)];
    assert_eq!(template::format("{01} {000}", &positional, &none()), Ok("2 1".to_string()));
}

#[test]
fn index_of_several_digits() {
    let positional: Vec<Value> = (0..13).map(|n| Value::Int(n * 100)).collect();
    assert_eq!(template::format("{12} {10}", &positional, &none()), Ok("1200 1000".to_string()));
    assert_eq!(template::format("{13}", &positional, &none()), Err(FormatError::UndefinedIndex));
}

#[test]
fn names_are_words() {
    let named = vec![
        ("_".to_string(), Value::Int(1)),
        ("a1".to_string(), Value::Int(2)),
        ("snake_case".to_string(), Value::Int(3)),
        ("Upper".to_string(), Value::Int(4)),
    ];
    assert_eq!(
        template::format("{_} {a1} {snake_case} {Upper:?}", &vec![], &named),
        Ok("1 2 3 4".to_string())
    );
}

#[test]
fn first_binding_of_a_name_counts() {
    let named = vec![("n".to_string(), Value::Int(1)), ("n".to_string(), Value::Int(2))];
    assert_eq!(template::format("{n}", &vec![], &named), Ok("1".to_string()));
}

#[test]
fn text_outside_ascii_passes_through() {
    let positional = vec![Value::Text("héllo")];
    assert_eq!(template::format("«{}» ✓", &positional, &none()), Ok("«héllo» ✓".to_string()));
}

#[test]
fn lone_closing_brace_is_malformed() {
    assert_eq!(template::format("}", &vec![], &none()), Err(FormatError::Malformed));
    assert_eq!(template::format("a } b", &vec![], &none()), Err(FormatError::Malformed));
    assert_eq!(template::format("{}}", &vec![Value::Int(1)], &none()), Err(FormatError::Malformed));
}

#[test]
fn unclosed_hole_is_malformed() {
    assert_eq!(template::format("{", &vec![], &none()), Err(FormatError::Malformed));
    assert_eq!(template::format("a {0", &vec![Value::Int(1)], &none()), Err(FormatError::Malformed));
    assert_eq!(template::format("{:", &vec![Value::Int(1)], &none()), Err(FormatError::Malformed));
    assert_eq!(template::format("{:?", &vec![Value::Int(1)], &none()), Err(FormatError::Malformed));
    assert_eq!(template::format("{:#?", &vec![Value::Int(1)], &none()), Err(FormatError::Malformed));
}

#[test]
fn unknown_mode_is_malformed() {
    let positional = vec![Value::Int(1)];
    assert_eq!(template::format("{:x}", &positional, &none()), Err(FormatError::Malformed));
    assert_eq!(template::format("{:#}", &positional, &none()), Err(FormatError::Malformed));
    assert_eq!(template::format("{:??}", &positional, &none()), Err(FormatError::Malformed));
    assert_eq!(template::format("{0 }", &positional, &none()), Err(FormatError::Malformed));
    assert_eq!(template::format("{ }", &positional, &none()), Err(FormatError::Malformed));
    assert_eq!(template::format("{0a}", &positional, &none()), Err(FormatError::Malformed));
    assert_eq!(template::format("{a-b}", &positional, &none()), Err(FormatError::Malformed));
}

#[test]
fn index_beyond_the_arguments_is_undefined() {
    let positional = vec![Value::Int(1), Value::Int(2)];
    assert_eq!(template::format("{2}", &positional, &none()), Err(FormatError::UndefinedIndex));
    assert_eq!(template::format("{0} {1} {5}", &positional, &none()), Err(FormatError::UndefinedIndex));
    assert_eq!(template::format("{0}", &vec![], &none()), Err(FormatError::UndefinedIndex));
}

#[test]
fn too_many_holes_without_index_are_undefined() {
    let positional = vec![Value::Int(1), Value::Int(2)];
    assert_eq!(template::format("{} {} {}", &positional, &none()), Err(FormatError::UndefinedIndex));
    assert_eq!(template::format("{}", &vec![], &none()), Err(FormatError::UndefinedIndex));
}

#[test]
fn index_that_no_machine_word_holds_is_undefined() {
    let positional = vec![Value::Int(1)];
    assert_eq!(
        template::format("{99999999999999999999999999999999}", &positional, &none()),
        Err(FormatError::UndefinedIndex)
    );
    assert_eq!(
        template::format("{18446744073709551616}", &positional, &none()),
        Err(FormatError::UndefinedIndex)
    );
    assert_eq!(
        template::format("{18446744073709551615}", &positional, &none()),
        Err(FormatError::UndefinedIndex)
    );
}

#[test]
fn name_that_was_not_bound_is_undefined() {
    let named = vec![("actor".to_string(), Value::Text("actor's"))];
    assert_eq!(template::format("{director}", &vec![], &named), Err(FormatError::UndefinedName));
    assert_eq!(template::format("{actor} {Actor}", &vec![], &named), Err(FormatError::UndefinedName));
    assert_eq!(template::format("{actor}", &vec![Value::Int(1)], &none()), Err(FormatError::UndefinedName));
}

#[test]
fn mode_that_the_type_lacks_is_unsupported() {
    let hidden = vec![Value::UnPrintable(UnPrintable(1))];
    assert_eq!(template::format("{}", &hidden, &none()), Err(FormatError::Unsupported));
    assert_eq!(template::format("{:?}", &hidden, &none()), Err(FormatError::Unsupported));
    assert_eq!(template::format("{:#?}", &hidden, &none()), Err(FormatError::Unsupported));
    let inspected = vec![Value::DebugPrintable(DebugPrintable(3))];
    assert_eq!(template::format("Now {} will print!", &inspected, &none()), Err(FormatError::Unsupported));
    let shown = vec![Value::Structure(Structure(3))];
    assert_eq!(template::format("{}", &shown, &none()), Ok("3".to_string()));
    assert_eq!(template::format("{:?}", &shown, &none()), Err(FormatError::Unsupported));
    let named = vec![("p".to_string(), Value::Person(Person { name: "Peter", age: 27 }))];
    assert_eq!(template::format("{p}", &vec![], &named), Err(FormatError::Unsupported));
}

#[test]
fn grammar_is_judged_before_the_arguments() {
    let positional = vec![Value::Int(1)];
    assert_eq!(template::format("{5} }", &positional, &none()), Err(FormatError::Malformed));
    assert_eq!(template::format("{nobody} {", &positional, &none()), Err(FormatError::Malformed));
}

#[test]
fn first_hole_that_cannot_be_filled_gives_the_error() {
    let positional = vec![Value::UnPrintable(UnPrintable(1))];
    assert_eq!(template::format("{} {nobody} {7}", &positional, &none()), Err(FormatError::Unsupported));
    assert_eq!(template::format("{nobody} {} {7}", &positional, &none()), Err(FormatError::UndefinedName));
    assert_eq!(template::format("{7} {nobody} {}", &positional, &none()), Err(FormatError::UndefinedIndex));
}

#[test]
fn nothing_is_written_when_a_later_hole_fails() {
    let positional = vec![Value::Int(1)];
    let result = template::format("written {} then {1}", &positional, &none());
    assert_eq!(result, Err(FormatError::UndefinedIndex));
}

#[test]
fn template_is_read_once_and_written_often() {
    let template = match Template::parse("{0} +{1}i") {
        Ok(template) => template,
        Err(e) => panic!("the template is well formed: {:?}", e),
    };
    let first = vec![Value::Real(number(3.3)), Value::Real(number(7.2))];
    let second = vec![Value::Int(1), Value::Int(2)];
    assert_eq!(template.check(&first, &none()), Ok(()));
    assert_eq!(template.render(&first, &none()), "3.3 +7.2i");
    assert_eq!(template.format(&second, &none()), Ok("1 +2i".to_string()));
    assert_eq!(template.check(&vec![Value::Int(1)], &none()), Err(FormatError::UndefinedIndex));
    assert_eq!(template.format(&vec![], &none()), Err(FormatError::UndefinedIndex));
}

#[test]
fn parse_reports_the_grammar_only() {
    assert!(Template::parse("{nobody} {12}").is_ok());
    assert!(matches!(Template::parse("{"), Err(FormatError::Malformed)));
    assert!(matches!(
        Template::parse("{340282366920938463463374607431768211456}"),
        Err(FormatError::UndefinedIndex)
    ));
}

#[test]
fn templates_agree_with_the_standard_library() {
    let positional = vec![Value::Text("Slater"), Value::Text("Christian")];
    let named = vec![("actor".to_string(), Value::Text("actor's"))];
    assert_eq!(
        template::format("{1:?} {0:?} is the {actor:?} name.", &positional, &named),
        Ok(format!("{1:?} {0:?} is the {actor:?} name.", "Slater", "Christian", actor = "actor's"))
    );
    assert_eq!(
        template::format("{} {1} {} {{{0:#?}}}", &vec![Value::Int(-5), Value::Int(6)], &none()),
        Ok(format!("{} {1} {} {{{0:#?}}}", -5, 6))
    );
}
