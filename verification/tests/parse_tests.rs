//! Tests of the annotation parser, driven through the host lexer: each input
//! is lexed by proc-macro2, flattened into the library's raw tokens, cooked,
//! and parsed.

use proc_macro2::{Delimiter, Spacing, TokenStream, TokenTree};
use rstest_parse::ast::{
    CaseArg, Expr, Fixture, MatrixInfo, Modifiers, ParametrizeData, ParametrizeInfo,
    RsTestAttribute, RsTestData, RsTestInfo, FixtureInfo, TestCase, ValueList,
};
use rstest_parse::error::ErrorKind;
use rstest_parse::token::{cook, render, Delim, RawToken, Token};

fn flatten(ts: TokenStream, out: &mut Vec<RawToken>) {
    for tt in ts {
        match tt {
            TokenTree::Ident(i) => out.push(RawToken::Ident(i.to_string())),
            TokenTree::Literal(l) => out.push(RawToken::Literal(l.to_string())),
            TokenTree::Punct(p) => {
                out.push(RawToken::Punct(p.as_char(), p.spacing() == Spacing::Joint))
            }
            TokenTree::Group(g) => {
                let d = match g.delimiter() {
                    Delimiter::Parenthesis => Some(Delim::Paren),
                    Delimiter::Bracket => Some(Delim::Bracket),
                    Delimiter::Brace => Some(Delim::Brace),
                    Delimiter::None => None,
                };
                match d {
                    Some(d) => {
                        out.push(RawToken::Open(d));
                        flatten(g.stream(), out);
                        out.push(RawToken::Close(d));
                    }
                    None => flatten(g.stream(), out),
                }
            }
        }
    }
}

fn toks(s: &str) -> Vec<Token> {
    let ts: TokenStream = s.parse().expect("the input must lex");
    let mut raw = Vec::new();
    flatten(ts, &mut raw);
    cook(&raw)
}

/// The canonical text of an expression or type written as `s`.
fn text_of(s: &str) -> String {
    let v = toks(s);
    render(&v, 0, v.len())
}

fn arg_texts(args: &[CaseArg]) -> Vec<String> {
    args.iter().map(|a| a.expr.text.clone()).collect()
}

fn expr_texts(es: &[Expr]) -> Vec<String> {
    es.iter().map(|e| e.text.clone()).collect()
}

fn texts(ss: &[&str]) -> Vec<String> {
    ss.iter().map(|s| text_of(s)).collect()
}

fn parse_test_case(s: &str) -> TestCase {
    TestCase::parse(&toks(s), &mut Vec::new()).unwrap()
}

fn parse_modifiers(s: &str) -> Modifiers {
    Modifiers::parse(&toks(s)).unwrap()
}

fn parse_values_list(s: &str) -> ValueList {
    ValueList::parse(&toks(s), &mut Vec::new()).unwrap()
}

fn parse_data(s: &str) -> ParametrizeData {
    ParametrizeData::parse(&toks(s), &mut Vec::new()).unwrap()
}

fn parse_matrix_info(s: &str) -> MatrixInfo {
    MatrixInfo::parse(&toks(s), &mut Vec::new()).unwrap()
}

fn literal_expressions_str() -> Vec<&'static str> {
    vec![
        "42",
        "42isize",
        "1.0",
        "-1",
        "-1.0",
        "true",
        "1_000_000u64",
        "0b10100101u8",
        r#""42""#,
        "b'H'",
    ]
}

// ---------------------------------------------------------------------------
// Fixture lists (rstest data).
// ---------------------------------------------------------------------------
#[test]
fn one_arg() {
    let fixtures = RsTestData::parse(&toks("my_fixture(42)")).unwrap();

    let fs = fixtures.fixtures();
    assert_eq!(fs.len(), 1);
    assert_eq!(fs[0].name.text, "my_fixture");
    assert_eq!(expr_texts(&fs[0].positional), texts(&["42"]));
}

// ---------------------------------------------------------------------------
// Fixture directive.
// ---------------------------------------------------------------------------
fn assert_trace_no_trace_some(mods: &[RsTestAttribute]) {
    assert_eq!(mods.len(), 2);
    match &mods[0] {
        RsTestAttribute::Attr(i) => assert_eq!(i.text, "trace"),
        _ => panic!("expected a bare flag"),
    }
    match &mods[1] {
        RsTestAttribute::Tagged(i, ids) => {
            assert_eq!(i.text, "no_trace");
            assert_eq!(ids.len(), 1);
            assert_eq!(ids[0].text, "some");
        }
        _ => panic!("expected a tagged group"),
    }
}

#[test]
fn fixture_parse_happy_path() {
    let data = FixtureInfo::parse(&toks(
        r#"my_fixture(42, "other"), other(vec![42])
                    :: trace :: no_trace(some)"#,
    ))
    .unwrap();

    let fs = data.data.fixtures();
    assert_eq!(fs.len(), 2);
    assert_eq!(fs[0].name.text, "my_fixture");
    assert_eq!(expr_texts(&fs[0].positional), texts(&["42", r#""other""#]));
    assert_eq!(fs[1].name.text, "other");
    assert_eq!(expr_texts(&fs[1].positional), texts(&["vec![42]"]));
    assert_trace_no_trace_some(&data.modifiers.modifiers.modifiers);
}

#[test]
fn fixture_parse_empty_fixtures() {
    let data = FixtureInfo::parse(&toks(r#"::trace::no_trace(some)"#)).unwrap();

    assert_eq!(data.data.fixtures().len(), 0);
    assert_trace_no_trace_some(&data.modifiers.modifiers.modifiers);
}

#[test]
fn fixture_parse_empty_modifiers() {
    let data = FixtureInfo::parse(&toks(r#"my_fixture(42, "other")"#)).unwrap();

    let fs = data.data.fixtures();
    assert_eq!(fs.len(), 1);
    assert_eq!(fs[0].name.text, "my_fixture");
    assert_eq!(expr_texts(&fs[0].positional), texts(&["42", r#""other""#]));
    assert_eq!(data.modifiers.modifiers.modifiers.len(), 0);
}

#[test]
fn should_accept_trailing_comma() {
    let fixtures = vec![FixtureInfo::parse(&toks(r#"first(42),"#)).unwrap()];

    for f in fixtures {
        assert_eq!(1, f.data.fixtures().len());
    }
}

// ---------------------------------------------------------------------------
// RsTest directive.
// ---------------------------------------------------------------------------
#[test]
fn rstest_parse_happy_path() {
    let data = RsTestInfo::parse(&toks(
        r#"my_fixture(42, "other"), other(vec![42])
                    :: trace :: no_trace(some)"#,
    ))
    .unwrap();

    let fs = data.data.fixtures();
    assert_eq!(fs.len(), 2);
    assert_eq!(fs[0].name.text, "my_fixture");
    assert_eq!(expr_texts(&fs[0].positional), texts(&["42", r#""other""#]));
    assert_eq!(fs[1].name.text, "other");
    assert_eq!(expr_texts(&fs[1].positional), texts(&["vec![42]"]));
    assert_trace_no_trace_some(&data.modifiers.modifiers.modifiers);
}

#[test]
fn rstest_parse_empty_fixtures() {
    let data = RsTestInfo::parse(&toks(r#"::trace::no_trace(some)"#)).unwrap();

    assert_eq!(data.data.fixtures().len(), 0);
    assert_trace_no_trace_some(&data.modifiers.modifiers.modifiers);
}

#[test]
fn rstest_parse_empty_modifiers() {
    let data = RsTestInfo::parse(&toks(r#"my_fixture(42, "other")"#)).unwrap();

    let fs = data.data.fixtures();
    assert_eq!(fs.len(), 1);
    assert_eq!(fs[0].name.text, "my_fixture");
    assert_eq!(expr_texts(&fs[0].positional), texts(&["42", r#""other""#]));
    assert_eq!(data.modifiers.modifiers.modifiers.len(), 0);
}

// ---------------------------------------------------------------------------
// Modifiers.
// ---------------------------------------------------------------------------
#[test]
fn one_simple_ident() {
    let modifiers = parse_modifiers("my_ident");

    assert_eq!(modifiers.modifiers.len(), 1);
    match &modifiers.modifiers[0] {
        RsTestAttribute::Attr(i) => assert_eq!(i.text, "my_ident"),
        _ => panic!("expected a bare flag"),
    }
}

#[test]
fn one_simple_group() {
    let modifiers = parse_modifiers("group_tag(first, second)");

    assert_eq!(modifiers.modifiers.len(), 1);
    match &modifiers.modifiers[0] {
        RsTestAttribute::Tagged(i, ids) => {
            assert_eq!(i.text, "group_tag");
            let id_texts: Vec<String> = ids.iter().map(|x| x.text.clone()).collect();
            assert_eq!(id_texts, vec!["first".to_string(), "second".to_string()]);
        }
        _ => panic!("expected a tagged group"),
    }
}

#[test]
fn one_simple_type() {
    let modifiers = parse_modifiers("type_tag<(u32, T, (String, i32))>");

    assert_eq!(modifiers.modifiers.len(), 1);
    match &modifiers.modifiers[0] {
        RsTestAttribute::Type(i, ty) => {
            assert_eq!(i.text, "type_tag");
            assert_eq!(ty.text, text_of("(u32, T, (String, i32))"));
        }
        _ => panic!("expected a type binding"),
    }
}

#[test]
fn integrated() {
    let modifiers = parse_modifiers(
        r#"
            simple :: tagged(first, second) :: type_tag<(u32, T, (std::string::String, i32))> :: more_tagged(a,b)"#,
    );

    assert_eq!(modifiers.modifiers.len(), 4);
    match &modifiers.modifiers[0] {
        RsTestAttribute::Attr(i) => assert_eq!(i.text, "simple"),
        _ => panic!("expected a bare flag"),
    }
    match &modifiers.modifiers[1] {
        RsTestAttribute::Tagged(i, ids) => {
            assert_eq!(i.text, "tagged");
            let id_texts: Vec<String> = ids.iter().map(|x| x.text.clone()).collect();
            assert_eq!(id_texts, vec!["first".to_string(), "second".to_string()]);
        }
        _ => panic!("expected a tagged group"),
    }
    match &modifiers.modifiers[2] {
        RsTestAttribute::Type(i, ty) => {
            assert_eq!(i.text, "type_tag");
            assert_eq!(ty.text, text_of("(u32, T, (std::string::String, i32))"));
        }
        _ => panic!("expected a type binding"),
    }
    match &modifiers.modifiers[3] {
        RsTestAttribute::Tagged(i, ids) => {
            assert_eq!(i.text, "more_tagged");
            let id_texts: Vec<String> = ids.iter().map(|x| x.text.clone()).collect();
            assert_eq!(id_texts, vec!["a".to_string(), "b".to_string()]);
        }
        _ => panic!("expected a tagged group"),
    }
}

// ---------------------------------------------------------------------------
// Test cases.
// ---------------------------------------------------------------------------
#[test]
fn two_literal_args() {
    let test_case = parse_test_case(r#"case(42, "value")"#);

    assert_eq!(arg_texts(&test_case.args), texts(&["42", r#""value""#]));
    assert!(test_case.description.is_none());
}

#[test]
fn case_parse_some_literals() {
    let args_expressions = literal_expressions_str();
    let test_case = parse_test_case(&format!("case({})", args_expressions.join(", ")));

    assert_eq!(arg_texts(&test_case.args), texts(&args_expressions));
}

#[test]
fn case_parse_raw_code() {
    let test_case = parse_test_case(r#"case(vec![1,2,3])"#);

    assert_eq!(arg_texts(&test_case.args), texts(&["vec![1, 2, 3]"]));
}

#[test]
fn should_read_test_description_if_any() {
    let test_case = parse_test_case(r#"case::this_test_description(42)"#);

    assert_eq!("this_test_description", test_case.description.as_ref().unwrap().text);
    assert_eq!(arg_texts(&test_case.args), texts(&["42"]));
}

#[test]
fn should_read_test_description_also_with_more_args() {
    let test_case = parse_test_case(r#"case :: this_test_description (42, 24)"#);

    assert_eq!("this_test_description", test_case.description.as_ref().unwrap().text);
    assert_eq!(arg_texts(&test_case.args), texts(&["42", "24"]));
}

#[test]
fn should_parse_arbitrary_rust_code_as_expression() {
    let test_case = parse_test_case(
        r##"
            case(42, -42,
            pippo("pluto"),
            Vec::new(),
            String::from(r#"prrr"#),
            {
                let mut sum=0;
                for i in 1..3 {
                    sum += i;
                }
                sum
            },
            vec![1,2,3]
            )"##,
    );

    assert_eq!(
        arg_texts(&test_case.args),
        texts(&[
            "42",
            "-42",
            r#"pippo("pluto")"#,
            "Vec::new()",
            r##"String::from(r#"prrr"#)"##,
            r#"{let mut sum=0;for i in 1..3 {sum += i;}sum}"#,
            "vec![1,2,3]",
        ])
    );
}

// ---------------------------------------------------------------------------
// Parametrize item lists.
// ---------------------------------------------------------------------------
#[test]
fn one_simple_case_one_arg() {
    let data = parse_data(r#"arg, case(42)"#);

    let args = data.args();
    let cases = data.cases();

    assert_eq!(1, args.len());
    assert_eq!(1, cases.len());
    assert_eq!("arg", args[0].text);
    assert_eq!(arg_texts(&cases[0].args), texts(&["42"]));
}

#[test]
fn parametrize_parse_happy_path() {
    let data = parse_data(
        r#"
                my_fixture(42,"foo"),
                arg1, arg2, arg3,
                case(1,2,3),
                case(11,12,13),
                case(21,22,23)
                "#,
    );

    let fixtures = data.fixtures();
    assert_eq!(fixtures.len(), 1);
    assert_eq!(fixtures[0].name.text, "my_fixture");
    assert_eq!(expr_texts(&fixtures[0].positional), texts(&["42", r#""foo""#]));

    let arg_names: Vec<String> = data.args().iter().map(|i| i.text.clone()).collect();
    assert_eq!(arg_names, vec!["arg1".to_string(), "arg2".to_string(), "arg3".to_string()]);

    let cases = data.cases();
    assert_eq!(3, cases.len());
    assert_eq!(arg_texts(&cases[0].args), texts(&["1", "2", "3"]));
    assert_eq!(arg_texts(&cases[1].args), texts(&["11", "12", "13"]));
    assert_eq!(arg_texts(&cases[2].args), texts(&["21", "22", "23"]));
}

#[test]
fn should_accept_comma_at_the_end_of_cases() {
    let data = parse_data(
        r#"
                arg,
                case(42),
                "#,
    );

    let args = data.args();
    let cases = data.cases();

    assert_eq!(1, args.len());
    assert_eq!(1, cases.len());
    assert_eq!("arg", args[0].text);
    assert_eq!(arg_texts(&cases[0].args), texts(&["42"]));
}

#[test]
fn integrated_1() {
    let data = parse_data(
        r#"
                u,a,d,
                case(42, A{}, D{})
                "#,
    );

    let arg_names: Vec<String> = data.args().iter().map(|i| i.text.clone()).collect();
    assert_eq!(arg_names, vec!["u".to_string(), "a".to_string(), "d".to_string()]);
    let cases = data.cases();
    assert_eq!(1, cases.len());
    assert_eq!(arg_texts(&cases[0].args), texts(&["42", "A{}", "D{}"]));
}

#[test]
fn integrated_2() {
    let data = parse_data(
        r#"
                ret,
                case::should_success(Ok(())),
                case::should_fail(Err("Return Error"))
                "#,
    );

    let arg_names: Vec<String> = data.args().iter().map(|i| i.text.clone()).collect();
    assert_eq!(arg_names, vec!["ret".to_string()]);
    let cases = data.cases();
    assert_eq!(2, cases.len());
    assert_eq!(arg_texts(&cases[0].args), texts(&["Ok(())"]));
    assert_eq!("should_success", cases[0].description.as_ref().unwrap().text);
    assert_eq!(arg_texts(&cases[1].args), texts(&[r#"Err("Return Error")"#]));
    assert_eq!("should_fail", cases[1].description.as_ref().unwrap().text);
}

#[test]
fn parametrize_rejects_missing_separator() {
    let e = ParametrizeData::parse(
        &toks(
            r#"
                ret
                case::should_success(Ok(())),
                case::should_fail(Err("Return Error"))
                "#,
        ),
        &mut Vec::new(),
    )
    .unwrap_err();

    assert_eq!(e.kind, ErrorKind::UnexpectedToken);
}

#[test]
fn should_accept_any_order() {
    let data = parse_data(
        r#"
                u,
                case(42, A{}, D{}),
                a,
                case(43, A{}, D{}),
                the_fixture(42),
                d
                "#,
    );

    let arg_names: Vec<String> = data.args().iter().map(|i| i.text.clone()).collect();
    assert_eq!(arg_names, vec!["u".to_string(), "a".to_string(), "d".to_string()]);
    let cases = data.cases();
    assert_eq!(2, cases.len());
    assert_eq!(arg_texts(&cases[0].args), texts(&["42", "A{}", "D{}"]));
    assert_eq!(arg_texts(&cases[1].args), texts(&["43", "A{}", "D{}"]));
    let fixtures = data.fixtures();
    assert_eq!(fixtures.len(), 1);
    assert_eq!(fixtures[0].name.text, "the_fixture");
    assert_eq!(expr_texts(&fixtures[0].positional), texts(&["42"]));
}

#[test]
fn case_could_be_arg_name() {
    let data = parse_data(
        r#"
                case,
                case(42)
                "#,
    );

    assert_eq!("case", data.args()[0].text);
    let cases = data.cases();
    assert_eq!(1, cases.len());
    assert_eq!(arg_texts(&cases[0].args), texts(&["42"]));
}

// ---------------------------------------------------------------------------
// Value lists.
// ---------------------------------------------------------------------------
#[test]
fn values_list_parse_some_literals() {
    let literals = literal_expressions_str();
    let name = "argument";

    let values_list = parse_values_list(&format!(
        r#"{} => [{}]"#,
        name,
        literals
            .iter()
            .map(ToString::to_string)
            .collect::<Vec<String>>()
            .join(", ")
    ));

    assert_eq!(name, values_list.arg.text);
    assert_eq!(arg_texts(&values_list.values), texts(&literals));
}

#[test]
fn values_list_parse_raw_code() {
    let values_list = parse_values_list(r#"no_mater => [vec![1,2,3]]"#);

    assert_eq!(arg_texts(&values_list.values), texts(&["vec![1, 2, 3]"]));
}

#[test]
fn values_list_rejects_unparsable_expression() {
    let e = ValueList::parse(&toks(r#"other => [some:<>(1,2,3)]"#), &mut Vec::new()).unwrap_err();

    assert_eq!(e.kind, ErrorKind::CannotParseExpression);
}

#[test]
fn values_list_rejects_missing_brackets() {
    let e = ValueList::parse(&toks(r#"other => 42"#), &mut Vec::new()).unwrap_err();

    assert_eq!(e.kind, ErrorKind::ExpectedGroup(Delim::Bracket));
    assert_eq!(e.message(), "expected square brackets");
}

#[test]
fn values_list_rejects_empty_brackets() {
    let e = ValueList::parse(&toks(r#"name => []"#), &mut Vec::new()).unwrap_err();

    assert_eq!(e.kind, ErrorKind::EmptyValueList);
    assert_eq!(e.message(), "values list should not be empty");
}

#[test]
fn case_rejects_unparsable_expression() {
    let e = TestCase::parse(&toks(r#"case(some:<>(1,2,3))"#), &mut Vec::new()).unwrap_err();

    assert_eq!(e.kind, ErrorKind::CannotParseExpression);
}

// ---------------------------------------------------------------------------
// Matrix directive.
// ---------------------------------------------------------------------------
#[test]
fn matrix_parse_happy_path() {
    let info = parse_matrix_info(
        r#"
                expected => [12, 34 * 2],
                input => [format!("aa_{}", 2), "other"],
            "#,
    );

    let value_ranges = info.args.list_values();
    assert_eq!(2, value_ranges.len());
    assert_eq!(arg_texts(&value_ranges[0].values), texts(&["12", "34 * 2"]));
    assert_eq!(
        arg_texts(&value_ranges[1].values),
        texts(&[r#"format!("aa_{}", 2)"#, r#""other""#])
    );
    assert_eq!(info.modifiers.modifiers.len(), 0);
}

#[test]
fn should_parse_modifiers_too() {
    let info = parse_matrix_info(
        r#"
                a => [12, 24, 42]
                ::trace
            "#,
    );

    assert_eq!(info.modifiers.modifiers.len(), 1);
    match &info.modifiers.modifiers[0] {
        RsTestAttribute::Attr(i) => assert_eq!(i.text, "trace"),
        _ => panic!("expected a bare flag"),
    }
}

#[test]
fn should_parse_injected_fixtures_too() {
    let info = parse_matrix_info(
        r#"
                a => [12, 24, 42],
                fixture_1(42, "foo"),
                fixture_2("bar")
            "#,
    );

    let fixtures = info.args.fixtures();
    assert_eq!(fixtures.len(), 2);
    assert_eq!(fixtures[0].name.text, "fixture_1");
    assert_eq!(expr_texts(&fixtures[0].positional), texts(&["42", r#""foo""#]));
    assert_eq!(fixtures[1].name.text, "fixture_2");
    assert_eq!(expr_texts(&fixtures[1].positional), texts(&[r#""bar""#]));
}

#[test]
fn matrix_rejects_empty_value_list() {
    let e = MatrixInfo::parse(
        &toks(
            r#"
                invalid => []
            "#,
        ),
        &mut Vec::new(),
    )
    .unwrap_err();

    assert_eq!(e.kind, ErrorKind::EmptyValueList);
}

#[test]
fn matrix_slot_with_arrow_is_value_list() {
    let info = parse_matrix_info(r#"foo => [1], foo(2)"#);

    assert_eq!(info.args.list_values().len(), 1);
    assert_eq!(info.args.fixtures().len(), 1);
    assert_eq!(info.args.list_values()[0].arg.text, "foo");
    assert_eq!(info.args.fixtures()[0].name.text, "foo");
}

// ---------------------------------------------------------------------------
// The shared directive shape.
// ---------------------------------------------------------------------------
#[test]
fn empty_input_gives_default_directives() {
    let p = ParametrizeInfo::parse(&toks(""), &mut Vec::new()).unwrap();
    assert_eq!(p.data.data.len(), 0);
    assert_eq!(p.modifiers.modifiers.len(), 0);

    let m = MatrixInfo::parse(&toks(""), &mut Vec::new()).unwrap();
    assert_eq!(m.args.0.len(), 0);
    assert_eq!(m.modifiers.modifiers.len(), 0);

    let r = RsTestInfo::parse(&toks("")).unwrap();
    assert_eq!(r.data.items.len(), 0);
    assert_eq!(r.modifiers.modifiers.modifiers.len(), 0);

    let f = FixtureInfo::parse(&toks("")).unwrap();
    assert_eq!(f.data.items.len(), 0);
    assert_eq!(f.modifiers.modifiers.modifiers.len(), 0);
}

#[test]
fn trailing_comma_is_idempotent() {
    let without = parse_data(r#"arg, case(42)"#);
    let with = parse_data(r#"arg, case(42),"#);

    assert_eq!(format!("{:?}", without), format!("{:?}", with));
}

#[test]
fn modifier_chain_order() {
    let modifiers = parse_modifiers(r#"simple :: tagged(a,b) :: kind<(u32, T)> :: more(c,d)"#);

    assert_eq!(modifiers.modifiers.len(), 4);
    match &modifiers.modifiers[0] {
        RsTestAttribute::Attr(i) => assert_eq!(i.text, "simple"),
        _ => panic!("expected a bare flag"),
    }
    match &modifiers.modifiers[1] {
        RsTestAttribute::Tagged(i, ids) => {
            assert_eq!(i.text, "tagged");
            let id_texts: Vec<String> = ids.iter().map(|x| x.text.clone()).collect();
            assert_eq!(id_texts, vec!["a".to_string(), "b".to_string()]);
        }
        _ => panic!("expected a tagged group"),
    }
    match &modifiers.modifiers[2] {
        RsTestAttribute::Type(i, ty) => {
            assert_eq!(i.text, "kind");
            assert_eq!(ty.text, text_of("(u32, T)"));
        }
        _ => panic!("expected a type binding"),
    }
    match &modifiers.modifiers[3] {
        RsTestAttribute::Tagged(i, ids) => {
            assert_eq!(i.text, "more");
            let id_texts: Vec<String> = ids.iter().map(|x| x.text.clone()).collect();
            assert_eq!(id_texts, vec!["c".to_string(), "d".to_string()]);
        }
        _ => panic!("expected a tagged group"),
    }
}

// ---------------------------------------------------------------------------
// Modifier errors.
// ---------------------------------------------------------------------------
#[test]
fn modifier_rejects_literal() {
    let e = Modifiers::parse(&toks("42")).unwrap_err();
    assert_eq!(e.kind, ErrorKind::UnexpectedLiteral);
}

#[test]
fn modifier_rejects_literal_inside_group() {
    let e = Modifiers::parse(&toks("tag(1)")).unwrap_err();
    assert_eq!(e.kind, ErrorKind::UnexpectedLiteral);
}

#[test]
fn modifier_rejects_nested_group_item() {
    let e = Modifiers::parse(&toks("tag(a(b))")).unwrap_err();
    assert_eq!(e.kind, ErrorKind::ShouldBeIdent);
    assert_eq!(e.message(), "should be an ident");
}

#[test]
fn modifier_rejects_name_value() {
    let e = Modifiers::parse(&toks("name = value")).unwrap_err();
    assert_eq!(e.kind, ErrorKind::InvalidAttribute);
    assert_eq!(e.message(), "invalid attribute");
}

// ---------------------------------------------------------------------------
// Keyword and classification errors.
// ---------------------------------------------------------------------------
#[test]
fn case_requires_its_keyword() {
    let e = TestCase::parse(&toks("foo(42)"), &mut Vec::new()).unwrap_err();
    assert_eq!(e.kind, ErrorKind::ExpectedTestCase);
    assert_eq!(e.pos, 0);
    assert_eq!(e.message(), "expected a test case");
}

#[test]
fn parametrize_rejects_unclassifiable_slot() {
    let e = ParametrizeData::parse(&toks("42"), &mut Vec::new()).unwrap_err();
    assert_eq!(e.kind, ErrorKind::CannotParseParametrizeItem);
    assert_eq!(e.message(), "cannot parse parametrize info");
}

#[test]
fn matrix_rejects_unclassifiable_slot() {
    let e = MatrixInfo::parse(&toks("42"), &mut Vec::new()).unwrap_err();
    assert_eq!(e.kind, ErrorKind::CannotParseMatrixItem);
    assert_eq!(e.message(), "cannot parse matrix info");
}

// ---------------------------------------------------------------------------
// The deprecated wrapped argument form.
// ---------------------------------------------------------------------------
#[test]
fn unwrap_form_yields_inner_expression() {
    let mut notices = Vec::new();
    let tc = TestCase::parse(&toks(r#"case(Unwrap("42"), 7)"#), &mut notices).unwrap();

    assert_eq!(tc.args.len(), 2);
    assert_eq!(tc.args[0].expr.text, "42");
    assert_eq!(tc.args[1].expr.text, "7");
    assert_eq!(notices, vec![2]);
}

#[test]
fn unwrap_form_rejects_bad_inner_code() {
    let mut notices = Vec::new();
    let e = TestCase::parse(&toks(r#"case(Unwrap("fn "))"#), &mut notices).unwrap_err();

    assert_eq!(e.kind, ErrorKind::CannotParseExpression);
    assert_eq!(notices.len(), 1);
}

#[test]
fn unwrap_without_string_literal_is_a_direct_argument() {
    let mut notices = Vec::new();
    let tc = TestCase::parse(&toks(r#"case(Unwrap(foo))"#), &mut notices).unwrap();

    assert_eq!(arg_texts(&tc.args), texts(&["Unwrap(foo)"]));
    assert_eq!(notices.len(), 0);
}

#[test]
fn values_list_requires_the_arrow() {
    let e = ValueList::parse(&toks("name 42"), &mut Vec::new()).unwrap_err();
    assert_eq!(e.kind, ErrorKind::ExpectedArrow);
}

#[test]
fn modifier_rejects_leading_separator() {
    let e = Modifiers::parse(&toks("::trace")).unwrap_err();
    assert_eq!(e.kind, ErrorKind::ExpectedIdent);
}

#[test]
fn modifier_type_requires_closing_angle() {
    let e = Modifiers::parse(&toks("tag< u32")).unwrap_err();
    assert_eq!(e.kind, ErrorKind::UnclosedAngle);

    let empty = Modifiers::parse(&toks("tag<>")).unwrap_err();
    assert_eq!(empty.kind, ErrorKind::CannotParseType);
}

#[test]
fn modifier_type_must_be_a_type() {
    let e = Modifiers::parse(&toks("tag< , >")).unwrap_err();
    assert_eq!(e.kind, ErrorKind::CannotParseType);
}

#[test]
fn short_description_with_two_args() {
    let tc = parse_test_case("case::desc(42, 24)");

    assert_eq!("desc", tc.description.as_ref().unwrap().text);
    assert_eq!(arg_texts(&tc.args), texts(&["42", "24"]));
}

#[test]
fn fixture_requires_a_closed_group() {
    let hand_built = vec![
        Token::Ident("fx".to_string()),
        Token::Open(Delim::Paren),
    ];
    let e = Fixture::parse(&hand_built).unwrap_err();
    assert_eq!(e.kind, ErrorKind::UnclosedGroup);
}

// ---------------------------------------------------------------------------
// Positions.
// ---------------------------------------------------------------------------
#[test]
fn case_span_covers_first_and_last_argument() {
    let tc = parse_test_case("case(42, 24)");

    assert_eq!(tc.span_start(), 2);
    assert_eq!(tc.span_end(), 4);

    let empty = parse_test_case("case()");
    assert_eq!(empty.span_start(), 0);
    assert_eq!(empty.span_end(), 0);
}

// ---------------------------------------------------------------------------
// Tokens.
// ---------------------------------------------------------------------------
#[test]
fn cook_fuses_two_character_operators() {
    let v = toks("a :: b => c -> d");
    assert!(matches!(v[1], Token::PathSep));
    assert!(matches!(v[3], Token::FatArrow));
    assert!(matches!(v[5], Token::RArrow));
    assert_eq!(v.len(), 7);
}

#[test]
fn render_is_canonical_over_spacing() {
    assert_eq!(text_of("vec![1,2,3]"), text_of("vec![ 1, 2,   3 ]"));
    assert_ne!(text_of("vec![1,2,3]"), text_of("vec![1,2]"));
}

// ---------------------------------------------------------------------------
// Builders.
// ---------------------------------------------------------------------------
#[test]
fn builders_keep_their_parts() {
    let name = rstest_parse::ast::Ident { text: "fx".to_string(), pos: 0 };
    let e = Expr { text: "42".to_string(), pos: 1 };
    let f = Fixture::new(name, vec![e]);
    assert_eq!(f.name.text, "fx");
    assert_eq!(expr_texts(&f.positional), vec!["42".to_string()]);

    let a = CaseArg::new(Expr { text: "42".to_string(), pos: 1 });
    assert_eq!(a.expr.text, "42");
    let b: CaseArg = Expr { text: "42".to_string(), pos: 1 }.into();
    assert_eq!(b.expr.text, "42");
}
