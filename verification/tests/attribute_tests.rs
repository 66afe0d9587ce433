use builder::attribute::{
    each_setter_name, interpret_pair, literal_string, malformed, parse_attribute, AttrResult,
    Diagnostic, EachConfig,
};
use builder::descriptor::{AttributeTag, FieldDescriptor, Token, TypeExpr, TypeShape};

const EXPECTED: &str = "expected `builder(each = \"...\")`";

fn ident(name: &str) -> Token {
    Token::Ident(name.to_string())
}

fn literal(source: &str) -> Token {
    Token::Literal(source.to_string())
}

fn pair(key: &str, source: &str) -> Vec<Token> {
    vec![ident(key), Token::Punct('='), literal(source)]
}

fn attribute(path: &str, arguments: Option<Vec<Token>>) -> AttributeTag {
    AttributeTag { path: path.to_string(), arguments }
}

fn field_with(attributes: Vec<AttributeTag>) -> FieldDescriptor {
    FieldDescriptor {
        name: "args".to_string(),
        declared_type: TypeExpr { text: "Vec<String>".to_string(), shape: TypeShape::Other },
        attributes,
    }
}

fn valid(name: &str) -> AttrResult {
    AttrResult::Valid(EachConfig { element_setter_name: name.to_string() })
}

fn invalid(attribute: usize) -> AttrResult {
    AttrResult::Invalid(Diagnostic { message: EXPECTED.to_string(), attribute })
}

#[test]
fn literal_string_takes_off_the_quotes() {
    assert_eq!(literal_string("\"arg\""), Some("arg".to_string()));
    assert_eq!(literal_string("\"\""), Some("".to_string()));
    assert_eq!(literal_string("\"two words\""), Some("two words".to_string()));
}

#[test]
fn literal_string_resolves_escapes() {
    assert_eq!(literal_string("\"a\\\"b\""), Some("a\"b".to_string()));
    assert_eq!(literal_string("\"a\\\\b\""), Some("a\\b".to_string()));
    assert_eq!(literal_string("\"a\\nb\""), Some("a\nb".to_string()));
    assert_eq!(literal_string("\"\\x41\\u{42}\\u{1F600}\""), Some("AB\u{1F600}".to_string()));
}

#[test]
fn literal_string_reads_raw_strings() {
    assert_eq!(literal_string("r\"arg\""), Some("arg".to_string()));
    assert_eq!(literal_string("r#\"a\"b\"#"), Some("a\"b".to_string()));
    assert_eq!(literal_string("r\"a\\nb\""), Some("a\\nb".to_string()));
}

#[test]
fn literal_string_ignores_a_suffix() {
    assert_eq!(literal_string("\"arg\"tail"), Some("arg".to_string()));
}

#[test]
fn literal_string_of_another_kind_of_literal_is_none() {
    assert_eq!(literal_string("5"), None);
    assert_eq!(literal_string("5u8"), None);
    assert_eq!(literal_string("-5"), None);
    assert_eq!(literal_string("1.5"), None);
    assert_eq!(literal_string("true"), None);
    assert_eq!(literal_string("'a'"), None);
    assert_eq!(literal_string("b'a'"), None);
    assert_eq!(literal_string("b\"arg\""), None);
    assert_eq!(literal_string("br\"arg\""), None);
    assert_eq!(literal_string("c\"arg\""), None);
    assert_eq!(literal_string("cr\"arg\""), None);
}

#[test]
fn literal_string_of_no_literal_is_none() {
    assert_eq!(literal_string(""), None);
    assert_eq!(literal_string(" "), None);
    assert_eq!(literal_string(" \"arg\""), None);
    assert_eq!(literal_string("arg"), None);
    assert_eq!(literal_string("r"), None);
    assert_eq!(literal_string("raw"), None);
    assert_eq!(literal_string("r#raw"), None);
    assert_eq!(literal_string("r#"), None);
    assert_eq!(literal_string("\""), None);
    assert_eq!(literal_string("\"arg"), None);
    assert_eq!(literal_string("r\"arg"), None);
    assert_eq!(literal_string("r#\"arg\""), None);
    assert_eq!(literal_string("\"a\" \"b\""), None);
    assert_eq!(literal_string("\"a\" c\"b\""), None);
    assert_eq!(literal_string("\"a\", \"b\""), None);
    assert_eq!(literal_string("\"a\" + 1"), None);
}

#[test]
fn literal_string_of_a_broken_escape_is_none() {
    assert_eq!(literal_string("\"\\q\""), None);
    assert_eq!(literal_string("\"\\x\""), None);
    assert_eq!(literal_string("\"\\x80\""), None);
    assert_eq!(literal_string("\"\\xZZ\""), None);
    assert_eq!(literal_string("\"\\u\""), None);
    assert_eq!(literal_string("\"\\u{}\""), None);
    assert_eq!(literal_string("\"\\u{110000}\""), None);
    assert_eq!(literal_string("\"\\u{D800}\""), None);
    assert_eq!(literal_string("\"\\u{1234567}\""), None);
    assert_eq!(literal_string("\"\\u{41\""), None);
    assert_eq!(literal_string("\"\\"), None);
    assert_eq!(literal_string("\"a\rb\""), None);
}

#[test]
fn interpret_pair_accepts_each_with_a_string() {
    assert_eq!(
        interpret_pair(&"each".to_string(), Some("arg".to_string())),
        Some("arg".to_string())
    );
    assert_eq!(interpret_pair(&"each".to_string(), Some("".to_string())), Some("".to_string()));
}

#[test]
fn interpret_pair_refuses_another_key() {
    assert_eq!(interpret_pair(&"eac".to_string(), Some("arg".to_string())), None);
    assert_eq!(interpret_pair(&"Each".to_string(), Some("arg".to_string())), None);
    assert_eq!(interpret_pair(&"each ".to_string(), Some("arg".to_string())), None);
    assert_eq!(interpret_pair(&"r#each".to_string(), Some("arg".to_string())), None);
    assert_eq!(interpret_pair(&"".to_string(), Some("arg".to_string())), None);
}

#[test]
fn interpret_pair_refuses_a_value_that_is_no_string() {
    assert_eq!(interpret_pair(&"each".to_string(), None), None);
    assert_eq!(interpret_pair(&"eac".to_string(), None), None);
}

#[test]
fn each_setter_name_of_the_pair() {
    assert_eq!(each_setter_name(&pair("each", "\"arg\"")), Some("arg".to_string()));
    assert_eq!(each_setter_name(&pair("each", "r\"arg\"")), Some("arg".to_string()));
    assert_eq!(each_setter_name(&pair("each", "\"a\\u{72}g\"")), Some("arg".to_string()));
}

#[test]
fn each_setter_name_needs_exactly_three_tokens() {
    assert_eq!(each_setter_name(&vec![]), None);
    assert_eq!(each_setter_name(&vec![ident("each")]), None);
    assert_eq!(each_setter_name(&vec![ident("each"), Token::Punct('=')]), None);
    let mut tokens = pair("each", "\"arg\"");
    tokens.push(Token::Punct(','));
    assert_eq!(each_setter_name(&tokens), None);
    let mut tokens = pair("each", "\"arg\"");
    tokens.push(Token::Punct(','));
    tokens.append(&mut pair("each", "\"env\""));
    assert_eq!(each_setter_name(&tokens), None);
}

#[test]
fn each_setter_name_needs_the_shape_of_a_pair() {
    assert_eq!(
        each_setter_name(&vec![ident("each"), Token::Punct(':'), literal("\"arg\"")]),
        None
    );
    assert_eq!(each_setter_name(&vec![ident("each"), ident("is"), literal("\"arg\"")]), None);
    assert_eq!(
        each_setter_name(&vec![literal("\"each\""), Token::Punct('='), literal("\"arg\"")]),
        None
    );
    assert_eq!(each_setter_name(&vec![ident("each"), Token::Punct('='), ident("arg")]), None);
    assert_eq!(each_setter_name(&vec![ident("each"), Token::Punct('='), Token::Group]), None);
    assert_eq!(each_setter_name(&vec![ident("each"), Token::Group, literal("\"arg\"")]), None);
    assert_eq!(
        each_setter_name(&vec![Token::Group, Token::Punct('='), literal("\"arg\"")]),
        None
    );
    assert_eq!(
        each_setter_name(&vec![literal("\"arg\""), Token::Punct('='), ident("each")]),
        None
    );
}

#[test]
fn each_setter_name_needs_the_key_and_a_string() {
    assert_eq!(each_setter_name(&pair("eac", "\"arg\"")), None);
    assert_eq!(each_setter_name(&pair("each", "5")), None);
    assert_eq!(each_setter_name(&pair("each", "true")), None);
    assert_eq!(each_setter_name(&pair("each", "'a'")), None);
    assert_eq!(each_setter_name(&pair("each", "b\"arg\"")), None);
    assert_eq!(each_setter_name(&pair("each", "c\"arg\"")), None);
    assert_eq!(each_setter_name(&pair("each", "\"arg")), None);
    assert_eq!(each_setter_name(&pair("each", "")), None);
}

#[test]
fn malformed_carries_the_fixed_message() {
    assert_eq!(malformed(0), Diagnostic { message: EXPECTED.to_string(), attribute: 0 });
    assert_eq!(malformed(7).attribute, 7);
    assert_eq!(malformed(7).message, "expected `builder(each = \"...\")`");
}

#[test]
fn parse_attribute_without_attributes_is_absent() {
    assert_eq!(parse_attribute(&field_with(vec![])), AttrResult::Absent);
}

#[test]
fn parse_attribute_under_other_paths_is_absent() {
    let field = field_with(vec![
        attribute("doc", None),
        attribute("serde", Some(pair("each", "\"arg\""))),
        attribute("Builder", Some(pair("each", "\"arg\""))),
        attribute("builder :: each", Some(pair("each", "\"arg\""))),
        attribute(":: builder", Some(pair("each", "\"arg\""))),
        attribute("r#builder", Some(pair("each", "\"arg\""))),
        attribute("", Some(pair("each", "\"arg\""))),
    ]);
    assert_eq!(parse_attribute(&field), AttrResult::Absent);
}

#[test]
fn parse_attribute_each_is_valid() {
    let field = field_with(vec![attribute("builder", Some(pair("each", "\"arg\"")))]);
    assert_eq!(parse_attribute(&field), valid("arg"));
}

#[test]
fn parse_attribute_takes_the_name_as_it_is() {
    let field = field_with(vec![attribute("builder", Some(pair("each", "\"args\"")))]);
    assert_eq!(parse_attribute(&field), valid("args"));
    let field = field_with(vec![attribute("builder", Some(pair("each", "\"not a name\"")))]);
    assert_eq!(parse_attribute(&field), valid("not a name"));
}

#[test]
fn parse_attribute_wrong_key_is_invalid() {
    let field = field_with(vec![attribute("builder", Some(pair("eac", "\"arg\"")))]);
    assert_eq!(parse_attribute(&field), invalid(0));
}

#[test]
fn parse_attribute_value_that_is_no_string_is_invalid() {
    let field = field_with(vec![attribute("builder", Some(pair("each", "5")))]);
    assert_eq!(parse_attribute(&field), invalid(0));
    let field = field_with(vec![attribute("builder", Some(pair("each", "c\"arg\"")))]);
    assert_eq!(parse_attribute(&field), invalid(0));
}

#[test]
fn parse_attribute_without_argument_list_is_invalid() {
    let field = field_with(vec![attribute("builder", None)]);
    assert_eq!(parse_attribute(&field), invalid(0));
}

#[test]
fn parse_attribute_other_argument_lists_are_invalid() {
    let field = field_with(vec![attribute("builder", Some(vec![]))]);
    assert_eq!(parse_attribute(&field), invalid(0));
    let field = field_with(vec![attribute("builder", Some(vec![ident("each")]))]);
    assert_eq!(parse_attribute(&field), invalid(0));
    let field = field_with(vec![attribute("builder", Some(vec![ident("each"), Token::Group]))]);
    assert_eq!(parse_attribute(&field), invalid(0));
    let mut two = pair("each", "\"arg\"");
    two.push(Token::Punct(','));
    two.append(&mut pair("each", "\"env\""));
    let field = field_with(vec![attribute("builder", Some(two))]);
    assert_eq!(parse_attribute(&field), invalid(0));
}

#[test]
fn parse_attribute_is_anchored_at_the_attribute() {
    let field = field_with(vec![
        attribute("doc", None),
        attribute("serde", Some(vec![ident("skip")])),
        attribute("builder", Some(pair("eac", "\"arg\""))),
    ]);
    assert_eq!(parse_attribute(&field), invalid(2));
}

#[test]
fn parse_attribute_first_marker_wins() {
    let field = field_with(vec![
        attribute("doc", None),
        attribute("builder", Some(pair("each", "\"first\""))),
        attribute("builder", Some(pair("each", "\"second\""))),
    ]);
    assert_eq!(parse_attribute(&field), valid("first"));
    let field = field_with(vec![
        attribute("builder", Some(pair("each", "\"arg\""))),
        attribute("builder", Some(pair("eac", "\"arg\""))),
    ]);
    assert_eq!(parse_attribute(&field), valid("arg"));
    let field = field_with(vec![
        attribute("doc", None),
        attribute("builder", Some(pair("eac", "\"arg\""))),
        attribute("builder", Some(pair("each", "\"arg\""))),
    ]);
    assert_eq!(parse_attribute(&field), invalid(1));
}
