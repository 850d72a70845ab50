use parse_math::ast::Node;
use parse_math::parser::{parse_expression, ErrorKind, ParseError, Parser};
use parse_math::token::{Numeral, OperatorPrecedence, Token};
use parse_math::tokenizer::Tokenizer;

fn value(n: &Node) -> f64 {
    match n {
        Node::Number(v) => v.chars().iter().collect::<String>().parse::<f64>().unwrap(),
        Node::Add(a, b) => value(a) + value(b),
        Node::Subtract(a, b) => value(a) - value(b),
        Node::Multiply(a, b) => value(a) * value(b),
        Node::Divide(a, b) => value(a) / value(b),
        Node::Caret(a, b) => value(a).powf(value(b)),
        Node::Negative(a) => -value(a),
    }
}

fn eval_text(s: &str) -> f64 {
    value(&parse_expression(s).unwrap())
}

fn number_text(n: &Node) -> String {
    match n {
        Node::Number(v) => v.chars().iter().collect(),
        _ => panic!("not a number: {:?}", n),
    }
}

fn error_kind(e: &ParseError) -> ErrorKind {
    match e {
        ParseError::UnableToParse(_) => ErrorKind::UnableToParse,
        ParseError::InvalidOperator(_) => ErrorKind::InvalidOperator,
    }
}

#[test]
fn division_is_left_associative() {
    assert_eq!(eval_text("8/4/2"), 1.0);
    match parse_expression("8/4/2").unwrap() {
        Node::Divide(l, r) => {
            assert_eq!(number_text(&r), "2");
            match *l {
                Node::Divide(a, b) => {
                    assert_eq!(number_text(&a), "8");
                    assert_eq!(number_text(&b), "4");
                }
                other => panic!("unexpected {:?}", other),
            }
        }
        other => panic!("unexpected {:?}", other),
    }
}

#[test]
fn multiplication_binds_before_addition() {
    assert_eq!(eval_text("2+3*4"), 14.0);
    assert_eq!(eval_text("(2+3)*4"), 20.0);
}

#[test]
fn unary_minus_takes_only_the_base() {
    assert_eq!(eval_text("-2^2"), 4.0);
    match parse_expression("-2^2").unwrap() {
        Node::Caret(base, exp) => {
            assert!(matches!(*base, Node::Negative(_)));
            assert_eq!(number_text(&exp), "2");
        }
        other => panic!("unexpected {:?}", other),
    }
}

#[test]
fn power_groups_left_to_right() {
    assert_eq!(eval_text("2^3^2"), 64.0);
}

#[test]
fn adjacent_groups_multiply() {
    assert_eq!(eval_text("(2)(3)"), 6.0);
    assert_eq!(eval_text("(1+1)(2+3)"), 10.0);
}

#[test]
fn division_by_zero_is_infinite() {
    assert_eq!(eval_text("1/0"), f64::INFINITY);
}

#[test]
fn trailing_operator_is_an_error() {
    let e = parse_expression("2+").unwrap_err();
    assert_eq!(error_kind(&e), ErrorKind::UnableToParse);
}

#[test]
fn unclosed_parenthesis_is_invalid_operator() {
    let e = parse_expression("(2+3").unwrap_err();
    assert_eq!(error_kind(&e), ErrorKind::InvalidOperator);
}

#[test]
fn blank_input_is_refused_at_construction() {
    for s in ["", "   ", "\t\n"] {
        match Parser::new(s) {
            Err(e) => assert_eq!(error_kind(&e), ErrorKind::InvalidOperator),
            Ok(_) => panic!("a parser was made on {:?}", s),
        }
    }
}

#[test]
fn evaluating_one_tree_twice_agrees() {
    let tree = parse_expression("2*3+(4-5)+2^3/4").unwrap();
    let first = value(&tree);
    let second = value(&tree);
    assert_eq!(first, second);
    assert_eq!(first, 7.0);
}

#[test]
fn mixed_expression_from_the_banner() {
    assert_eq!(eval_text("2*3+(4-5)+2^3/4"), 7.0);
}

#[test]
fn decimals_and_negatives() {
    assert_eq!(eval_text("1.5*2"), 3.0);
    assert_eq!(eval_text(".5+1"), 1.5);
    assert_eq!(eval_text("4."), 4.0);
    assert_eq!(eval_text("-3+5"), 2.0);
    assert_eq!(eval_text("2*-3"), -6.0);
    assert_eq!(eval_text("10-4-3"), 3.0);
}

#[test]
fn spaces_are_skipped() {
    assert_eq!(eval_text(" 2 + 3 * 4 "), 14.0);
}

#[test]
fn lone_point_is_unable_to_parse() {
    let e = parse_expression(".").unwrap_err();
    assert_eq!(error_kind(&e), ErrorKind::UnableToParse);
    let e = parse_expression("2+.").unwrap_err();
    assert_eq!(error_kind(&e), ErrorKind::UnableToParse);
}

#[test]
fn unknown_character_after_operator_is_invalid_operator() {
    let e = parse_expression("2+$").unwrap_err();
    assert_eq!(error_kind(&e), ErrorKind::InvalidOperator);
    let e = parse_expression("$").unwrap_err();
    assert_eq!(error_kind(&e), ErrorKind::InvalidOperator);
}

#[test]
fn operator_where_operand_expected_is_unable_to_parse() {
    let e = parse_expression("*2").unwrap_err();
    assert_eq!(error_kind(&e), ErrorKind::UnableToParse);
    let e = parse_expression("()").unwrap_err();
    assert_eq!(error_kind(&e), ErrorKind::UnableToParse);
}

#[test]
fn parse_from_a_parser() {
    let mut p = Parser::new("(2+3)*4").unwrap();
    let tree = p.parse().unwrap();
    assert_eq!(value(&tree), 20.0);
}

#[test]
fn error_message_names_the_description() {
    let e = ParseError::invalid_operator("Invalid character");
    assert_eq!(e.message(), "Invalid operator: Invalid character");
    let e = ParseError::unable_to_parse("Unable to parse");
    assert_eq!(e.message(), "Unable to parse: Unable to parse");
}

#[test]
fn token_precedences() {
    assert_eq!(Token::Add.get_operator_precedence(), OperatorPrecedence::AddSub);
    assert_eq!(Token::Subtract.get_operator_precedence(), OperatorPrecedence::AddSub);
    assert_eq!(Token::Multiply.get_operator_precedence(), OperatorPrecedence::MulDiv);
    assert_eq!(Token::Divide.get_operator_precedence(), OperatorPrecedence::MulDiv);
    assert_eq!(Token::Caret.get_operator_precedence(), OperatorPrecedence::Power);
    assert_eq!(Token::LeftParen.get_operator_precedence(), OperatorPrecedence::DefaultZero);
    assert_eq!(Token::EOF.get_operator_precedence(), OperatorPrecedence::DefaultZero);
    let n = Numeral::new(vec!['7']);
    assert_eq!(Token::Num(n).get_operator_precedence(), OperatorPrecedence::DefaultZero);
}

#[test]
fn precedence_order() {
    let levels = [
        OperatorPrecedence::DefaultZero,
        OperatorPrecedence::AddSub,
        OperatorPrecedence::MulDiv,
        OperatorPrecedence::Power,
        OperatorPrecedence::Negative,
    ];
    for i in 0..levels.len() {
        for j in 0..levels.len() {
            assert_eq!(levels[i].lt(&levels[j]), i < j);
        }
    }
}

#[test]
fn tokenizer_scans_lazily() {
    let mut t = Tokenizer::new("12.5+(x");
    match t.next() {
        Ok(Some(Token::Num(n))) => assert_eq!(n.chars().iter().collect::<String>(), "12.5"),
        other => panic!("unexpected {:?}", other),
    }
    assert!(matches!(t.next(), Ok(Some(Token::Add))));
    assert!(matches!(t.next(), Ok(Some(Token::LeftParen))));
    assert!(matches!(t.next(), Ok(None)));
    assert!(!t.at_end());
}

#[test]
fn tokenizer_stops_at_second_point() {
    let mut t = Tokenizer::new("1.2.3");
    match t.next() {
        Ok(Some(Token::Num(n))) => assert_eq!(n.chars().iter().collect::<String>(), "1.2"),
        other => panic!("unexpected {:?}", other),
    }
    match t.next() {
        Ok(Some(Token::Num(n))) => assert_eq!(n.chars().iter().collect::<String>(), ".3"),
        other => panic!("unexpected {:?}", other),
    }
    assert!(matches!(t.next(), Ok(None)));
    assert!(t.at_end());
}

#[test]
fn numeral_copy_keeps_text() {
    let n = Numeral::new(vec!['4', '.', '2']);
    let m = n.duplicate();
    assert_eq!(m.chars(), &vec!['4', '.', '2']);
}

#[test]
fn unclosed_parenthesis_names_what_came() {
    let e = parse_expression("(2+3").unwrap_err();
    assert_eq!(e.message(), "Invalid operator: Expected RightParen got EOF");
}

#[test]
fn token_names() {
    assert_eq!(Token::Caret.name(), "Caret");
    assert_eq!(Token::RightParen.name(), "RightParen");
    assert_eq!(Token::Num(Numeral::new(vec!['1'])).name(), "Num");
}

fn description(e: &ParseError) -> String {
    match e {
        ParseError::UnableToParse(d) => d.clone(),
        ParseError::InvalidOperator(d) => d.clone(),
    }
}

#[test]
fn messages_tell_the_kinds_apart() {
    let a = ParseError::unable_to_parse("x");
    let b = ParseError::invalid_operator("x");
    assert_ne!(a.message(), b.message());
    assert!(a.message().ends_with("x"));
    assert!(b.message().ends_with("x"));
}

#[test]
fn unicode_whitespace_is_skipped() {
    assert!(Parser::new("\u{3000}+").is_ok());
    assert_eq!(eval_text("\u{3000}2\u{A0}+\u{2003}3\u{85}"), 5.0);
}

#[test]
fn error_descriptions_name_the_token() {
    let e = parse_expression("(2+3]").unwrap_err();
    assert_eq!(error_kind(&e), ErrorKind::InvalidOperator);
    assert_eq!(description(&e), "Invalid character");
    let e = parse_expression("(2+3(").unwrap_err();
    assert_eq!(description(&e), "Expected RightParen got LeftParen");
    let e = parse_expression("(2 3)").unwrap_err();
    assert_eq!(description(&e), "Expected RightParen got Num");
    let e = parse_expression("*").unwrap_err();
    assert_eq!(description(&e), "Unable to parse");
    let e = parse_expression(".").unwrap_err();
    assert_eq!(description(&e), "Unable to parse number");
    let e = Parser::new("").err().unwrap();
    assert_eq!(description(&e), "Invalid character");
}

#[test]
fn construction_reads_only_the_first_token() {
    assert!(Parser::new("-").is_ok());
    assert!(Parser::new("(2+3").is_ok());
    assert!(Parser::new(")").is_ok());
}

#[test]
fn tokens_compare_and_levels_order() {
    assert_eq!(Token::Add, Token::Add);
    assert_ne!(Token::Add, Token::Subtract);
    assert_eq!(Token::Num(Numeral::new(vec!['1'])), Token::Num(Numeral::new(vec!['1'])));
    assert_ne!(Token::Num(Numeral::new(vec!['1'])), Token::Num(Numeral::new(vec!['2'])));
    assert!(OperatorPrecedence::AddSub < OperatorPrecedence::MulDiv);
    assert!(OperatorPrecedence::Power < OperatorPrecedence::Negative);
}

#[test]
fn cloned_tree_evaluates_alike() {
    let tree = parse_expression("(1+2)*3^2").unwrap();
    let copy = tree.clone();
    assert_eq!(value(&copy), value(&tree));
    assert_eq!(value(&copy), 27.0);
}
