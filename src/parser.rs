use vstd::prelude::*;

use crate::ast::{numerals_wf, Expr, Node};
use crate::token::{OperatorPrecedence, Tok, Token};
use crate::tokenizer::{is_space, lemma_skip_space_to_end, lex_next, Tokenizer};

verus! {

/// The two ways in which an expression can be rejected.
#[derive(Debug, Clone, Copy, PartialEq, Eq, Structural)]
pub enum ErrorKind {
    UnableToParse,
    InvalidOperator,
}

/// Why an expression could not be parsed, with a description of the offending input.
#[derive(Debug, Clone)]
pub enum ParseError {
    UnableToParse(String),
    InvalidOperator(String),
}

/// What an error is, in contracts: its kind and its description.
pub struct Failure {
    pub kind: ErrorKind,
    pub description: Seq<char>,
}

pub open spec fn failure(kind: ErrorKind, description: Seq<char>) -> Failure {
    Failure { kind, description }
}

impl View for ParseError {
    type V = Failure;

    open spec fn view(&self) -> Failure {
        failure(self.kind(), self.description())
    }
}

impl ParseError {
    pub open spec fn kind(&self) -> ErrorKind {
        match self {
            ParseError::UnableToParse(_) => ErrorKind::UnableToParse,
            ParseError::InvalidOperator(_) => ErrorKind::InvalidOperator,
        }
    }

    pub open spec fn description(&self) -> Seq<char> {
        match self {
            ParseError::UnableToParse(d) => d@,
            ParseError::InvalidOperator(d) => d@,
        }
    }

/// The words that open the message of an error of each kind.
    pub open spec fn label(&self) -> Seq<char> {
        match self {
            ParseError::UnableToParse(_) => "Unable to parse: "@,
            ParseError::InvalidOperator(_) => "Invalid operator: "@,
        }
    }

    /// The message shown for the error: words naming its kind, then the description.
    pub fn message(&self) -> (r: String)
        ensures
            r@ == self.label() + self.description(),
    {
        match self {
            ParseError::UnableToParse(d) => String::from_str("Unable to parse: ").concat(d.as_str()),
            ParseError::InvalidOperator(d) => String::from_str("Invalid operator: ").concat(
                d.as_str(),
            ),
        }
    }

    pub fn unable_to_parse(description: &str) -> (r: ParseError)
        ensures
            r.kind() == ErrorKind::UnableToParse,
            r.description() == description@,
    {
        ParseError::UnableToParse(String::from_str(description))
    }

    /// An `InvalidOperator` error whose description is `prefix` followed by `name`.
    pub fn invalid_operator_at(prefix: &str, name: &str) -> (r: ParseError)
        ensures
            r.kind() == ErrorKind::InvalidOperator,
            r.description() == prefix@ + name@,
    {
        ParseError::InvalidOperator(String::from_str(prefix).concat(name))
    }

    pub fn invalid_operator(description: &str) -> (r: ParseError)
        ensures
            r.kind() == ErrorKind::InvalidOperator,
            r.description() == description@,
    {
        ParseError::InvalidOperator(String::from_str(description))
    }
}

/// Where the parser stands: the scan position and the lookahead token.
pub struct PState {
    pub pos: int,
    pub cur: Tok,
}

/// Input left to consume, counting the lookahead token; every consumed token lowers it.
pub open spec fn weight(s: Seq<char>, st: PState) -> nat {
    if 0 <= st.pos <= s.len() {
        (s.len() - st.pos) as nat + if st.cur is EOF {
            0nat
        } else {
            1nat
        }
    } else {
        0
    }
}

/// The lookahead after scanning from `pos`: the scanned token, `EOF` at the end of the
/// input, or an error where scanning stopped before the end.
pub open spec fn advance(s: Seq<char>, pos: int) -> Result<PState, Failure> {
    let (out, p) = lex_next(s, pos);
    match out {
        Err(k) => Err(k),
        Ok(Some(t)) => Ok(PState { pos: p, cur: t }),
        Ok(None) => if p == s.len() {
            Ok(PState { pos: p, cur: Tok::EOF })
        } else {
            Err(failure(ErrorKind::InvalidOperator, "Invalid character"@))
        },
    }
}

/// The state of a new parser on `s`: there must be a first token.
pub open spec fn first_state(s: Seq<char>) -> Result<PState, Failure> {
    let (out, p) = lex_next(s, 0);
    match out {
        Err(k) => Err(k),
        Ok(Some(t)) => Ok(PState { pos: p, cur: t }),
        Ok(None) => Err(failure(ErrorKind::InvalidOperator, "Invalid character"@)),
    }
}

/// The node that the binary operator `op` builds from its operands.
pub open spec fn binary(op: Tok, l: Expr, r: Expr) -> Expr {
    match op {
        Tok::Subtract => Expr::Subtract(Box::new(l), Box::new(r)),
        Tok::Multiply => Expr::Multiply(Box::new(l), Box::new(r)),
        Tok::Divide => Expr::Divide(Box::new(l), Box::new(r)),
        Tok::Caret => Expr::Caret(Box::new(l), Box::new(r)),
        _ => Expr::Add(Box::new(l), Box::new(r)),
    }
}

pub open spec fn is_binary(t: Tok) -> bool {
    t is Add || t is Subtract || t is Multiply || t is Divide || t is Caret
}

/// An expression whose operators all bind more tightly than `min`: a primary, then
/// operators while they do. Each test on the weight always holds; it keeps the
/// definition total.
pub open spec fn parse_expr(s: Seq<char>, min: OperatorPrecedence, st: PState) -> Result<(Expr, PState), Failure>
    decreases weight(s, st), 1nat,
{
    match parse_primary(s, st) {
        Err(k) => Err(k),
        Ok((left, st1)) => if weight(s, st1) < weight(s, st) {
            climb(s, min, left, st1)
        } else {
            Err(failure(ErrorKind::UnableToParse, "Unable to parse"@))
        },
    }
}

/// A number, a unary minus applied to an expression at the `Negative` level, or a
/// parenthesized expression (followed by a second one at the `MulDiv` level where
/// another `(` comes right after the `)`).
pub open spec fn parse_primary(s: Seq<char>, st: PState) -> Result<(Expr, PState), Failure>
    decreases weight(s, st), 0nat,
{
    match st.cur {
        Tok::Subtract => match advance(s, st.pos) {
            Err(k) => Err(k),
            Ok(st1) => if weight(s, st1) < weight(s, st) {
                match parse_expr(s, OperatorPrecedence::Negative, st1) {
                    Err(k) => Err(k),
                    Ok((e, st2)) => Ok((Expr::Negative(Box::new(e)), st2)),
                }
            } else {
                Err(failure(ErrorKind::UnableToParse, "Unable to parse"@))
            },
        },
        Tok::Num(t) => match advance(s, st.pos) {
            Err(k) => Err(k),
            Ok(st1) => Ok((Expr::Number(t), st1)),
        },
        Tok::LeftParen => match advance(s, st.pos) {
            Err(k) => Err(k),
            Ok(st1) => if weight(s, st1) < weight(s, st) {
                match parse_expr(s, OperatorPrecedence::DefaultZero, st1) {
                    Err(k) => Err(k),
                    Ok((e, st2)) => if st2.cur is RightParen {
                        match advance(s, st2.pos) {
                            Err(k) => Err(k),
                            Ok(st3) => if st3.cur is LeftParen {
                                if weight(s, st3) < weight(s, st) {
                                    match parse_expr(s, OperatorPrecedence::MulDiv, st3) {
                                        Err(k) => Err(k),
                                        Ok((r, st4)) => Ok(
                                            (Expr::Multiply(Box::new(e), Box::new(r)), st4),
                                        ),
                                    }
                                } else {
                                    Err(failure(ErrorKind::UnableToParse, "Unable to parse"@))
                                }
                            } else {
                                Ok((e, st3))
                            },
                        }
                    } else {
                        Err(
                            failure(
                                ErrorKind::InvalidOperator,
                                "Expected RightParen got "@ + st2.cur.name(),
                            ),
                        )
                    },
                }
            } else {
                Err(failure(ErrorKind::UnableToParse, "Unable to parse"@))
            },
        },
        _ => Err(failure(ErrorKind::UnableToParse, "Unable to parse"@)),
    }
}

/// Extends `left` with operators that bind more tightly than `min`, left to right.
pub open spec fn climb(s: Seq<char>, min: OperatorPrecedence, left: Expr, st: PState) -> Result<(Expr, PState), Failure>
    decreases weight(s, st), 1nat,
{
    if min.rank() < st.cur.precedence().rank() && !(st.cur is EOF) {
        match apply_operator(s, left, st) {
            Err(k) => Err(k),
            Ok((e, st1)) => if weight(s, st1) < weight(s, st) {
                climb(s, min, e, st1)
            } else {
                Err(failure(ErrorKind::UnableToParse, "Unable to parse"@))
            },
        }
    } else {
        Ok((left, st))
    }
}

/// Consumes the binary operator in the lookahead and parses its right operand at the
/// operator's own level.
pub open spec fn apply_operator(s: Seq<char>, left: Expr, st: PState) -> Result<(Expr, PState), Failure>
    decreases weight(s, st), 0nat,
{
    if is_binary(st.cur) {
        match advance(s, st.pos) {
            Err(k) => Err(k),
            Ok(st1) => if weight(s, st1) < weight(s, st) {
                match parse_expr(s, st.cur.precedence(), st1) {
                    Err(k) => Err(k),
                    Ok((r, st2)) => Ok((binary(st.cur, left, r), st2)),
                }
            } else {
                Err(failure(ErrorKind::UnableToParse, "Unable to parse"@))
            },
        }
    } else {
        Err(failure(ErrorKind::InvalidOperator, "Please enter valid operator "@ + st.cur.name()))
    }
}

/// The tree that the text `s` parses to, or the kind of error that stops it.
pub open spec fn parse_text(s: Seq<char>) -> Result<Expr, Failure> {
    match first_state(s) {
        Err(k) => Err(k),
        Ok(st) => match parse_expr(s, OperatorPrecedence::DefaultZero, st) {
            Err(k) => Err(k),
            Ok((e, _)) => Ok(e),
        },
    }
}

/// An empty text, or one of spaces only, has no first token: a parser cannot be made
/// on it, and it is rejected with `InvalidOperator`.
pub proof fn lemma_blank_input_rejected(s: Seq<char>)
    requires
        forall|k: int| 0 <= k < s.len() ==> is_space(#[trigger] s[k]),
    ensures
        first_state(s) == Err::<PState, Failure>(
            failure(ErrorKind::InvalidOperator, "Invalid character"@),
        ),
        parse_text(s) == Err::<Expr, Failure>(
            failure(ErrorKind::InvalidOperator, "Invalid character"@),
        ),
{
    lemma_skip_space_to_end(s, 0);
}

pub open spec fn outcome(r: Result<Node, ParseError>, st: PState) -> Result<(Expr, PState), Failure> {
    match r {
        Ok(n) => Ok((n@, st)),
        Err(e) => Err(e@),
    }
}

/// A recursive-descent parser with one token of lookahead.
pub struct Parser {
    tokenizer: Tokenizer,
    current_token: Token,
}

impl Parser {
    /// The text being parsed.
    pub closed spec fn text(&self) -> Seq<char> {
        self.tokenizer.text()
    }

    /// The scan position and the lookahead token.
    pub closed spec fn state(&self) -> PState {
        PState { pos: self.tokenizer.cursor(), cur: self.current_token@ }
    }

    /// The scan position lies in the text, and a numeral in the lookahead is well formed.
    pub closed spec fn wf(&self) -> bool {
        &&& self.tokenizer.wf()
        &&& self.current_token matches Token::Num(n) ==> n.wf()
    }

    /// A parser on `expr`, holding its first token; fails where there is none.
    pub fn new(expr: &str) -> (r: Result<Parser, ParseError>)
        ensures
            match r {
                Ok(p) => p.wf() && p.text() == expr@ && first_state(expr@) == Ok::<PState, Failure>(p.state()),
                Err(e) => first_state(expr@) == Err::<PState, Failure>(e@),
            },
    {
        let mut lexer = Tokenizer::new(expr);
        match lexer.next() {
            Err(e) => Err(e),
            Ok(Some(token)) => Ok(Parser { tokenizer: lexer, current_token: token }),
            Ok(None) => Err(ParseError::invalid_operator("Invalid character")),
        }
    }

    /// Parses the whole expression from the current token.
    pub fn parse(&mut self) -> (r: Result<Node, ParseError>)
        requires
            old(self).wf(),
        ensures
            r matches Ok(n) ==> numerals_wf(n@),
            final(self).wf(),
            final(self).text() == old(self).text(),
            outcome(r, final(self).state()) == parse_expr(
                old(self).text(),
                OperatorPrecedence::DefaultZero,
                old(self).state(),
            ),
    {
        self.generate_ast(OperatorPrecedence::DefaultZero)
    }

    fn generate_ast(&mut self, operator_precedence: OperatorPrecedence) -> (r: Result<Node, ParseError>)
        requires
            old(self).wf(),
        ensures
            r matches Ok(n) ==> numerals_wf(n@),
            final(self).wf(),
            final(self).text() == old(self).text(),
            outcome(r, final(self).state()) == parse_expr(
                old(self).text(),
                operator_precedence,
                old(self).state(),
            ),
            r is Ok ==> weight(final(self).text(), final(self).state()) < weight(
                old(self).text(),
                old(self).state(),
            ),
        decreases weight(old(self).text(), old(self).state()), 1nat,
    {
        let ghost s = self.text();
        let ghost st0 = self.state();
        let mut left_expr = match self.parse_number() {
            Ok(n) => n,
            Err(e) => return Err(e),
        };
        let ghost st1 = self.state();
        while operator_precedence.lt(&self.current_token.get_operator_precedence())
            && !self.current_token.is_eof()
            invariant
                self.wf(),
                self.text() == s,
                s == old(self).text(),
                st0 == old(self).state(),
                weight(s, st1) < weight(s, st0),
                weight(s, self.state()) <= weight(s, st1),
                numerals_wf(left_expr@),
                climb(s, operator_precedence, left_expr@, self.state()) == parse_expr(
                    s,
                    operator_precedence,
                    st0,
                ),
            decreases weight(s, self.state()),
        {
            left_expr = match self.convert_token_to_node(left_expr) {
                Ok(n) => n,
                Err(e) => return Err(e),
            };
        }
        Ok(left_expr)
    }

    fn parse_number(&mut self) -> (r: Result<Node, ParseError>)
        requires
            old(self).wf(),
        ensures
            r matches Ok(n) ==> numerals_wf(n@),
            final(self).wf(),
            final(self).text() == old(self).text(),
            outcome(r, final(self).state()) == parse_primary(old(self).text(), old(self).state()),
            !(old(self).state().cur is Subtract || old(self).state().cur is Num
                || old(self).state().cur is LeftParen) ==> final(self).state() == old(self).state(),
            r is Ok ==> weight(final(self).text(), final(self).state()) < weight(
                old(self).text(),
                old(self).state(),
            ),
        decreases weight(old(self).text(), old(self).state()), 0nat,
    {
        let token = self.current_token.duplicate();
        match token {
            Token::Subtract => {
                if let Err(e) = self.get_next_token() {
                    return Err(e);
                }
                match self.generate_ast(OperatorPrecedence::Negative) {
                    Ok(expr) => Ok(Node::Negative(Box::new(expr))),
                    Err(e) => Err(e),
                }
            },
            Token::Num(i) => {
                if let Err(e) = self.get_next_token() {
                    return Err(e);
                }
                Ok(Node::Number(i))
            },
            Token::LeftParen => {
                if let Err(e) = self.get_next_token() {
                    return Err(e);
                }
                let expr = match self.generate_ast(OperatorPrecedence::DefaultZero) {
                    Ok(n) => n,
                    Err(e) => return Err(e),
                };
                if let Err(e) = self.check_parenthesis() {
                    return Err(e);
                }
                if self.current_token.is_left_paren() {
                    let right = match self.generate_ast(OperatorPrecedence::MulDiv) {
                        Ok(n) => n,
                        Err(e) => return Err(e),
                    };
                    return Ok(Node::Multiply(Box::new(expr), Box::new(right)));
                }
                Ok(expr)
            },
            _ => Err(ParseError::unable_to_parse("Unable to parse")),
        }
    }

    fn convert_token_to_node(&mut self, left_expr: Node) -> (r: Result<Node, ParseError>)
        requires
            old(self).wf(),
            numerals_wf(left_expr@),
        ensures
            r matches Ok(n) ==> numerals_wf(n@),
            final(self).wf(),
            final(self).text() == old(self).text(),
            outcome(r, final(self).state()) == apply_operator(
                old(self).text(),
                left_expr@,
                old(self).state(),
            ),
            !is_binary(old(self).state().cur) ==> final(self).state() == old(self).state(),
            r is Ok ==> weight(final(self).text(), final(self).state()) < weight(
                old(self).text(),
                old(self).state(),
            ),
        decreases weight(old(self).text(), old(self).state()), 0nat,
    {
        if !self.current_token.is_binary_operator() {
            return Err(
                ParseError::invalid_operator_at(
                    "Please enter valid operator ",
                    self.current_token.name(),
                ),
            );
        }
        let operator = self.current_token.duplicate();
        let level = self.current_token.get_operator_precedence();
        if let Err(e) = self.get_next_token() {
            return Err(e);
        }
        let right_expr = match self.generate_ast(level) {
            Ok(n) => n,
            Err(e) => return Err(e),
        };
        Ok(combine(&operator, left_expr, right_expr))
    }

    fn check_parenthesis(&mut self) -> (r: Result<(), ParseError>)
        requires
            old(self).wf(),
        ensures
            final(self).wf(),
            final(self).text() == old(self).text(),
            old(self).state().cur is RightParen ==> match r {
                Ok(_) => advance(old(self).text(), old(self).state().pos) == Ok::<PState, Failure>(final(self).state()),
                Err(e) => advance(old(self).text(), old(self).state().pos) == Err::<PState, Failure>(e@),
            },
            !(old(self).state().cur is RightParen) ==> (r matches Err(e) && e@ == failure(
                ErrorKind::InvalidOperator,
                "Expected RightParen got "@ + old(self).state().cur.name(),
            ) && final(self).state() == old(self).state()),
            r is Ok ==> weight(final(self).text(), final(self).state()) < weight(
                old(self).text(),
                old(self).state(),
            ),
    {
        if self.current_token.is_right_paren() {
            self.get_next_token()
        } else {
            Err(
                ParseError::invalid_operator_at(
                    "Expected RightParen got ",
                    self.current_token.name(),
                ),
            )
        }
    }

    fn get_next_token(&mut self) -> (r: Result<(), ParseError>)
        requires
            old(self).wf(),
        ensures
            final(self).wf(),
            final(self).text() == old(self).text(),
            match r {
                Ok(_) => advance(old(self).text(), old(self).state().pos) == Ok::<PState, Failure>(final(self).state()),
                Err(e) => advance(old(self).text(), old(self).state().pos) == Err::<PState, Failure>(e@),
            },
            r is Err ==> final(self).state().cur == old(self).state().cur,
            r is Ok && !(old(self).state().cur is EOF) ==> weight(final(self).text(), final(self).state())
                < weight(old(self).text(), old(self).state()),
    {
        match self.tokenizer.next() {
            Err(e) => Err(e),
            Ok(Some(token)) => {
                self.current_token = token;
                Ok(())
            },
            Ok(None) => {
                if self.tokenizer.at_end() {
                    self.current_token = Token::EOF;
                    Ok(())
                } else {
                    Err(ParseError::invalid_operator("Invalid character"))
                }
            },
        }
    }
}

/// The node that the binary operator token `op` builds from its operands.
fn combine(op: &Token, left: Node, right: Node) -> (r: Node)
    ensures
        r@ == binary(op@, left@, right@),
        numerals_wf(left@) && numerals_wf(right@) ==> numerals_wf(r@),
{
    match op {
        Token::Subtract => Node::Subtract(Box::new(left), Box::new(right)),
        Token::Multiply => Node::Multiply(Box::new(left), Box::new(right)),
        Token::Divide => Node::Divide(Box::new(left), Box::new(right)),
        Token::Caret => Node::Caret(Box::new(left), Box::new(right)),
        _ => Node::Add(Box::new(left), Box::new(right)),
    }
}

/// Parses the text of an arithmetic expression into its tree.
pub fn parse_expression(expr: &str) -> (r: Result<Node, ParseError>)
    ensures
        match r {
            Ok(n) => parse_text(expr@) == Ok::<Expr, Failure>(n@) && numerals_wf(n@),
            Err(e) => parse_text(expr@) == Err::<Expr, Failure>(e@),
        },
{
    let mut parser = match Parser::new(expr) {
        Ok(p) => p,
        Err(e) => return Err(e),
    };
    parser.parse()
}

} // verus!
