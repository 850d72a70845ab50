use vstd::prelude::*;

verus! {

/// Binding strength of an operator, weakest first.
#[derive(Debug, Clone, Copy, PartialEq, Eq, Structural, PartialOrd)]
pub enum OperatorPrecedence {
    DefaultZero,
    AddSub,
    MulDiv,
    Power,
    Negative,
}

impl OperatorPrecedence {
    /// Position of the level in the order `DefaultZero < AddSub < MulDiv < Power < Negative`.
    pub open spec fn rank(self) -> nat {
        match self {
            OperatorPrecedence::DefaultZero => 0,
            OperatorPrecedence::AddSub => 1,
            OperatorPrecedence::MulDiv => 2,
            OperatorPrecedence::Power => 3,
            OperatorPrecedence::Negative => 4,
        }
    }

    /// Whether `self` binds strictly more weakly than `other`.
    pub fn lt(&self, other: &OperatorPrecedence) -> (r: bool)
        ensures
            r == (self.rank() < other.rank()),
    {
        self.level() < other.level()
    }

    fn level(&self) -> (r: u8)
        ensures
            r as nat == self.rank(),
    {
        match self {
            OperatorPrecedence::DefaultZero => 0,
            OperatorPrecedence::AddSub => 1,
            OperatorPrecedence::MulDiv => 2,
            OperatorPrecedence::Power => 3,
            OperatorPrecedence::Negative => 4,
        }
    }
}

pub open spec fn is_digit(c: char) -> bool {
    '0' <= c && c <= '9'
}

/// Text of a decimal number: digits with at most one point, and at least one digit.
pub open spec fn is_numeral(t: Seq<char>) -> bool {
    &&& forall|i: int| 0 <= i < t.len() ==> is_digit(#[trigger] t[i]) || t[i] == '.'
    &&& forall|i: int, j: int|
        0 <= i < t.len() && 0 <= j < t.len() && #[trigger] t[i] == '.' && #[trigger] t[j] == '.'
            ==> i == j
    &&& exists|i: int| 0 <= i < t.len() && is_digit(#[trigger] t[i])
}

/// A number as it was written in the input, kept as its decimal text.
#[derive(Debug, Clone, PartialEq)]
pub struct Numeral {
    text: Vec<char>,
}

impl View for Numeral {
    type V = Seq<char>;

    closed spec fn view(&self) -> Seq<char> {
        self.text@
    }
}

impl Numeral {
    pub open spec fn wf(&self) -> bool {
        is_numeral(self@)
    }

    /// Builds a numeral from its text.
    pub fn new(text: Vec<char>) -> (r: Numeral)
        requires
            is_numeral(text@),
        ensures
            r@ == text@,
            r.wf(),
    {
        Numeral { text }
    }

    /// The characters of the numeral, in order.
    pub fn chars(&self) -> (r: &Vec<char>)
        ensures
            r@ == self@,
    {
        &self.text
    }

    /// A copy with the same text.
    pub fn duplicate(&self) -> (r: Numeral)
        ensures
            r@ == self@,
            self.wf() ==> r.wf(),
    {
        let mut text: Vec<char> = Vec::new();
        let mut i: usize = 0;
        while i < self.text.len()
            invariant
                i <= self.text@.len(),
                text@ == self.text@.subrange(0, i as int),
            decreases self.text@.len() - i,
        {
            text.push(self.text[i]);
            i = i + 1;
        }
        assert(text@ =~= self.text@);
        Numeral { text }
    }
}

/// A token as the parser sees it.
pub enum Tok {
    Add,
    Subtract,
    Multiply,
    Divide,
    Caret,
    LeftParen,
    RightParen,
    Num(Seq<char>),
    EOF,
}

impl Tok {
    /// The name of the token's kind, as error descriptions cite it.
    pub open spec fn name(self) -> Seq<char> {
        match self {
            Tok::Add => "Add"@,
            Tok::Subtract => "Subtract"@,
            Tok::Multiply => "Multiply"@,
            Tok::Divide => "Divide"@,
            Tok::Caret => "Caret"@,
            Tok::LeftParen => "LeftParen"@,
            Tok::RightParen => "RightParen"@,
            Tok::Num(_) => "Num"@,
            Tok::EOF => "EOF"@,
        }
    }

    pub open spec fn precedence(self) -> OperatorPrecedence {
        match self {
            Tok::Add | Tok::Subtract => OperatorPrecedence::AddSub,
            Tok::Multiply | Tok::Divide => OperatorPrecedence::MulDiv,
            Tok::Caret => OperatorPrecedence::Power,
            _ => OperatorPrecedence::DefaultZero,
        }
    }
}

/// A lexical unit of an arithmetic expression.
#[derive(Debug, Clone, PartialEq)]
pub enum Token {
    Add,
    Subtract,
    Multiply,
    Divide,
    Caret,
    LeftParen,
    RightParen,
    Num(Numeral),
    EOF,
}

impl View for Token {
    type V = Tok;

    open spec fn view(&self) -> Tok {
        match self {
            Token::Add => Tok::Add,
            Token::Subtract => Tok::Subtract,
            Token::Multiply => Tok::Multiply,
            Token::Divide => Tok::Divide,
            Token::Caret => Tok::Caret,
            Token::LeftParen => Tok::LeftParen,
            Token::RightParen => Tok::RightParen,
            Token::Num(n) => Tok::Num(n@),
            Token::EOF => Tok::EOF,
        }
    }
}

impl Token {
    /// The level at which the token binds as a binary operator.
    pub fn get_operator_precedence(&self) -> (r: OperatorPrecedence)
        ensures
            r == self@.precedence(),
    {
        match self {
            Token::Add | Token::Subtract => OperatorPrecedence::AddSub,
            Token::Multiply | Token::Divide => OperatorPrecedence::MulDiv,
            Token::Caret => OperatorPrecedence::Power,
            _ => OperatorPrecedence::DefaultZero,
        }
    }

    /// A copy of the token.
    pub fn duplicate(&self) -> (r: Token)
        ensures
            r@ == self@,
            (self matches Token::Num(n) ==> n.wf()) ==> (r matches Token::Num(m) ==> m.wf()),
    {
        match self {
            Token::Add => Token::Add,
            Token::Subtract => Token::Subtract,
            Token::Multiply => Token::Multiply,
            Token::Divide => Token::Divide,
            Token::Caret => Token::Caret,
            Token::LeftParen => Token::LeftParen,
            Token::RightParen => Token::RightParen,
            Token::Num(n) => Token::Num(n.duplicate()),
            Token::EOF => Token::EOF,
        }
    }

    /// The name of the token's kind.
    pub fn name(&self) -> (r: &'static str)
        ensures
            r@ == self@.name(),
    {
        match self {
            Token::Add => "Add",
            Token::Subtract => "Subtract",
            Token::Multiply => "Multiply",
            Token::Divide => "Divide",
            Token::Caret => "Caret",
            Token::LeftParen => "LeftParen",
            Token::RightParen => "RightParen",
            Token::Num(_) => "Num",
            Token::EOF => "EOF",
        }
    }

    pub fn is_binary_operator(&self) -> (r: bool)
        ensures
            r == (self@ is Add || self@ is Subtract || self@ is Multiply || self@ is Divide
                || self@ is Caret),
    {
        match self {
            Token::Add | Token::Subtract | Token::Multiply | Token::Divide | Token::Caret => true,
            _ => false,
        }
    }

    pub fn is_left_paren(&self) -> (r: bool)
        ensures
            r == (self@ is LeftParen),
    {
        matches!(self, Token::LeftParen)
    }

    pub fn is_right_paren(&self) -> (r: bool)
        ensures
            r == (self@ is RightParen),
    {
        matches!(self, Token::RightParen)
    }

    pub fn is_eof(&self) -> (r: bool)
        ensures
            r == (self@ is EOF),
    {
        matches!(self, Token::EOF)
    }
}

} // verus!
