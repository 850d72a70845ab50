use vstd::prelude::*;

use crate::parser::{failure, ErrorKind, Failure, ParseError};
use crate::token::{is_digit, is_numeral, Numeral, Tok, Token};

verus! {

/// Whitespace as Rust's `char::is_whitespace` has it (the Unicode `White_Space` set).
pub open spec fn is_space(c: char) -> bool {
    c == ' ' || ('\t' <= c && c <= '\r') || c == '\u{85}' || c == '\u{A0}' || c == '\u{1680}'
        || ('\u{2000}' <= c && c <= '\u{200A}') || c == '\u{2028}' || c == '\u{2029}'
        || c == '\u{202F}' || c == '\u{205F}' || c == '\u{3000}'
}

/// First position at or after `i` that does not hold a space.
pub open spec fn skip_space(s: Seq<char>, i: int) -> int
    decreases s.len() - i,
{
    if 0 <= i < s.len() && is_space(s[i]) {
        skip_space(s, i + 1)
    } else {
        i
    }
}

/// Spaces to the end of the text are all skipped.
pub proof fn lemma_skip_space_to_end(s: Seq<char>, i: int)
    requires
        0 <= i <= s.len(),
        forall|k: int| i <= k < s.len() ==> is_space(#[trigger] s[k]),
    ensures
        skip_space(s, i) == s.len(),
    decreases s.len() - i,
{
    if i < s.len() {
        lemma_skip_space_to_end(s, i + 1);
    }
}

/// End of the numeral that goes on at `i`; `dot` tells whether it already holds a point.
pub open spec fn numeral_end(s: Seq<char>, i: int, dot: bool) -> int
    decreases s.len() - i,
{
    if 0 <= i < s.len() && (is_digit(s[i]) || (s[i] == '.' && !dot)) {
        numeral_end(s, i + 1, dot || s[i] == '.')
    } else {
        i
    }
}

/// The token that a single operator or parenthesis character stands for.
pub open spec fn symbol(c: char) -> Option<Tok> {
    if c == '+' {
        Some(Tok::Add)
    } else if c == '-' {
        Some(Tok::Subtract)
    } else if c == '*' {
        Some(Tok::Multiply)
    } else if c == '/' {
        Some(Tok::Divide)
    } else if c == '^' {
        Some(Tok::Caret)
    } else if c == '(' {
        Some(Tok::LeftParen)
    } else if c == ')' {
        Some(Tok::RightParen)
    } else {
        None
    }
}

/// One step of the scan of `s` from position `i`: the next token, or `None` where the
/// sequence ends (end of input, or a character that starts no token), and the position
/// after it. A lone point is a malformed numeral.
pub open spec fn lex_next(s: Seq<char>, i: int) -> (Result<Option<Tok>, Failure>, int) {
    let j = skip_space(s, i);
    if j >= s.len() {
        (Ok(None), j)
    } else if is_digit(s[j]) || s[j] == '.' {
        let e = numeral_end(s, j + 1, s[j] == '.');
        let t = s.subrange(j, e);
        if t == seq!['.'] {
            (Err(failure(ErrorKind::UnableToParse, "Unable to parse number"@)), e)
        } else {
            (Ok(Some(Tok::Num(t))), e)
        }
    } else {
        match symbol(s[j]) {
            Some(t) => (Ok(Some(t)), j + 1),
            None => (Ok(None), j),
        }
    }
}

/// Maps a scan result to its model.
pub open spec fn lexed_view(r: Result<Option<Token>, ParseError>) -> Result<Option<Tok>, Failure> {
    match r {
        Ok(Some(t)) => Ok(Some(t@)),
        Ok(None) => Ok(None),
        Err(e) => Err(e@),
    }
}

/// Scans an expression into tokens, one at a time, left to right.
pub struct Tokenizer {
    chars: Vec<char>,
    pos: usize,
}

impl Tokenizer {
    /// The characters being scanned.
    pub closed spec fn text(&self) -> Seq<char> {
        self.chars@
    }

    /// Position of the next character to scan.
    pub closed spec fn cursor(&self) -> int {
        self.pos as int
    }

    pub open spec fn wf(&self) -> bool {
        0 <= self.cursor() <= self.text().len()
    }

    /// A scanner at the start of `expr`.
    pub fn new(expr: &str) -> (r: Tokenizer)
        ensures
            r.wf(),
            r.text() == expr@,
            r.cursor() == 0,
    {
        let n = expr.unicode_len();
        let mut chars: Vec<char> = Vec::new();
        let mut i: usize = 0;
        while i < n
            invariant
                n == expr@.len(),
                i <= n,
                chars@ == expr@.subrange(0, i as int),
            decreases n - i,
        {
            chars.push(expr.get_char(i));
            i = i + 1;
        }
        assert(chars@ =~= expr@);
        Tokenizer { chars, pos: 0 }
    }

    /// Whether the whole input has been scanned.
    pub fn at_end(&self) -> (r: bool)
        ensures
            r == (self.cursor() >= self.text().len()),
    {
        self.pos >= self.chars.len()
    }

    /// Scans the next token.
    pub fn next(&mut self) -> (r: Result<Option<Token>, ParseError>)
        requires
            old(self).wf(),
        ensures
            final(self).wf(),
            final(self).text() == old(self).text(),
            lex_next(old(self).text(), old(self).cursor()) == (lexed_view(r), final(self).cursor()),
            final(self).cursor() >= old(self).cursor(),
            r matches Ok(Some(t)) ==> final(self).cursor() > old(self).cursor(),
            r matches Ok(Some(t)) ==> ((t matches Token::Num(n) ==> n.wf()) && !(t@ is EOF)),
    {
        let ghost s = self.chars@;
        let n = self.chars.len();
        while self.pos < n && is_space_char(self.chars[self.pos])
            invariant
                self.chars@ == s,
                n == s.len(),
                self.pos <= n,
                skip_space(s, old(self).pos as int) == skip_space(s, self.pos as int),
                self.pos >= old(self).pos,
            decreases n - self.pos,
        {
            self.pos = self.pos + 1;
        }
        if self.pos >= n {
            return Ok(None);
        }
        let start = self.pos;
        let c = self.chars[start];
        if is_digit_char(c) || c == '.' {
            let mut text: Vec<char> = Vec::new();
            text.push(c);
            let mut dot = c == '.';
            let mut p = start + 1;
            assert(text@[0] == c);
            while p < n && (is_digit_char(self.chars[p]) || (self.chars[p] == '.' && !dot))
                invariant
                    self.chars@ == s,
                    n == s.len(),
                    start < p <= n,
                    text@ == s.subrange(start as int, p as int),
                    numeral_end(s, start + 1, s[start as int] == '.') == numeral_end(s, p as int, dot),
                    forall|k: int| 0 <= k < text@.len() ==> is_digit(#[trigger] text@[k]) || text@[k] == '.',
                    dot <==> exists|k: int| 0 <= k < text@.len() && #[trigger] text@[k] == '.',
                    forall|a: int, b: int|
                        0 <= a < text@.len() && 0 <= b < text@.len() && #[trigger] text@[a] == '.'
                            && #[trigger] text@[b] == '.' ==> a == b,
                    text@ == seq!['.'] || exists|k: int| 0 <= k < text@.len() && is_digit(#[trigger] text@[k]),
                decreases n - p,
            {
                let d = self.chars[p];
                let ghost before = text@;
                text.push(d);
                proof {
                    if is_digit(d) {
                        assert(text@[before.len() as int] == d);
                    } else {
                        assert(text@[0] == before[0]);
                        assert(is_digit(text@[0]));
                    }
                    assert forall|k: int| 0 <= k < before.len() implies text@[k] == before[k] by {}
                    assert(text@[before.len() as int] == d);
                    if d == '.' {
                        assert(text@[before.len() as int] == '.');
                    } else if dot {
                        let k = choose|k: int| 0 <= k < before.len() && #[trigger] before[k] == '.';
                        assert(text@[k] == '.');
                    }
                }
                dot = dot || d == '.';
                p = p + 1;
            }
            self.pos = p;
            if text.len() == 1 && c == '.' {
                assert(text@ =~= seq!['.']);
                return Err(ParseError::unable_to_parse("Unable to parse number"));
            }
            assert(text@ != seq!['.']) by {
                if text@.len() == 1 {
                    assert(text@[0] != seq!['.'][0]);
                }
            }
            assert(is_numeral(text@));
            return Ok(Some(Token::Num(Numeral::new(text))));
        }
        let t = if c == '+' {
            Token::Add
        } else if c == '-' {
            Token::Subtract
        } else if c == '*' {
            Token::Multiply
        } else if c == '/' {
            Token::Divide
        } else if c == '^' {
            Token::Caret
        } else if c == '(' {
            Token::LeftParen
        } else if c == ')' {
            Token::RightParen
        } else {
            return Ok(None);
        };
        self.pos = start + 1;
        Ok(Some(t))
    }
}

fn is_digit_char(c: char) -> (r: bool)
    ensures
        r == is_digit(c),
{
    '0' <= c && c <= '9'
}

fn is_space_char(c: char) -> (r: bool)
    ensures
        r == is_space(c),
{
    c == ' ' || ('\t' <= c && c <= '\r') || c == '\u{85}' || c == '\u{A0}' || c == '\u{1680}'
        || ('\u{2000}' <= c && c <= '\u{200A}') || c == '\u{2028}' || c == '\u{2029}'
        || c == '\u{202F}' || c == '\u{205F}' || c == '\u{3000}'
}

} // verus!
