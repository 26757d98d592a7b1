//! Character-by-character tokenization with position tracking.
//!
//! A [`Tokenizer`] owns a cursor over the characters of one source text and
//! converts them, in a single left-to-right pass with one character of
//! lookahead, into [`Token`] values. The spec function [`spec_tokens`] is the
//! mathematical model of that pass: `scan_tokens` is proved to return exactly
//! the token sequence it describes.

use vstd::prelude::*;
use vstd::string::StrSliceExecFns;
use vstd::string::StringExecFns;

verus! {

/// The lexical category of a token.
///
/// Only the punctuation and comparison/assignment categories, `Illegal`, and
/// `EOF` are produced by the scanner today; the literal and keyword
/// categories are part of the stable vocabulary a parser downstream expects
/// and are reserved for future scanning rules.
#[derive(Debug, PartialEq)]
pub enum TokenType {
    // Single-character tokens.
    LeftParen,
    RightParen,
    LeftBrace,
    RightBrace,
    Comma,
    Dot,
    Minus,
    Plus,
    Semicolon,
    Slash,
    Star,

    // One or two character tokens.
    Bang,
    BangEqual,
    Equal,
    EqualEqual,
    Greater,
    GreaterEqual,
    Less,
    LessEqual,

    // Literals.
    Identifier,
    String,
    Number,

    // Keywords.
    And,
    Class,
    Else,
    False,
    Fun,
    For,
    If,
    Nil,
    Or,
    Print,
    Return,
    Super,
    This,
    True,
    Var,
    While,

    Illegal,

    EOF,
}

/// The mathematical value of a [`Token`]: its category, the characters of
/// its lexeme, and the 1-based line and the column at which it was produced.
#[verifier::ext_equal]
pub struct SpecToken {
    pub kind: TokenType,
    pub lexeme: Seq<char>,
    pub line: int,
    pub column: int,
}

/// A token produced by the tokenizer: a category, the exact source text that
/// produced it (empty for the end-of-input token), and its position.
#[derive(Debug, PartialEq)]
pub struct Token {
    pub token_type: TokenType,
    pub lexeme: String,
    pub line: u32,
    pub column: usize,
}

impl View for Token {
    type V = SpecToken;

    open spec fn view(&self) -> SpecToken {
        SpecToken {
            kind: self.token_type,
            lexeme: self.lexeme@,
            line: self.line as int,
            column: self.column as int,
        }
    }
}

impl Token {
    /// Packs a category, lexeme and position into a token.
    pub fn new(token_type: TokenType, lexeme: String, line: u32, column: usize) -> (t: Token)
        ensures
            t@ == (SpecToken {
                kind: token_type,
                lexeme: lexeme@,
                line: line as int,
                column: column as int,
            }),
    {
        Token { token_type, lexeme, line, column }
    }
}

/// The characters the scanner consumes without producing a token and
/// without leaving the current line: space, carriage return, tab.
pub open spec fn is_skip_char(c: char) -> bool {
    c == ' ' || c == '\r' || c == '\t'
}

/// The characters that may begin a two-character operator when followed by
/// `=`: the starts of `==`, `!=`, `<=`, `>=`.
pub open spec fn is_pair_start(c: char) -> bool {
    c == '=' || c == '!' || c == '<' || c == '>'
}

/// The category of the token produced when `c` is consumed on its own:
/// single-character punctuation, a lone comparison/assignment operator, or
/// `Illegal` for any character outside the scanner's grammar.
pub open spec fn one_char_kind(c: char) -> TokenType {
    if c == '(' {
        TokenType::LeftParen
    } else if c == ')' {
        TokenType::RightParen
    } else if c == '{' {
        TokenType::LeftBrace
    } else if c == '}' {
        TokenType::RightBrace
    } else if c == '.' {
        TokenType::Dot
    } else if c == ',' {
        TokenType::Comma
    } else if c == ';' {
        TokenType::Semicolon
    } else if c == '+' {
        TokenType::Plus
    } else if c == '-' {
        TokenType::Minus
    } else if c == '*' {
        TokenType::Star
    } else if c == '=' {
        TokenType::Equal
    } else if c == '!' {
        TokenType::Bang
    } else if c == '<' {
        TokenType::Less
    } else if c == '>' {
        TokenType::Greater
    } else {
        TokenType::Illegal
    }
}

/// The category of the two-character operator `c=`, for `c` in `= ! < >`.
pub open spec fn two_char_kind(c: char) -> TokenType {
    if c == '=' {
        TokenType::EqualEqual
    } else if c == '!' {
        TokenType::BangEqual
    } else if c == '<' {
        TokenType::LessEqual
    } else {
        TokenType::GreaterEqual
    }
}

/// The tokens produced by scanning `s` from index `i` onward, having already
/// consumed `column` characters since the start of the current line `line`.
///
/// Each step classifies the character under the cursor: whitespace is
/// consumed silently, a newline additionally moves to the next line and
/// resets the column, a potential two-character operator consumes the
/// following `=` as well when one is there (maximal munch), and every other
/// character yields the one-character token of [`one_char_kind`]. A consumed
/// character always advances the column, and a token's position is the line
/// and column at the moment its last character has been consumed. When the
/// input is exhausted, exactly one `EOF` token with an empty lexeme is
/// produced at the current position.
pub open spec fn spec_tokens_from(s: Seq<char>, i: int, line: int, column: int) -> Seq<SpecToken>
    decreases s.len() - i,
{
    if i < 0 || i >= s.len() {
        seq![SpecToken { kind: TokenType::EOF, lexeme: Seq::empty(), line, column }]
    } else if is_skip_char(s[i]) {
        spec_tokens_from(s, i + 1, line, column + 1)
    } else if s[i] == '\n' {
        spec_tokens_from(s, i + 1, line + 1, 0)
    } else if is_pair_start(s[i]) && i + 1 < s.len() && s[i + 1] == '=' {
        seq![SpecToken {
            kind: two_char_kind(s[i]),
            lexeme: seq![s[i], '='],
            line,
            column: column + 2,
        }] + spec_tokens_from(s, i + 2, line, column + 2)
    } else {
        seq![SpecToken {
            kind: one_char_kind(s[i]),
            lexeme: seq![s[i]],
            line,
            column: column + 1,
        }] + spec_tokens_from(s, i + 1, line, column + 1)
    }
}

/// The tokens produced by scanning all of `s` from its beginning: line 1,
/// column 0, nothing consumed yet.
pub open spec fn spec_tokens(s: Seq<char>) -> Seq<SpecToken> {
    spec_tokens_from(s, 0, 1, 0)
}

/// The number of newline characters in `s` at index `i` or later.
pub open spec fn newline_count_from(s: Seq<char>, i: int) -> int
    decreases s.len() - i,
{
    if i < 0 || i >= s.len() {
        0
    } else if s[i] == '\n' {
        1 + newline_count_from(s, i + 1)
    } else {
        newline_count_from(s, i + 1)
    }
}

/// The number of newline characters in `s`.
pub open spec fn newline_count(s: Seq<char>) -> int {
    newline_count_from(s, 0)
}

/// The mathematical values of a sequence of tokens, element by element.
pub open spec fn views_of(tokens: Seq<Token>) -> Seq<SpecToken> {
    tokens.map_values(|t: Token| t@)
}

/// The mathematical value of a [`Tokenizer`]: the characters of its source
/// text and the four position counters of its cursor.
#[verifier::ext_equal]
pub struct ScanState {
    pub input: Seq<char>,
    pub start: int,
    pub current: int,
    pub line: int,
    pub column: int,
}

/// The tokenizer machine responsible for converting source code into tokens.
///
/// It owns the characters of one source text and a cursor with one-character
/// lookahead, and is driven to completion by a single call to
/// [`Tokenizer::scan_tokens`]; a new input requires a new `Tokenizer`.
pub struct Tokenizer {
    chars: Vec<char>,
    start: usize,
    current: usize,
    line: u32,
    column: usize,
}

impl View for Tokenizer {
    type V = ScanState;

    closed spec fn view(&self) -> ScanState {
        ScanState {
            input: self.chars@,
            start: self.start as int,
            current: self.current as int,
            line: self.line as int,
            column: self.column as int,
        }
    }
}

impl Tokenizer {
    /// The cursor invariant: the cursor sits inside the input, the line
    /// counter (which starts at 1 and grows once per consumed newline) and
    /// the column counter (which counts characters consumed since the start
    /// of the current line) are bounded by the number of characters consumed
    /// so far, and the input is short enough for the line counter never to
    /// overflow.
    pub open spec fn wf(&self) -> bool {
        &&& self@.input.len() < u32::MAX
        &&& 0 <= self@.start
        &&& 0 <= self@.current <= self@.input.len()
        &&& 1 <= self@.line <= self@.current + 1
        &&& 0 <= self@.column <= self@.current
    }

    /// Constructs a tokenizer positioned at the first character of `source`,
    /// on line 1, column 0. Any text, including the empty text, is accepted;
    /// the length bound only keeps the 32-bit line counter from overflowing.
    pub fn new(source: &String) -> (t: Tokenizer)
        requires
            source@.len() < u32::MAX,
        ensures
            t.wf(),
            t@ == (ScanState { input: source@, start: 0, current: 0, line: 1, column: 0 }),
    {
        let s = source.as_str();
        let n = s.unicode_len();
        let mut chars: Vec<char> = Vec::new();
        let mut i: usize = 0;
        while i < n
            invariant
                i <= n,
                n == s@.len(),
                s@ == source@,
                chars@ =~= source@.subrange(0, i as int),
            decreases n - i,
        {
            let c = s.get_char(i);
            chars.push(c);
            i = i + 1;
        }
        proof {
            assert(chars@ =~= source@);
        }
        Tokenizer { chars, start: 0, current: 0, line: 1, column: 0 }
    }

    /// Inspects the character under the cursor without consuming it: the
    /// one-character lookahead primitive. Returns `None` when the input is
    /// exhausted.
    fn peek(&self) -> (c: Option<char>)
        ensures
            match c {
                Some(ch) => self@.current < self@.input.len() && ch == self@.input[self@.current],
                None => self@.current >= self@.input.len(),
            },
    {
        if self.current < self.chars.len() {
            Some(self.chars[self.current])
        } else {
            None
        }
    }

    /// Consumes the character under the cursor: pops it, counts it, and
    /// moves one column to the right.
    pub fn advance(&mut self)
        requires
            old(self).wf(),
            old(self)@.current < old(self)@.input.len(),
        ensures
            final(self).wf(),
            final(self)@ == (ScanState {
                current: old(self)@.current + 1,
                column: old(self)@.column + 1,
                ..old(self)@
            }),
    {
        self.current = self.current + 1;
        self.column = self.column + 1;
    }

    /// Packs a category and lexeme into a token positioned at the current
    /// line and column; the tokenizer itself is left unchanged.
    pub fn create_token(&mut self, token_type: TokenType, lexeme: String) -> (t: Token)
        ensures
            *final(self) == *old(self),
            t@ == (SpecToken {
                kind: token_type,
                lexeme: lexeme@,
                line: old(self)@.line,
                column: old(self)@.column,
            }),
    {
        Token::new(token_type, lexeme, self.line, self.column)
    }

    /// Consumes `c` silently when it is whitespace or a newline and reports
    /// whether it did: space, carriage return and tab advance the column, a
    /// newline moves to the next line and resets the column to 0. Neither
    /// produces a token. Any other character is left unconsumed.
    pub fn skip_whitespace_and_escape_characters(&mut self, c: &char) -> (skipped: bool)
        requires
            old(self).wf(),
            old(self)@.current < old(self)@.input.len(),
            *c == old(self)@.input[old(self)@.current],
        ensures
            final(self).wf(),
            skipped == (is_skip_char(*c) || *c == '\n'),
            is_skip_char(*c) ==> final(self)@ == (ScanState {
                current: old(self)@.current + 1,
                column: old(self)@.column + 1,
                ..old(self)@
            }),
            *c == '\n' ==> final(self)@ == (ScanState {
                current: old(self)@.current + 1,
                line: old(self)@.line + 1,
                column: 0,
                ..old(self)@
            }),
            !skipped ==> *final(self) == *old(self),
    {
        match *c {
            ' ' | '\r' | '\t' => {
                self.advance();
                true
            }
            '\n' => {
                self.current = self.current + 1;
                self.line = self.line + 1;
                self.column = 0;
                true
            }
            _ => false,
        }
    }

    /// Classifies `c` into a token, consuming it — and, for the operator
    /// starts `= ! < >`, also a directly following `=` (maximal munch): the
    /// lookahead never consumes the peeked character unless it is `=`, so a
    /// non-matching character remains available to start the next token.
    /// A character outside the grammar yields an `Illegal` token rather than
    /// an error. The token's position is the line and column reached once
    /// its characters have been consumed.
    pub fn match_single_and_operator_tokens(&mut self, c: &char) -> (t: Token)
        requires
            old(self).wf(),
            old(self)@.current < old(self)@.input.len(),
            *c == old(self)@.input[old(self)@.current],
        ensures
            final(self).wf(),
            ({
                let st = old(self)@;
                let ch = *c;
                if is_pair_start(ch) && st.current + 1 < st.input.len() && st.input[st.current
                    + 1] == '=' {
                    &&& t@ == (SpecToken {
                        kind: two_char_kind(ch),
                        lexeme: seq![ch, '='],
                        line: st.line,
                        column: st.column + 2,
                    })
                    &&& final(self)@ == (ScanState {
                        current: st.current + 2,
                        column: st.column + 2,
                        ..st
                    })
                } else {
                    &&& t@ == (SpecToken {
                        kind: one_char_kind(ch),
                        lexeme: seq![ch],
                        line: st.line,
                        column: st.column + 1,
                    })
                    &&& final(self)@ == (ScanState {
                        current: st.current + 1,
                        column: st.column + 1,
                        ..st
                    })
                }
            }),
    {
        match *c {
            '(' => {
                self.advance();
                self.create_token(TokenType::LeftParen, char_to_string(*c))
            }
            ')' => {
                self.advance();
                self.create_token(TokenType::RightParen, char_to_string(*c))
            }
            '{' => {
                self.advance();
                self.create_token(TokenType::LeftBrace, char_to_string(*c))
            }
            '}' => {
                self.advance();
                self.create_token(TokenType::RightBrace, char_to_string(*c))
            }
            '.' => {
                self.advance();
                self.create_token(TokenType::Dot, char_to_string(*c))
            }
            ',' => {
                self.advance();
                self.create_token(TokenType::Comma, char_to_string(*c))
            }
            ';' => {
                self.advance();
                self.create_token(TokenType::Semicolon, char_to_string(*c))
            }
            '+' => {
                self.advance();
                self.create_token(TokenType::Plus, char_to_string(*c))
            }
            '-' => {
                self.advance();
                self.create_token(TokenType::Minus, char_to_string(*c))
            }
            '*' => {
                self.advance();
                self.create_token(TokenType::Star, char_to_string(*c))
            }
            '=' => {
                self.advance();
                if self.peek_is_equal() {
                    self.advance();
                    proof {
                        reveal_strlit("==");
                        assert(("==")@ =~= seq!['=', '=']);
                    }
                    self.create_token(TokenType::EqualEqual, String::from_str("=="))
                } else {
                    self.create_token(TokenType::Equal, char_to_string(*c))
                }
            }
            '!' => {
                self.advance();
                if self.peek_is_equal() {
                    self.advance();
                    proof {
                        reveal_strlit("!=");
                        assert(("!=")@ =~= seq!['!', '=']);
                    }
                    self.create_token(TokenType::BangEqual, String::from_str("!="))
                } else {
                    self.create_token(TokenType::Bang, char_to_string(*c))
                }
            }
            '<' => {
                self.advance();
                if self.peek_is_equal() {
                    self.advance();
                    proof {
                        reveal_strlit("<=");
                        assert(("<=")@ =~= seq!['<', '=']);
                    }
                    self.create_token(TokenType::LessEqual, String::from_str("<="))
                } else {
                    self.create_token(TokenType::Less, char_to_string(*c))
                }
            }
            '>' => {
                self.advance();
                if self.peek_is_equal() {
                    self.advance();
                    proof {
                        reveal_strlit(">=");
                        assert((">=")@ =~= seq!['>', '=']);
                    }
                    self.create_token(TokenType::GreaterEqual, String::from_str(">="))
                } else {
                    self.create_token(TokenType::Greater, char_to_string(*c))
                }
            }
            _ => {
                self.advance();
                self.create_token(TokenType::Illegal, char_to_string(*c))
            }
        }
    }

    /// Performs one classification step on the character `c` under the
    /// cursor: either `c` is whitespace or a newline and is skipped with no
    /// token produced, or it is classified into exactly one token. Either
    /// way the cursor moves forward, and the tokens still to come plus the
    /// one produced here are precisely the tokens that were to come before
    /// the step.
    pub fn scan_token(&mut self, c: char) -> (t: Option<Token>)
        requires
            old(self).wf(),
            old(self)@.current < old(self)@.input.len(),
            c == old(self)@.input[old(self)@.current],
        ensures
            final(self).wf(),
            final(self)@.input == old(self)@.input,
            final(self)@.start == old(self)@.start,
            old(self)@.current < final(self)@.current <= final(self)@.input.len(),
            t is None <==> (is_skip_char(c) || c == '\n'),
            ({
                let st = old(self)@;
                let fi = final(self)@;
                match t {
                    None => spec_tokens_from(st.input, st.current, st.line, st.column)
                        == spec_tokens_from(fi.input, fi.current, fi.line, fi.column),
                    Some(tok) => spec_tokens_from(st.input, st.current, st.line, st.column)
                        == seq![tok@] + spec_tokens_from(fi.input, fi.current, fi.line, fi.column),
                }
            }),
    {
        if self.skip_whitespace_and_escape_characters(&c) {
            return None;
        }
        let tok = self.match_single_and_operator_tokens(&c);
        proof {
            let st = old(self)@;
            let fi = self@;
            assert(spec_tokens_from(st.input, st.current, st.line, st.column) =~= seq![tok@]
                + spec_tokens_from(fi.input, fi.current, fi.line, fi.column));
        }
        Some(tok)
    }

    /// Consumes the entire input in one pass and returns all tokens in
    /// source order, terminated by exactly one end-of-input token whose
    /// lexeme is empty and whose position is the line and column reached
    /// after the last consumed character. The result is exactly what
    /// [`spec_tokens_from`] describes for the cursor's starting state — for
    /// a freshly constructed tokenizer, [`spec_tokens`] of its source text —
    /// so scanning has no observable effect other than its return value.
    pub fn scan_tokens(&mut self) -> (tokens: Vec<Token>)
        requires
            old(self).wf(),
        ensures
            final(self).wf(),
            final(self)@.input == old(self)@.input,
            final(self)@.current == final(self)@.input.len(),
            views_of(tokens@) == spec_tokens_from(
                old(self)@.input,
                old(self)@.current,
                old(self)@.line,
                old(self)@.column,
            ),
    {
        let mut tokens: Vec<Token> = Vec::new();
        let ghost input0 = self@.input;
        let ghost total = spec_tokens_from(self@.input, self@.current, self@.line, self@.column);

        while self.current < self.chars.len()
            invariant
                self.wf(),
                self@.input == input0,
                views_of(tokens@) + spec_tokens_from(
                    self@.input,
                    self@.current,
                    self@.line,
                    self@.column,
                ) == total,
            decreases self@.input.len() - self@.current,
        {
            let c = self.chars[self.current];
            self.start = self.current;
            let ghost tokens_before = views_of(tokens@);
            let token = self.scan_token(c);
            let ghost rest_after = spec_tokens_from(
                self@.input,
                self@.current,
                self@.line,
                self@.column,
            );
            match token {
                Some(token) => {
                    let ghost tok_view = token@;
                    tokens.push(token);
                    proof {
                        assert(views_of(tokens@) =~= tokens_before + seq![
                            tok_view,
                        ]);
                        assert(tokens_before + (seq![tok_view] + rest_after) =~= (tokens_before
                            + seq![tok_view]) + rest_after);
                    }
                }
                None => {}
            }
        }

        let token = self.create_token(TokenType::EOF, String::new());
        let ghost tokens_before = views_of(tokens@);
        let ghost tok_view = token@;
        tokens.push(token);
        proof {
            let fi = self@;
            assert(spec_tokens_from(fi.input, fi.current, fi.line, fi.column) =~= seq![tok_view]);
            assert(views_of(tokens@) =~= tokens_before + seq![tok_view]);
        }
        tokens
    }

    /// Reports whether the character under the cursor is `=`, without
    /// consuming anything; an exhausted input counts as no match.
    fn peek_is_equal(&self) -> (r: bool)
        ensures
            r == (self@.current < self@.input.len() && self@.input[self@.current] == '='),
    {
        match self.peek() {
            Some(ch) => ch == '=',
            None => false,
        }
    }
}

/// Relies on char::to_string: the returned string holds exactly this one
/// character.
#[verifier::external_body]
fn char_to_string(c: char) -> (r: String)
    ensures
        r@ == seq![c],
{
    c.to_string()
}

} // verus!
