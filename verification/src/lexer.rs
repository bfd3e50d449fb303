//! The tokenizer of the filter expression language.
//!
//! [`spec_tokens`] is the mathematical tokenization of an input: maximal
//! munch over the token classes of [`TokenKind`]. The executable
//! [`Lexer`] produces exactly that sequence, one token per [`Lexer::next`]
//! call, and [`lex`] collects it.

use vstd::prelude::*;
use crate::chars::spec_is_digit;
use crate::token::{Token, TokenKind};

verus! {

/// True of the characters skipped between tokens.
pub open spec fn spec_is_space(c: char) -> bool {
    c == ' ' || c == '\t' || c == '\n' || c == '\r'
}

/// True of the characters that may start an identifier.
pub open spec fn spec_is_ident_start(c: char) -> bool {
    ('a' <= c <= 'z') || ('A' <= c <= 'Z') || c == '_'
}

/// True of the characters that may continue an identifier.
pub open spec fn spec_is_ident_char(c: char) -> bool {
    spec_is_ident_start(c) || spec_is_digit(c)
}

/// The position of the first non-space character at or after `pos`.
pub open spec fn spec_skip_spaces(s: Seq<char>, pos: int) -> int
    decreases s.len() - pos,
    when 0 <= pos <= s.len()
{
    if pos < s.len() && spec_is_space(s[pos]) {
        spec_skip_spaces(s, pos + 1)
    } else {
        pos
    }
}

/// The position of the first non-digit character at or after `pos`.
pub open spec fn spec_scan_digits(s: Seq<char>, pos: int) -> int
    decreases s.len() - pos,
    when 0 <= pos <= s.len()
{
    if pos < s.len() && spec_is_digit(s[pos]) {
        spec_scan_digits(s, pos + 1)
    } else {
        pos
    }
}

/// The position of the first non-identifier character at or after `pos`.
pub open spec fn spec_scan_ident(s: Seq<char>, pos: int) -> int
    decreases s.len() - pos,
    when 0 <= pos <= s.len()
{
    if pos < s.len() && spec_is_ident_char(s[pos]) {
        spec_scan_ident(s, pos + 1)
    } else {
        pos
    }
}

/// The position of the first closing quote at or after `pos`, if any.
pub open spec fn spec_scan_string_end(s: Seq<char>, pos: int) -> Option<int>
    decreases s.len() - pos,
    when 0 <= pos <= s.len()
{
    if pos >= s.len() {
        None
    } else if s[pos] == '\'' {
        Some(pos)
    } else {
        spec_scan_string_end(s, pos + 1)
    }
}

/// The token starting at position `pos`, which must hold a non-space
/// character: maximal munch over the token classes.
pub open spec fn spec_token_at(s: Seq<char>, pos: int) -> Token
    recommends
        0 <= pos < s.len(),
{
    let c = s[pos];
    let len = s.len() as int;
    if c == '(' {
        Token { kind: TokenKind::OpenParen, start: pos as usize, end: (pos + 1) as usize }
    } else if c == ')' {
        Token { kind: TokenKind::CloseParen, start: pos as usize, end: (pos + 1) as usize }
    } else if c == '&' {
        if pos + 1 < len && s[pos + 1] == '&' {
            Token { kind: TokenKind::And, start: pos as usize, end: (pos + 2) as usize }
        } else {
            Token { kind: TokenKind::Invalid, start: pos as usize, end: (pos + 1) as usize }
        }
    } else if c == '|' {
        if pos + 1 < len && s[pos + 1] == '|' {
            Token { kind: TokenKind::Or, start: pos as usize, end: (pos + 2) as usize }
        } else {
            Token { kind: TokenKind::Invalid, start: pos as usize, end: (pos + 1) as usize }
        }
    } else if c == '=' {
        if pos + 1 < len && s[pos + 1] == '=' {
            Token { kind: TokenKind::Eq, start: pos as usize, end: (pos + 2) as usize }
        } else {
            Token { kind: TokenKind::Invalid, start: pos as usize, end: (pos + 1) as usize }
        }
    } else if c == '!' {
        if pos + 1 < len && s[pos + 1] == '=' {
            Token { kind: TokenKind::Neq, start: pos as usize, end: (pos + 2) as usize }
        } else {
            Token { kind: TokenKind::Invalid, start: pos as usize, end: (pos + 1) as usize }
        }
    } else if c == '<' {
        if pos + 1 < len && s[pos + 1] == '=' {
            Token { kind: TokenKind::Leq, start: pos as usize, end: (pos + 2) as usize }
        } else {
            Token { kind: TokenKind::Le, start: pos as usize, end: (pos + 1) as usize }
        }
    } else if c == '>' {
        if pos + 1 < len && s[pos + 1] == '=' {
            Token { kind: TokenKind::Geq, start: pos as usize, end: (pos + 2) as usize }
        } else {
            Token { kind: TokenKind::Ge, start: pos as usize, end: (pos + 1) as usize }
        }
    } else if c == '\'' {
        match spec_scan_string_end(s, pos + 1) {
            Some(q) => Token {
                kind: TokenKind::StringLit,
                start: pos as usize,
                end: (q + 1) as usize,
            },
            None => Token { kind: TokenKind::Invalid, start: pos as usize, end: len as usize },
        }
    } else if spec_is_digit(c) {
        let e = spec_scan_digits(s, pos + 1);
        if e < len && s[e] == '.' && e + 1 < len && spec_is_digit(s[e + 1]) {
            Token {
                kind: TokenKind::Float,
                start: pos as usize,
                end: spec_scan_digits(s, e + 1) as usize,
            }
        } else {
            Token { kind: TokenKind::Integer, start: pos as usize, end: e as usize }
        }
    } else if spec_is_ident_start(c) {
        let e = spec_scan_ident(s, pos + 1);
        let word = s.subrange(pos, e);
        if word == "and"@ {
            Token { kind: TokenKind::And, start: pos as usize, end: e as usize }
        } else if word == "or"@ {
            Token { kind: TokenKind::Or, start: pos as usize, end: e as usize }
        } else if word == "true"@ || word == "false"@ {
            Token { kind: TokenKind::Boolean, start: pos as usize, end: e as usize }
        } else {
            Token { kind: TokenKind::Identifier, start: pos as usize, end: e as usize }
        }
    } else {
        Token { kind: TokenKind::Invalid, start: pos as usize, end: (pos + 1) as usize }
    }
}

/// Skipping spaces never moves backwards nor past the end.
pub proof fn lemma_skip_spaces_bounds(s: Seq<char>, pos: int)
    requires
        0 <= pos <= s.len(),
    ensures
        pos <= spec_skip_spaces(s, pos) <= s.len(),
    decreases s.len() - pos,
{
    if pos < s.len() && spec_is_space(s[pos]) {
        lemma_skip_spaces_bounds(s, pos + 1);
    }
}

/// Scanning digits never moves backwards nor past the end.
pub proof fn lemma_scan_digits_bounds(s: Seq<char>, pos: int)
    requires
        0 <= pos <= s.len(),
    ensures
        pos <= spec_scan_digits(s, pos) <= s.len(),
    decreases s.len() - pos,
{
    if pos < s.len() && spec_is_digit(s[pos]) {
        lemma_scan_digits_bounds(s, pos + 1);
    }
}

/// Scanning identifier characters never moves backwards nor past the end.
pub proof fn lemma_scan_ident_bounds(s: Seq<char>, pos: int)
    requires
        0 <= pos <= s.len(),
    ensures
        pos <= spec_scan_ident(s, pos) <= s.len(),
    decreases s.len() - pos,
{
    if pos < s.len() && spec_is_ident_char(s[pos]) {
        lemma_scan_ident_bounds(s, pos + 1);
    }
}

/// A found closing quote lies at or after the scan start, inside the input.
pub proof fn lemma_scan_string_end_bounds(s: Seq<char>, pos: int)
    requires
        0 <= pos <= s.len(),
    ensures
        match spec_scan_string_end(s, pos) {
            Some(q) => pos <= q < s.len(),
            None => true,
        },
    decreases s.len() - pos,
{
    if pos < s.len() && s[pos] != '\'' {
        lemma_scan_string_end_bounds(s, pos + 1);
    }
}

/// Every token starts where it was read and spans at least one character,
/// ending within the input.
pub proof fn lemma_token_at_bounds(s: Seq<char>, pos: int)
    requires
        0 <= pos < s.len(),
        s.len() <= usize::MAX,
    ensures
        spec_token_at(s, pos).start == pos,
        pos < spec_token_at(s, pos).end <= s.len(),
{
    let c = s[pos];
    if c == '\'' {
        lemma_scan_string_end_bounds(s, pos + 1);
    } else if spec_is_digit(c) {
        lemma_scan_digits_bounds(s, pos + 1);
        let e = spec_scan_digits(s, pos + 1);
        if e < s.len() && s[e] == '.' && e + 1 < s.len() && spec_is_digit(s[e + 1]) {
            lemma_scan_digits_bounds(s, e + 1);
        }
    } else if spec_is_ident_start(c) {
        lemma_scan_ident_bounds(s, pos + 1);
    }
}

/// The tokenization of the input from position `pos` on: skip spaces, read
/// one token, continue after it.
pub open spec fn spec_tokens(s: Seq<char>, pos: int) -> Seq<Token>
    decreases s.len() - pos,
    when 0 <= pos <= s.len() <= usize::MAX
    via spec_tokens_dec
{
    let p = spec_skip_spaces(s, pos);
    if p >= s.len() {
        Seq::empty()
    } else {
        seq![spec_token_at(s, p)] + spec_tokens(s, spec_token_at(s, p).end as int)
    }
}

#[via_fn]
proof fn spec_tokens_dec(s: Seq<char>, pos: int) {
    lemma_skip_spaces_bounds(s, pos);
    let p = spec_skip_spaces(s, pos);
    if p < s.len() {
        lemma_token_at_bounds(s, p);
    }
}

/// A lexer over the characters of one input string.
pub struct Lexer {
    /// The characters of the input.
    pub input: Vec<char>,
    /// The current read position.
    pub pos: usize,
}

impl Lexer {
    /// The read position never passes the end of the input.
    pub open spec fn wf(self) -> bool {
        self.pos <= self.input@.len()
    }

    /// A lexer at the start of `input`.
    pub fn init(input: &str) -> (r: Lexer)
        ensures
            r.input@ == input@,
            r.pos == 0,
            r.wf(),
    {
        Lexer { input: crate::chars::str_to_chars(input), pos: 0 }
    }

    /// Skips the spaces between tokens; returns whether any were skipped.
    pub fn intertoken_space(&mut self) -> (moved: bool)
        requires
            old(self).wf(),
        ensures
            final(self).wf(),
            final(self).input@ == old(self).input@,
            final(self).pos == spec_skip_spaces(old(self).input@, old(self).pos as int),
            moved == (final(self).pos != old(self).pos),
    {
        let start = self.pos;
        let n = self.input.len();
        loop
            invariant
                self.input@ == old(self).input@,
                n == self.input@.len(),
                old(self).pos <= self.pos <= n,
                spec_skip_spaces(self.input@, old(self).pos as int) == spec_skip_spaces(
                    self.input@,
                    self.pos as int,
                ),
            ensures
                self.input@ == old(self).input@,
                self.pos == spec_skip_spaces(self.input@, old(self).pos as int),
                old(self).pos <= self.pos <= n,
            decreases n - self.pos,
        {
            if self.pos >= n {
                break ;
            }
            let c = self.input[self.pos];
            if !(c == ' ' || c == '\t' || c == '\n' || c == '\r') {
                break ;
            }
            self.pos = self.pos + 1;
        }
        self.pos != start
    }

    /// Reads the next token, if any characters remain: exactly the token of
    /// [`spec_token_at`] at the first non-space position.
    pub fn next(&mut self) -> (t: Option<Token>)
        requires
            old(self).wf(),
        ensures
            final(self).wf(),
            final(self).input@ == old(self).input@,
            ({
                let p = spec_skip_spaces(old(self).input@, old(self).pos as int);
                if p >= old(self).input@.len() {
                    t is None && final(self).pos == p
                } else {
                    t == Some(spec_token_at(old(self).input@, p)) && final(self).pos
                        == spec_token_at(old(self).input@, p).end
                }
            }),
    {
        self.intertoken_space();
        let n = self.input.len();
        if self.pos >= n {
            return None;
        }
        proof {
            lemma_token_at_bounds(self.input@, self.pos as int);
        }
        let start = self.pos;
        let c = self.input[start];
        let token: Token = if c == '(' {
            self.pos = start + 1;
            Token::openparen(start, start + 1)
        } else if c == ')' {
            self.pos = start + 1;
            Token::closeparen(start, start + 1)
        } else if c == '&' {
            if start + 1 < n && self.input[start + 1] == '&' {
                self.pos = start + 2;
                Token::and(start, start + 2)
            } else {
                self.pos = start + 1;
                Token::invalid(start, start + 1)
            }
        } else if c == '|' {
            if start + 1 < n && self.input[start + 1] == '|' {
                self.pos = start + 2;
                Token::or(start, start + 2)
            } else {
                self.pos = start + 1;
                Token::invalid(start, start + 1)
            }
        } else if c == '=' {
            if start + 1 < n && self.input[start + 1] == '=' {
                self.pos = start + 2;
                Token::eq(start, start + 2)
            } else {
                self.pos = start + 1;
                Token::invalid(start, start + 1)
            }
        } else if c == '!' {
            if start + 1 < n && self.input[start + 1] == '=' {
                self.pos = start + 2;
                Token::neq(start, start + 2)
            } else {
                self.pos = start + 1;
                Token::invalid(start, start + 1)
            }
        } else if c == '<' {
            if start + 1 < n && self.input[start + 1] == '=' {
                self.pos = start + 2;
                Token::leq(start, start + 2)
            } else {
                self.pos = start + 1;
                Token::le(start, start + 1)
            }
        } else if c == '>' {
            if start + 1 < n && self.input[start + 1] == '=' {
                self.pos = start + 2;
                Token::geq(start, start + 2)
            } else {
                self.pos = start + 1;
                Token::ge(start, start + 1)
            }
        } else if c == '\'' {
            let close = self.scan_string_end(start + 1);
            match close {
                Some(q) => {
                    self.pos = q + 1;
                    Token::string(start, q + 1)
                },
                None => {
                    self.pos = n;
                    Token::invalid(start, n)
                },
            }
        } else if '0' <= c && c <= '9' {
            let e = self.scan_digits(start + 1);
            if e < n && self.input[e] == '.' && e + 1 < n && {
                let d = self.input[e + 1];
                '0' <= d && d <= '9'
            } {
                let e2 = self.scan_digits(e + 1);
                self.pos = e2;
                Token::float(start, e2)
            } else {
                self.pos = e;
                Token::integer(start, e)
            }
        } else if ('a' <= c && c <= 'z') || ('A' <= c && c <= 'Z') || c == '_' {
            let e = self.scan_ident(start + 1);
            proof {
                lemma_scan_ident_bounds(self.input@, start + 1);
            }
            self.pos = e;
            if self.span_eq(start, e, "and") {
                Token::and(start, e)
            } else if self.span_eq(start, e, "or") {
                Token::or(start, e)
            } else if self.span_eq(start, e, "true") || self.span_eq(start, e, "false") {
                Token::boolean(start, e)
            } else {
                Token::new(TokenKind::Identifier, start, e)
            }
        } else {
            self.pos = start + 1;
            Token::invalid(start, start + 1)
        };
        Some(token)
    }

    /// The position of the first non-digit character at or after `from`.
    fn scan_digits(&self, from: usize) -> (e: usize)
        requires
            self.wf(),
            from <= self.input@.len(),
        ensures
            e == spec_scan_digits(self.input@, from as int),
            from <= e <= self.input@.len(),
    {
        let n = self.input.len();
        let mut i = from;
        loop
            invariant
                from <= i <= n,
                n == self.input@.len(),
                spec_scan_digits(self.input@, from as int) == spec_scan_digits(
                    self.input@,
                    i as int,
                ),
            ensures
                from <= i <= n,
                i == spec_scan_digits(self.input@, from as int),
            decreases n - i,
        {
            if i >= n {
                break ;
            }
            let c = self.input[i];
            if !('0' <= c && c <= '9') {
                break ;
            }
            i = i + 1;
        }
        i
    }

    /// The position of the first non-identifier character at or after
    /// `from`.
    fn scan_ident(&self, from: usize) -> (e: usize)
        requires
            self.wf(),
            from <= self.input@.len(),
        ensures
            e == spec_scan_ident(self.input@, from as int),
            from <= e <= self.input@.len(),
    {
        let n = self.input.len();
        let mut i = from;
        loop
            invariant
                from <= i <= n,
                n == self.input@.len(),
                spec_scan_ident(self.input@, from as int) == spec_scan_ident(
                    self.input@,
                    i as int,
                ),
            ensures
                from <= i <= n,
                i == spec_scan_ident(self.input@, from as int),
            decreases n - i,
        {
            if i >= n {
                break ;
            }
            let c = self.input[i];
            if !(('a' <= c && c <= 'z') || ('A' <= c && c <= 'Z') || c == '_' || ('0' <= c && c
                <= '9')) {
                break ;
            }
            i = i + 1;
        }
        i
    }

    /// The position of the first closing quote at or after `from`, if any.
    fn scan_string_end(&self, from: usize) -> (e: Option<usize>)
        requires
            self.wf(),
            from <= self.input@.len(),
        ensures
            match e {
                Some(q) => Some(q as int) == spec_scan_string_end(self.input@, from as int)
                    && from <= q < self.input@.len(),
                None => spec_scan_string_end(self.input@, from as int) is None,
            },
    {
        let n = self.input.len();
        let mut i = from;
        while i < n && self.input[i] != '\''
            invariant
                from <= i <= n,
                n == self.input@.len(),
                spec_scan_string_end(self.input@, from as int) == spec_scan_string_end(
                    self.input@,
                    i as int,
                ),
            decreases n - i,
        {
            i = i + 1;
        }
        if i < n {
            Some(i)
        } else {
            None
        }
    }

    /// True when the characters of span `[start, end)` spell `word`.
    fn span_eq(&self, start: usize, end: usize, word: &str) -> (r: bool)
        requires
            self.wf(),
            start <= end <= self.input@.len(),
        ensures
            r == (self.input@.subrange(start as int, end as int) == word@),
    {
        let w = crate::chars::str_to_chars(word);
        if end - start != w.len() {
            assert(self.input@.subrange(start as int, end as int).len() != word@.len());
            return false;
        }
        let mut i: usize = 0;
        let m = w.len();
        while i < m
            invariant
                i <= m,
                m == w@.len() == end - start,
                w@ == word@,
                start <= end <= self.input@.len(),
                forall|j: int|
                    0 <= j < i ==> self.input@.subrange(start as int, end as int)[j] == word@[j],
            decreases m - i,
        {
            if self.input[start + i] != w[i] {
                assert(self.input@.subrange(start as int, end as int)[i as int] != word@[i as int]);
                return false;
            }
            assert(self.input@.subrange(start as int, end as int)[i as int] == word@[i as int]);
            i = i + 1;
        }
        assert(self.input@.subrange(start as int, end as int) =~= word@);
        true
    }
}

/// The full tokenization of `input`: exactly [`spec_tokens`] from the
/// start.
pub fn lex(input: &str) -> (r: Vec<Token>)
    ensures
        r@ == spec_tokens(input@, 0),
{
    let mut lx = Lexer::init(input);
    let mut out: Vec<Token> = Vec::new();
    let n = lx.input.len();
    assert(input@.len() <= usize::MAX);
    loop
        invariant
            lx.wf(),
            lx.input@ == input@,
            input@.len() <= usize::MAX,
            out@ + spec_tokens(input@, lx.pos as int) == spec_tokens(input@, 0),
        ensures
            out@ == spec_tokens(input@, 0),
        decreases lx.input@.len() - lx.pos,
    {
        let ghost prev_pos = lx.pos as int;
        match lx.next() {
            Some(t) => {
                proof {
                    lemma_skip_spaces_bounds(input@, prev_pos);
                    lemma_token_at_bounds(input@, spec_skip_spaces(input@, prev_pos));
                }
                out.push(t);
                assert(out@ + spec_tokens(input@, lx.pos as int) =~= spec_tokens(input@, 0));
            },
            None => {
                assert(out@ =~= spec_tokens(input@, 0));
                break ;
            },
        }
    }
    out
}

} // verus!
