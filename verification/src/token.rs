//! The lexical scanner: turns the character stream into tokens, recognizes a
//! configurable set of terminator characters, and keeps at most one token of
//! pushback.

use vstd::prelude::*;

use crate::source::CharSource;
use crate::source::is_space_char;
use crate::source::skip_spaces;

verus! {

/// The alphabet the scanner produces. `End` reports that a configured
/// terminator character was seen and consumed; `Eof` that the input ran out;
/// `Error` carries a character outside the known sets.
#[derive(Debug, PartialEq, Eq, Clone)]
pub enum Token {
    LBracket,
    RBracket,
    Identifier(String),
    LParen,
    RParen,
    Star,
    Plus,
    Bar,
    Dash,
    StringLiteral(String),
    End,
    Eof,
    Error(char),
}

/// The mathematical value of a `Token`.
pub enum TokenView {
    LBracket,
    RBracket,
    Identifier(Seq<char>),
    LParen,
    RParen,
    Star,
    Plus,
    Bar,
    Dash,
    StringLiteral(Seq<char>),
    End,
    Eof,
    Error(char),
}

impl View for Token {
    type V = TokenView;

    open spec fn view(&self) -> TokenView {
        match self {
            Token::LBracket => TokenView::LBracket,
            Token::RBracket => TokenView::RBracket,
            Token::Identifier(s) => TokenView::Identifier(s@),
            Token::LParen => TokenView::LParen,
            Token::RParen => TokenView::RParen,
            Token::Star => TokenView::Star,
            Token::Plus => TokenView::Plus,
            Token::Bar => TokenView::Bar,
            Token::Dash => TokenView::Dash,
            Token::StringLiteral(s) => TokenView::StringLiteral(s@),
            Token::End => TokenView::End,
            Token::Eof => TokenView::Eof,
            Token::Error(c) => TokenView::Error(*c),
        }
    }
}

/// Why a parse failed. Every failure is fatal to the current parse: the error
/// names the offending character or token and the nature of the violation.
#[derive(Debug, PartialEq, Eq, Clone)]
pub enum ParseError {
    /// Input ran out before the closing delimiter of a quoted literal.
    UnterminatedLiteral(char),
    /// A token that cannot start a factor stood where a factor was required.
    UnexpectedToken(Token),
    /// The given token stood where a closing parenthesis was required.
    MissingRParen(Token),
    /// A range separator without a string literal before or after it.
    ClassRangeNotLiteral(Token),
    /// Any other token that cannot stand inside a character class.
    UnexpectedClassToken(Token),
    /// A range bound was written as a literal with no characters.
    EmptyRangeBound,
}

/// The mathematical value of a `ParseError`.
pub enum ErrView {
    UnterminatedLiteral(char),
    UnexpectedToken(TokenView),
    MissingRParen(TokenView),
    ClassRangeNotLiteral(TokenView),
    UnexpectedClassToken(TokenView),
    EmptyRangeBound,
}

impl View for ParseError {
    type V = ErrView;

    open spec fn view(&self) -> ErrView {
        match self {
            ParseError::UnterminatedLiteral(c) => ErrView::UnterminatedLiteral(*c),
            ParseError::UnexpectedToken(t) => ErrView::UnexpectedToken(t@),
            ParseError::MissingRParen(t) => ErrView::MissingRParen(t@),
            ParseError::ClassRangeNotLiteral(t) => ErrView::ClassRangeNotLiteral(t@),
            ParseError::UnexpectedClassToken(t) => ErrView::UnexpectedClassToken(t@),
            ParseError::EmptyRangeBound => ErrView::EmptyRangeBound,
        }
    }
}

/// True of the ASCII letters.
pub open spec fn ascii_letter(c: char) -> bool {
    ('a' <= c && c <= 'z') || ('A' <= c && c <= 'Z')
}

/// True of the decimal digits.
pub open spec fn ascii_digit(c: char) -> bool {
    '0' <= c && c <= '9'
}

/// Names what `char::is_alphabetic` returns: whether the character has the
/// Unicode `Alphabetic` property, a function of the character alone.
pub uninterp spec fn unicode_alphabetic(c: char) -> bool;

/// Names what `char::is_alphanumeric` returns: whether the character is
/// Unicode-alphabetic or a Unicode number, a function of the character alone.
pub uninterp spec fn unicode_alphanumeric(c: char) -> bool;

/// True of the characters that may continue an identifier: alphanumeric or
/// underscore.
pub open spec fn is_ident_char(c: char) -> bool {
    unicode_alphanumeric(c) || c == '_'
}

/// Relies on `char::is_alphabetic`: whether the character has the Unicode
/// `Alphabetic` property. Within ASCII that property holds of the letters
/// exactly, so concrete ASCII inputs still evaluate.
#[verifier::external_body]
fn is_alphabetic(c: char) -> (r: bool)
    ensures
        r == unicode_alphabetic(c),
        ascii_letter(c) ==> r,
        c < '\u{0080}' && !ascii_letter(c) ==> !r,
{
    c.is_alphabetic()
}

/// Relies on `char::is_alphanumeric`: whether the character is
/// Unicode-alphabetic or a Unicode number. Within ASCII that holds of the
/// letters and the decimal digits exactly, so concrete ASCII inputs still
/// evaluate.
#[verifier::external_body]
fn is_alphanumeric(c: char) -> (r: bool)
    ensures
        r == unicode_alphanumeric(c),
        ascii_letter(c) || ascii_digit(c) ==> r,
        c < '\u{0080}' && !(ascii_letter(c) || ascii_digit(c)) ==> !r,
{
    c.is_alphanumeric()
}

/// Whether a character may continue an identifier: alphanumeric or underscore.
pub fn is_id_char(c: char) -> (r: bool)
    ensures
        r == is_ident_char(c),
{
    is_alphanumeric(c) || c == '_'
}

/// Whether a character belongs to the configured terminator set.
pub fn is_terminator(c: char, term: &[char]) -> (r: bool)
    ensures
        r == term@.contains(c),
{
    let mut i: usize = 0;
    while i < term.len()
        invariant
            i <= term@.len(),
            forall|j: int| 0 <= j < i ==> term@[j] != c,
        decreases term@.len() - i,
    {
        if term[i] == c {
            return true;
        }
        i = i + 1;
    }
    false
}

/// The quoted literal's characters and what follows it: everything up to the
/// first occurrence of the delimiter, which closes the literal and is part of
/// neither side. Nothing if the delimiter never occurs.
pub open spec fn scan_literal(s: Seq<char>, delim: char) -> Option<(Seq<char>, Seq<char>)>
    decreases s.len(),
{
    if s.len() == 0 {
        None
    } else if s[0] == delim {
        Some((Seq::empty(), s.skip(1)))
    } else {
        match scan_literal(s.skip(1), delim) {
            Some(pr) => Some((seq![s[0]] + pr.0, pr.1)),
            None => None,
        }
    }
}

/// The leading run of identifier characters, and what follows it.
pub open spec fn scan_ident(s: Seq<char>) -> (Seq<char>, Seq<char>)
    decreases s.len(),
{
    if s.len() > 0 && is_ident_char(s[0]) {
        let pr = scan_ident(s.skip(1));
        (seq![s[0]] + pr.0, pr.1)
    } else {
        (Seq::empty(), s)
    }
}

/// What one tokenization step yields from bare characters: a token and the
/// characters left, or the delimiter of a quoted literal that never closed.
pub enum ScanNext {
    Tok(TokenView, Seq<char>),
    Unterminated(char),
}

/// One tokenization step. Whitespace is skipped; then the first character
/// decides: punctuation, a quoted literal, an identifier, a configured
/// terminator (`End`), end of input (`Eof`), or an unrecognized character
/// (`Error`), tried in exactly that order.
pub open spec fn next_token_chars(input: Seq<char>, term: Seq<char>) -> ScanNext {
    let s = skip_spaces(input);
    if s.len() == 0 {
        ScanNext::Tok(TokenView::Eof, s)
    } else {
        let c = s[0];
        let r = s.skip(1);
        if c == '[' {
            ScanNext::Tok(TokenView::LBracket, r)
        } else if c == ']' {
            ScanNext::Tok(TokenView::RBracket, r)
        } else if c == '(' {
            ScanNext::Tok(TokenView::LParen, r)
        } else if c == ')' {
            ScanNext::Tok(TokenView::RParen, r)
        } else if c == '*' {
            ScanNext::Tok(TokenView::Star, r)
        } else if c == '+' {
            ScanNext::Tok(TokenView::Plus, r)
        } else if c == '|' {
            ScanNext::Tok(TokenView::Bar, r)
        } else if c == '-' {
            ScanNext::Tok(TokenView::Dash, r)
        } else if c == '\'' || c == '"' {
            match scan_literal(r, c) {
                Some(pr) => ScanNext::Tok(TokenView::StringLiteral(pr.0), pr.1),
                None => ScanNext::Unterminated(c),
            }
        } else if unicode_alphabetic(c) {
            let pr = scan_ident(r);
            ScanNext::Tok(TokenView::Identifier(seq![c] + pr.0), pr.1)
        } else if term.contains(c) {
            ScanNext::Tok(TokenView::End, r)
        } else {
            ScanNext::Tok(TokenView::Error(c), r)
        }
    }
}

/// The scanner's state as the contracts see it: the characters still to be
/// read, the configured terminator set, and the buffered token, if any.
#[verifier::ext_equal]
pub struct TsView {
    pub rest: Seq<char>,
    pub term: Seq<char>,
    pub peek: Option<TokenView>,
}

/// What one scanner step yields: a token and the state left behind, or the
/// delimiter of a quoted literal that never closed.
pub enum StreamNext {
    Tok(TokenView, TsView),
    Unterminated(char),
}

/// One scanner step: the buffered token if one is pending, else one
/// tokenization step on the characters.
pub open spec fn ts_next(ts: TsView) -> StreamNext {
    match ts.peek {
        Some(t) => StreamNext::Tok(t, TsView { rest: ts.rest, term: ts.term, peek: None }),
        None => match next_token_chars(ts.rest, ts.term) {
            ScanNext::Tok(t, rest2) => StreamNext::Tok(
                t,
                TsView { rest: rest2, term: ts.term, peek: None },
            ),
            ScanNext::Unterminated(d) => StreamNext::Unterminated(d),
        },
    }
}

/// The state after a token is pushed back.
pub open spec fn ts_return(ts: TsView, t: TokenView) -> TsView {
    TsView { rest: ts.rest, term: ts.term, peek: Some(t) }
}

/// How much input a token stands for, counting quote characters; what the
/// scanner consumes to produce a token is at least this much, and every token
/// but `Eof` weighs at least one.
pub open spec fn token_weight(t: TokenView) -> nat {
    match t {
        TokenView::Eof => 0,
        TokenView::Identifier(s) => if s.len() == 0 {
            1
        } else {
            s.len()
        },
        TokenView::StringLiteral(s) => s.len() + 2,
        _ => 1,
    }
}

/// How much unread input a scanner state holds, the buffered token included.
/// Reading strictly shrinks it, which bounds the descent of the parser.
pub open spec fn ts_measure(ts: TsView) -> nat {
    ts.rest.len() + match ts.peek {
        Some(t) => token_weight(t),
        None => 0nat,
    }
}

/// Skipping whitespace never lengthens the input.
pub proof fn lemma_skip_spaces_len(s: Seq<char>)
    ensures
        skip_spaces(s).len() <= s.len(),
    decreases s.len(),
{
    if s.len() > 0 && is_space_char(s[0]) {
        lemma_skip_spaces_len(s.skip(1));
    }
}

/// A scanned literal and its closing delimiter account exactly for the
/// characters consumed.
pub proof fn lemma_scan_literal_len(s: Seq<char>, delim: char)
    ensures
        match scan_literal(s, delim) {
            Some(pr) => pr.0.len() + 1 + pr.1.len() == s.len(),
            None => true,
        },
    decreases s.len(),
{
    if s.len() > 0 && s[0] != delim {
        lemma_scan_literal_len(s.skip(1), delim);
    }
}

/// An identifier scan splits the input without loss.
pub proof fn lemma_scan_ident_len(s: Seq<char>)
    ensures
        scan_ident(s).0.len() + scan_ident(s).1.len() == s.len(),
    decreases s.len(),
{
    if s.len() > 0 && is_ident_char(s[0]) {
        lemma_scan_ident_len(s.skip(1));
    }
}

/// An identifier scan takes exactly the leading run of identifier characters:
/// every character taken is one, the first character left behind is not, and
/// together they are the input unchanged — the stopping character is not
/// swallowed.
pub proof fn lemma_scan_ident_splits(s: Seq<char>)
    ensures
        scan_ident(s).0 + scan_ident(s).1 == s,
        forall|i: int|
            0 <= i < scan_ident(s).0.len() ==> is_ident_char(#[trigger] scan_ident(s).0[i]),
        scan_ident(s).1.len() > 0 ==> !is_ident_char(scan_ident(s).1[0]),
    decreases s.len(),
{
    if s.len() > 0 && is_ident_char(s[0]) {
        lemma_scan_ident_splits(s.skip(1));
        let pr = scan_ident(s.skip(1));
        assert((seq![s[0]] + pr.0) + pr.1 =~= seq![s[0]] + (pr.0 + pr.1));
        assert(seq![s[0]] + s.skip(1) =~= s);
        assert(scan_ident(s).0 + scan_ident(s).1 == s);
        assert forall|i: int| 0 <= i < scan_ident(s).0.len() implies is_ident_char(
            #[trigger] scan_ident(s).0[i],
        ) by {
            if i > 0 {
                assert(scan_ident(s).0[i] == scan_ident(s.skip(1)).0[i - 1]);
            }
        }
    } else {
        assert(scan_ident(s).0 + scan_ident(s).1 =~= s);
    }
}

/// One scanner step consumes at least the returned token's weight, leaves no
/// buffered token behind, and keeps the terminator set.
pub proof fn lemma_ts_next_measure(ts: TsView)
    ensures
        match ts_next(ts) {
            StreamNext::Tok(t, ts2) => ts_measure(ts2) + token_weight(t) <= ts_measure(ts)
                && ts2.term == ts.term && ts2.peek is None,
            StreamNext::Unterminated(_) => true,
        },
{
    match ts.peek {
        Some(_) => {},
        None => {
            lemma_skip_spaces_len(ts.rest);
            let s = skip_spaces(ts.rest);
            if s.len() > 0 {
                let c = s[0];
                let r = s.skip(1);
                if c == '\'' || c == '"' {
                    lemma_scan_literal_len(r, c);
                } else if !(c == '[' || c == ']' || c == '(' || c == ')' || c == '*' || c == '+'
                    || c == '|' || c == '-') && unicode_alphabetic(c) {
                    lemma_scan_ident_len(r);
                }
            }
        },
    }
}

/// True when `a` is what remains of `b` after some prefix was consumed.
pub open spec fn is_suffix_of(a: Seq<char>, b: Seq<char>) -> bool {
    a.len() <= b.len() && a == b.skip(b.len() - a.len())
}

/// Every sequence is a suffix of itself: consuming nothing is allowed.
pub proof fn lemma_suffix_refl(a: Seq<char>)
    ensures
        is_suffix_of(a, a),
{
    assert(a.skip(0) =~= a);
}

/// A suffix of a suffix is a suffix: consumed prefixes compose.
pub proof fn lemma_suffix_trans(a: Seq<char>, b: Seq<char>, c: Seq<char>)
    requires
        is_suffix_of(a, b),
        is_suffix_of(b, c),
    ensures
        is_suffix_of(a, c),
{
    assert(c.skip(c.len() - b.len()).skip(b.len() - a.len()) =~= c.skip(c.len() - a.len()));
}

/// Skipping whitespace only consumes a prefix.
proof fn lemma_skip_spaces_suffix(s: Seq<char>)
    ensures
        is_suffix_of(skip_spaces(s), s),
    decreases s.len(),
{
    if s.len() > 0 && is_space_char(s[0]) {
        lemma_skip_spaces_suffix(s.skip(1));
        assert(is_suffix_of(s.skip(1), s));
        lemma_suffix_trans(skip_spaces(s), s.skip(1), s);
    } else {
        lemma_suffix_refl(s);
    }
}

/// Scanning a quoted literal only consumes a prefix.
proof fn lemma_scan_literal_suffix(s: Seq<char>, delim: char)
    ensures
        match scan_literal(s, delim) {
            Some(pr) => is_suffix_of(pr.1, s),
            None => true,
        },
    decreases s.len(),
{
    if s.len() == 0 {
    } else if s[0] == delim {
        assert(is_suffix_of(s.skip(1), s));
    } else {
        match scan_literal(s.skip(1), delim) {
            Some(pr) => {
                lemma_scan_literal_suffix(s.skip(1), delim);
                assert(is_suffix_of(s.skip(1), s));
                lemma_suffix_trans(pr.1, s.skip(1), s);
            },
            None => {},
        }
    }
}

/// Scanning an identifier only consumes a prefix.
proof fn lemma_scan_ident_suffix(s: Seq<char>)
    ensures
        is_suffix_of(scan_ident(s).1, s),
{
    lemma_scan_ident_splits(s);
    lemma_scan_ident_len(s);
    assert(s.skip(s.len() - scan_ident(s).1.len()) =~= scan_ident(s).1);
}

/// One scanner step only consumes a prefix of the unread characters.
pub proof fn lemma_ts_next_suffix(ts: TsView)
    ensures
        match ts_next(ts) {
            StreamNext::Tok(t, ts2) => is_suffix_of(ts2.rest, ts.rest),
            StreamNext::Unterminated(_) => true,
        },
{
    match ts.peek {
        Some(_) => {
            lemma_suffix_refl(ts.rest);
        },
        None => {
            lemma_skip_spaces_suffix(ts.rest);
            let s = skip_spaces(ts.rest);
            if s.len() > 0 {
                let c = s[0];
                let r = s.skip(1);
                assert(is_suffix_of(r, s));
                lemma_suffix_trans(r, s, ts.rest);
                if !(c == '[' || c == ']' || c == '(' || c == ')' || c == '*' || c == '+' || c
                    == '|' || c == '-') {
                    if c == '\'' || c == '"' {
                        match scan_literal(r, c) {
                            Some(pr) => {
                                lemma_scan_literal_suffix(r, c);
                                lemma_suffix_trans(pr.1, r, ts.rest);
                            },
                            None => {},
                        }
                    } else if unicode_alphabetic(c) {
                        lemma_scan_ident_suffix(r);
                        lemma_suffix_trans(scan_ident(r).1, r, ts.rest);
                    }
                }
            }
        },
    }
}

/// A pushed-back token is returned by the very next read, unchanged and
/// exactly once: the read undoes the pushback.
pub proof fn lemma_pushback_roundtrip(ts: TsView, t: TokenView)
    requires
        ts.peek is None,
    ensures
        ts_next(ts_return(ts, t)) == StreamNext::Tok(t, ts),
{
    assert(TsView { rest: ts.rest, term: ts.term, peek: None } =~= ts);
}

/// A token stream over one expression: the character source, the terminator
/// set configured for this invocation, and at most one buffered token.
pub struct TokenStream {
    pub buffer: CharSource,
    pub term: Vec<char>,
    pub peek: Option<Token>,
}

impl View for TokenStream {
    type V = TsView;

    open spec fn view(&self) -> TsView {
        TsView {
            rest: self.buffer@,
            term: self.term@,
            peek: match self.peek {
                Some(t) => Some(t@),
                None => None,
            },
        }
    }
}

impl TokenStream {
    pub fn new(buffer: CharSource, term: Vec<char>) -> (r: TokenStream)
        ensures
            r@ == (TsView { rest: buffer@, term: term@, peek: None }),
    {
        let r = TokenStream { buffer, term, peek: None };
        proof {
            assert(r@ =~= TsView { rest: r.buffer@, term: r.term@, peek: None });
        }
        r
    }

    /// Scans one quoted literal, the opening delimiter already consumed:
    /// everything up to the next occurrence of the same delimiter, which is
    /// consumed but not part of the literal. Running out of input first is a
    /// fatal lexical error. There is no escape mechanism.
    pub fn parse_string(&mut self, delim: char) -> (r: Result<String, ParseError>)
        ensures
            final(self)@.term == old(self)@.term,
            final(self)@.peek == old(self)@.peek,
            match scan_literal(old(self)@.rest, delim) {
                Some(pr) => r matches Ok(s) && s@ == pr.0 && final(self)@.rest == pr.1,
                None => r == Err::<String, ParseError>(ParseError::UnterminatedLiteral(delim))
                    && final(self)@.rest.len() == 0,
            },
    {
        let mut res = String::new();
        loop
            invariant
                self@.term == old(self)@.term,
                self@.peek == old(self)@.peek,
                match scan_literal(self@.rest, delim) {
                    Some(pr) => scan_literal(old(self)@.rest, delim) == Some::<
                        (Seq<char>, Seq<char>),
                    >((res@ + pr.0, pr.1)),
                    None => scan_literal(old(self)@.rest, delim) is None,
                },
            decreases self@.rest.len(),
        {
            let before = Ghost(self@.rest);
            match self.buffer.next_char() {
                None => {
                    return Err(ParseError::UnterminatedLiteral(delim));
                },
                Some(c) => {
                    if c == delim {
                        proof {
                            assert(scan_literal(before@, delim) == Some::<(Seq<char>, Seq<char>)>(
                                (Seq::empty(), self@.rest),
                            ));
                            assert(res@ + Seq::<char>::empty() =~= res@);
                        }
                        return Ok(res);
                    }
                    let ghost res0 = res@;
                    push_char(&mut res, c);
                    proof {
                        match scan_literal(self@.rest, delim) {
                            Some(pr) => {
                                assert((res0 + (seq![c] + pr.0)) =~= (res@ + pr.0));
                            },
                            None => {},
                        }
                    }
                },
            }
        }
    }

    /// Scans an identifier whose first character is already consumed and given:
    /// the leading character plus the following run of alphanumeric or
    /// underscore characters. The first character past the run is pushed back
    /// onto the character source, not swallowed.
    pub fn parse_id(&mut self, first: char) -> (r: String)
        ensures
            final(self)@.term == old(self)@.term,
            final(self)@.peek == old(self)@.peek,
            r@ == seq![first] + scan_ident(old(self)@.rest).0,
            final(self)@.rest == scan_ident(old(self)@.rest).1,
    {
        let mut res = String::new();
        push_char(&mut res, first);
        proof {
            assert(res@ =~= seq![first]);
        }
        loop
            invariant
                self@.term == old(self)@.term,
                self@.peek == old(self)@.peek,
                seq![first] + scan_ident(old(self)@.rest).0 == res@ + scan_ident(self@.rest).0,
                scan_ident(old(self)@.rest).1 == scan_ident(self@.rest).1,
            ensures
                self@.term == old(self)@.term,
                self@.peek == old(self)@.peek,
                res@ == seq![first] + scan_ident(old(self)@.rest).0,
                self@.rest == scan_ident(old(self)@.rest).1,
            decreases self@.rest.len(),
        {
            let before = Ghost(self@.rest);
            match self.buffer.next_char() {
                Some(c) => {
                    if is_id_char(c) {
                        let ghost res0 = res@;
                        push_char(&mut res, c);
                        proof {
                            let pr = scan_ident(self@.rest);
                            assert((res0 + (seq![c] + pr.0)) =~= (res@ + pr.0));
                        }
                    } else {
                        self.buffer.return_char(c);
                        proof {
                            assert(self@.rest =~= before@);
                            assert(scan_ident(self@.rest).0 =~= Seq::<char>::empty());
                            assert(res@ + Seq::<char>::empty() =~= res@);
                        }
                        break ;
                    }
                },
                None => {
                    proof {
                        assert(scan_ident(self@.rest).0 =~= Seq::<char>::empty());
                        assert(res@ + Seq::<char>::empty() =~= res@);
                    }
                    break ;
                },
            }
        }
        res
    }

    /// One raw tokenization step on the characters, no buffered token pending.
    fn next_token_raw(&mut self) -> (r: Result<Token, ParseError>)
        requires
            old(self)@.peek is None,
        ensures
            final(self)@.term == old(self)@.term,
            final(self)@.peek is None,
            match next_token_chars(old(self)@.rest, old(self)@.term) {
                ScanNext::Tok(t, rest2) => r matches Ok(tok) && tok@ == t && final(self)@.rest
                    == rest2,
                ScanNext::Unterminated(d) => r == Err::<Token, ParseError>(
                    ParseError::UnterminatedLiteral(d),
                ) && final(self)@.rest.len() == 0,
            },
    {
        self.buffer.skip_whitespace();
        match self.buffer.next_char() {
            None => Ok(Token::Eof),
            Some(c) => {
                if c == '[' {
                    Ok(Token::LBracket)
                } else if c == ']' {
                    Ok(Token::RBracket)
                } else if c == '(' {
                    Ok(Token::LParen)
                } else if c == ')' {
                    Ok(Token::RParen)
                } else if c == '*' {
                    Ok(Token::Star)
                } else if c == '+' {
                    Ok(Token::Plus)
                } else if c == '|' {
                    Ok(Token::Bar)
                } else if c == '-' {
                    Ok(Token::Dash)
                } else if c == '\'' || c == '"' {
                    match self.parse_string(c) {
                        Ok(s) => Ok(Token::StringLiteral(s)),
                        Err(e) => Err(e),
                    }
                } else if is_alphabetic(c) {
                    let s = self.parse_id(c);
                    Ok(Token::Identifier(s))
                } else if is_terminator(c, self.term.as_slice()) {
                    Ok(Token::End)
                } else {
                    Ok(Token::Error(c))
                }
            },
        }
    }

    /// Returns the next token: the pushed-back one if a pushback is pending —
    /// the buffer is then cleared — else one tokenization step.
    pub fn next_token(&mut self) -> (r: Result<Token, ParseError>)
        ensures
            final(self)@.term == old(self)@.term,
            match ts_next(old(self)@) {
                StreamNext::Tok(t, ts2) => r matches Ok(tok) && tok@ == t && final(self)@ == ts2,
                StreamNext::Unterminated(d) => r == Err::<Token, ParseError>(
                    ParseError::UnterminatedLiteral(d),
                ) && final(self)@.rest.len() == 0 && final(self)@.peek is None,
            },
    {
        let pending = self.peek.take();
        match pending {
            Some(t) => {
                proof {
                    match ts_next(old(self)@) {
                        StreamNext::Tok(tv, ts2) => {
                            assert(self@ =~= ts2);
                        },
                        StreamNext::Unterminated(_) => {},
                    }
                }
                Ok(t)
            },
            None => {
                let r = self.next_token_raw();
                proof {
                    match ts_next(old(self)@) {
                        StreamNext::Tok(tv, ts2) => {
                            assert(self@ =~= ts2);
                        },
                        StreamNext::Unterminated(_) => {},
                    }
                }
                r
            },
        }
    }

    /// Pushes one token back to be returned by the next read. At most one
    /// token may be pending at a time; pushing back a second one before
    /// consuming the first is ruled out by the precondition.
    pub fn return_token(&mut self, tok: Token)
        requires
            old(self)@.peek is None,
        ensures
            final(self)@ == ts_return(old(self)@, tok@),
    {
        self.peek = Some(tok);
        proof {
            assert(self@ =~= ts_return(old(self)@, tok@));
        }
    }
}

/// Relies on `String::push`: appends the given character to the end of the
/// string.
#[verifier::external_body]
fn push_char(s: &mut String, c: char)
    ensures
        final(s)@ == old(s)@.push(c),
{
    s.push(c);
}

} // verus!
