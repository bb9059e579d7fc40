//! The grammar parser: mutually recursive procedures for alternation,
//! concatenation, factors and character classes, each consuming tokens from
//! the scanner and producing a tree fragment.
//!
//! The grammar:
//!
//! ```text
//! regexp  := union
//! union   := concat ('|' union)?
//! concat  := factor concat?          until one of '|', End, ')', Eof
//! factor  := '(' regexp ')' closure?
//!          | '[' class ']' closure?
//!          | identifier closure?
//!          | string closure?
//! closure := '*' | '+' | nothing
//! class   := class-item* ']'
//! class-item := string ('-' string)?
//! ```
//!
//! Each production has a specification function saying exactly what it yields
//! from a scanner state, and an executable function proved to return that.
//! The specification functions take a step allowance (`fuel`) to bound their
//! recursion; the executable parser carries the same allowance as a ghost
//! value, and its contracts show the allowance `union_fuel` always suffices.

use vstd::prelude::*;

use crate::ast::Ast;
use crate::ast::AstView;
use crate::ast::ClassItem;
use crate::ast::ClassItemView;
use crate::ast::ast_view;
use crate::ast::class_views;
use crate::token::ErrView;
use crate::token::ParseError;
use crate::token::StreamNext;
use crate::token::Token;
use crate::token::TokenStream;
use crate::token::TokenView;
use crate::token::TsView;
use crate::token::is_suffix_of;
use crate::token::lemma_suffix_trans;
use crate::token::lemma_ts_next_measure;
use crate::token::lemma_ts_next_suffix;
use crate::token::ts_measure;
use crate::token::ts_next;
use crate::token::ts_return;

verus! {

/// What a grammar production yields: a tree and the scanner state left
/// behind, a fatal error, or `Stuck` when the step allowance ran out —
/// which, as the parser's contracts show, the allowances below rule out.
pub enum SpOut {
    Done(AstView, TsView),
    Fail(ErrView),
    Stuck,
}

/// What parsing the items of a character class yields.
pub enum ClassOut {
    Done(Seq<ClassItemView>, TsView),
    Fail(ErrView),
    Stuck,
}

/// The tokens that end a concatenation: they belong to the enclosing
/// production (or, for `Eof`, to nobody) and are pushed back unconsumed.
pub open spec fn concat_stops(t: TokenView) -> bool {
    t == TokenView::Bar || t == TokenView::End || t == TokenView::RParen || t == TokenView::Eof
}

/// What the optional closure after a factor yields: the factor wrapped in
/// `Star` or `OnePlus` when a `*` or `+` follows, else the factor unchanged
/// with the over-read token pushed back.
pub open spec fn sp_closure(a: AstView, ts: TsView) -> SpOut {
    match ts_next(ts) {
        StreamNext::Tok(t, ts1) => match t {
            TokenView::Star => SpOut::Done(AstView::Star(Box::new(a)), ts1),
            TokenView::Plus => SpOut::Done(AstView::OnePlus(Box::new(a)), ts1),
            _ => SpOut::Done(a, ts_return(ts1, t)),
        },
        StreamNext::Unterminated(d) => SpOut::Fail(ErrView::UnterminatedLiteral(d)),
    }
}

/// What an alternation yields: a concatenation, and when a `|` follows, a
/// `Union` with the alternation after it.
pub open spec fn sp_union(ts: TsView, fuel: nat) -> SpOut
    decreases fuel,
{
    if fuel == 0 {
        SpOut::Stuck
    } else {
        match sp_concat(ts, (fuel - 1) as nat) {
            SpOut::Done(left, ts1) => match ts_next(ts1) {
                StreamNext::Tok(TokenView::Bar, ts2) => match sp_union(ts2, (fuel - 1) as nat) {
                    SpOut::Done(right, ts3) => SpOut::Done(
                        AstView::Union(Box::new(left), Box::new(right)),
                        ts3,
                    ),
                    other => other,
                },
                StreamNext::Tok(t, ts2) => SpOut::Done(left, ts_return(ts2, t)),
                StreamNext::Unterminated(d) => SpOut::Fail(ErrView::UnterminatedLiteral(d)),
            },
            other => other,
        }
    }
}

/// What a concatenation yields: a factor, and when the next token does not
/// end a concatenation, a `Concat` with the concatenation after it.
pub open spec fn sp_concat(ts: TsView, fuel: nat) -> SpOut
    decreases fuel,
{
    if fuel == 0 {
        SpOut::Stuck
    } else {
        match sp_factor(ts, (fuel - 1) as nat) {
            SpOut::Done(left, ts1) => match ts_next(ts1) {
                StreamNext::Tok(t, ts2) => if concat_stops(t) {
                    SpOut::Done(left, ts_return(ts2, t))
                } else {
                    match sp_concat(ts_return(ts2, t), (fuel - 1) as nat) {
                        SpOut::Done(right, ts3) => SpOut::Done(
                            AstView::Concat(Box::new(left), Box::new(right)),
                            ts3,
                        ),
                        other => other,
                    }
                },
                StreamNext::Unterminated(d) => SpOut::Fail(ErrView::UnterminatedLiteral(d)),
            },
            other => other,
        }
    }
}

/// What one factor yields, decided by one token: a parenthesized expression
/// that must close, a character class, a symbolic reference, or a literal,
/// each with its optional closure; any other token is a fatal error.
pub open spec fn sp_factor(ts: TsView, fuel: nat) -> SpOut
    decreases fuel,
{
    if fuel == 0 {
        SpOut::Stuck
    } else {
        match ts_next(ts) {
            StreamNext::Unterminated(d) => SpOut::Fail(ErrView::UnterminatedLiteral(d)),
            StreamNext::Tok(t, ts1) => match t {
                TokenView::LParen => match sp_union(ts1, (fuel - 1) as nat) {
                    SpOut::Done(inner, ts2) => match ts_next(ts2) {
                        StreamNext::Tok(TokenView::RParen, ts3) => sp_closure(inner, ts3),
                        StreamNext::Tok(t2, ts3) => SpOut::Fail(ErrView::MissingRParen(t2)),
                        StreamNext::Unterminated(d) => SpOut::Fail(
                            ErrView::UnterminatedLiteral(d),
                        ),
                    },
                    other => other,
                },
                TokenView::LBracket => match sp_class(ts1, (fuel - 1) as nat) {
                    ClassOut::Done(items, ts2) => sp_closure(AstView::CharClass(items), ts2),
                    ClassOut::Fail(e) => SpOut::Fail(e),
                    ClassOut::Stuck => SpOut::Stuck,
                },
                TokenView::Identifier(name) => sp_closure(AstView::Symbol(name), ts1),
                TokenView::StringLiteral(text) => sp_closure(AstView::Literal(text), ts1),
                _ => SpOut::Fail(ErrView::UnexpectedToken(t)),
            },
        }
    }
}

/// What the items of a character class yield, the opening bracket already
/// consumed: string literals become `Singles`, a literal-dash-literal group
/// becomes a `Range` over the first character of each bound, and the closing
/// bracket ends the class; anything else is a fatal error.
pub open spec fn sp_class(ts: TsView, fuel: nat) -> ClassOut
    decreases fuel,
{
    if fuel == 0 {
        ClassOut::Stuck
    } else {
        match ts_next(ts) {
            StreamNext::Unterminated(d) => ClassOut::Fail(ErrView::UnterminatedLiteral(d)),
            StreamNext::Tok(t, ts1) => match t {
                TokenView::RBracket => ClassOut::Done(Seq::empty(), ts1),
                TokenView::StringLiteral(s1) => match ts_next(ts1) {
                    StreamNext::Unterminated(d) => ClassOut::Fail(ErrView::UnterminatedLiteral(d)),
                    StreamNext::Tok(TokenView::Dash, ts2) => match ts_next(ts2) {
                        StreamNext::Unterminated(d) => ClassOut::Fail(
                            ErrView::UnterminatedLiteral(d),
                        ),
                        StreamNext::Tok(TokenView::StringLiteral(s2), ts3) => if s1.len() == 0
                            || s2.len() == 0 {
                            ClassOut::Fail(ErrView::EmptyRangeBound)
                        } else {
                            match sp_class(ts3, (fuel - 1) as nat) {
                                ClassOut::Done(items, ts4) => ClassOut::Done(
                                    seq![ClassItemView::Range(s1[0], s2[0])] + items,
                                    ts4,
                                ),
                                other => other,
                            }
                        },
                        StreamNext::Tok(t3, ts3) => ClassOut::Fail(
                            ErrView::ClassRangeNotLiteral(t3),
                        ),
                    },
                    StreamNext::Tok(t2, ts2) => match sp_class(
                        ts_return(ts2, t2),
                        (fuel - 1) as nat,
                    ) {
                        ClassOut::Done(items, ts4) => ClassOut::Done(
                            seq![ClassItemView::Singles(s1)] + items,
                            ts4,
                        ),
                        other => other,
                    },
                },
                TokenView::Dash => ClassOut::Fail(ErrView::ClassRangeNotLiteral(TokenView::Dash)),
                _ => ClassOut::Fail(ErrView::UnexpectedClassToken(t)),
            },
        }
    }
}

/// A step allowance that always suffices for an alternation read from the
/// given state, as the contract of `parse_regexp` shows.
pub open spec fn union_fuel(ts: TsView) -> nat {
    5 * ts_measure(ts) + 4
}

/// A step allowance that always suffices for a concatenation.
pub open spec fn concat_fuel(ts: TsView) -> nat {
    5 * ts_measure(ts) + 3
}

/// A step allowance that always suffices for a factor.
pub open spec fn factor_fuel(ts: TsView) -> nat {
    5 * ts_measure(ts) + 2
}

/// A step allowance that always suffices for the items of a character class.
pub open spec fn class_fuel(ts: TsView) -> nat {
    5 * ts_measure(ts) + 1
}

/// What parsing one whole regular expression from a scanner state yields.
pub open spec fn spec_parse(ts: TsView) -> SpOut {
    sp_union(ts, union_fuel(ts))
}

/// An executable result and final scanner state, as a production's yield.
pub open spec fn out_of(r: Result<Ast, ParseError>, ts: TsView) -> SpOut {
    match r {
        Ok(a) => SpOut::Done(ast_view(a), ts),
        Err(e) => SpOut::Fail(e@),
    }
}

/// An executable class-item result and final scanner state, as a yield.
pub open spec fn class_out_of(r: Result<Vec<ClassItem>, ParseError>, ts: TsView) -> ClassOut {
    match r {
        Ok(v) => ClassOut::Done(class_views(v@), ts),
        Err(e) => ClassOut::Fail(e@),
    }
}

/// Whether this token ends a concatenation.
fn is_concat_stop(t: &Token) -> (r: bool)
    ensures
        r == concat_stops(t@),
{
    matches!(t, Token::Bar | Token::End | Token::RParen | Token::Eof)
}

/// Parses exactly one regular expression from the token stream and returns
/// its tree, or the first fatal error. The stream is left just past the
/// expression, with the token that ended it (`End`, `Eof` or an enclosing
/// `)`) pushed back for the caller to inspect: parsing never consumes past a
/// terminator.
pub fn parse_regexp(ts: &mut TokenStream) -> (r: Result<Ast, ParseError>)
    ensures
        final(ts)@.term == old(ts)@.term,
        ts_measure(final(ts)@) <= ts_measure(old(ts)@),
        match spec_parse(old(ts)@) {
            SpOut::Done(a, ts2) => r matches Ok(tree) && ast_view(tree) == a && final(ts)@ == ts2,
            SpOut::Fail(e) => r matches Err(err) && err@ == e,
            SpOut::Stuck => false,
        },
{
    let ghost f = union_fuel(ts@);
    parse_union(ts, Ghost(f))
}

/// One alternation: a concatenation, then `Union` folded to the right while
/// `|` follows.
fn parse_union(ts: &mut TokenStream, Ghost(fuel): Ghost<nat>) -> (r: Result<Ast, ParseError>)
    requires
        fuel >= union_fuel(old(ts)@),
    ensures
        final(ts)@.term == old(ts)@.term,
        ts_measure(final(ts)@) <= ts_measure(old(ts)@),
        r matches Ok(_) ==> ts_measure(final(ts)@) < ts_measure(old(ts)@),
        sp_union(old(ts)@, fuel) == out_of(r, final(ts)@),
    decreases fuel,
{
    let left = match parse_concat(ts, Ghost((fuel - 1) as nat)) {
        Ok(l) => l,
        Err(e) => {
            return Err(e);
        },
    };
    let ghost ts1 = ts@;
    proof {
        lemma_ts_next_measure(ts1);
    }
    match ts.next_token() {
        Err(e) => Err(e),
        Ok(t) => match t {
            Token::Bar => {
                let right = match parse_union(ts, Ghost((fuel - 1) as nat)) {
                    Ok(x) => x,
                    Err(e) => {
                        return Err(e);
                    },
                };
                Ok(Ast::Union(Box::new(left), Box::new(right)))
            },
            t2 => {
                ts.return_token(t2);
                Ok(left)
            },
        },
    }
}

/// One concatenation: a factor, then `Concat` folded to the right until a
/// stopping token, which is pushed back for the enclosing production.
fn parse_concat(ts: &mut TokenStream, Ghost(fuel): Ghost<nat>) -> (r: Result<Ast, ParseError>)
    requires
        fuel >= concat_fuel(old(ts)@),
    ensures
        final(ts)@.term == old(ts)@.term,
        ts_measure(final(ts)@) <= ts_measure(old(ts)@),
        r matches Ok(_) ==> ts_measure(final(ts)@) < ts_measure(old(ts)@),
        sp_concat(old(ts)@, fuel) == out_of(r, final(ts)@),
    decreases fuel,
{
    let left = match parse_factor(ts, Ghost((fuel - 1) as nat)) {
        Ok(l) => l,
        Err(e) => {
            return Err(e);
        },
    };
    let ghost ts1 = ts@;
    proof {
        lemma_ts_next_measure(ts1);
    }
    match ts.next_token() {
        Err(e) => Err(e),
        Ok(t) => {
            if is_concat_stop(&t) {
                ts.return_token(t);
                Ok(left)
            } else {
                ts.return_token(t);
                let right = match parse_concat(ts, Ghost((fuel - 1) as nat)) {
                    Ok(x) => x,
                    Err(e) => {
                        return Err(e);
                    },
                };
                Ok(Ast::Concat(Box::new(left), Box::new(right)))
            }
        },
    }
}

/// One factor, decided by one token; a token that cannot start a factor is a
/// fatal error.
fn parse_factor(ts: &mut TokenStream, Ghost(fuel): Ghost<nat>) -> (r: Result<Ast, ParseError>)
    requires
        fuel >= factor_fuel(old(ts)@),
    ensures
        final(ts)@.term == old(ts)@.term,
        ts_measure(final(ts)@) <= ts_measure(old(ts)@),
        r matches Ok(_) ==> ts_measure(final(ts)@) < ts_measure(old(ts)@),
        sp_factor(old(ts)@, fuel) == out_of(r, final(ts)@),
    decreases fuel,
{
    proof {
        lemma_ts_next_measure(old(ts)@);
    }
    match ts.next_token() {
        Err(e) => Err(e),
        Ok(t) => match t {
            Token::LParen => {
                let inner = match parse_union(ts, Ghost((fuel - 1) as nat)) {
                    Ok(x) => x,
                    Err(e) => {
                        return Err(e);
                    },
                };
                let ghost ts2 = ts@;
                proof {
                    lemma_ts_next_measure(ts2);
                }
                match ts.next_token() {
                    Err(e) => Err(e),
                    Ok(t2) => match t2 {
                        Token::RParen => apply_closure(inner, ts),
                        t3 => Err(ParseError::MissingRParen(t3)),
                    },
                }
            },
            Token::LBracket => {
                let items = match class_items(ts, Ghost((fuel - 1) as nat)) {
                    Ok(v) => v,
                    Err(e) => {
                        return Err(e);
                    },
                };
                apply_closure(Ast::CharClass(items), ts)
            },
            Token::Identifier(s) => apply_closure(Ast::Symbol(s), ts),
            Token::StringLiteral(s) => apply_closure(Ast::Literal(s), ts),
            t2 => Err(ParseError::UnexpectedToken(t2)),
        },
    }
}

/// Applies the optional trailing closure to a parsed factor: `*` wraps it in
/// `Star`, `+` in `OnePlus`, and any other token is pushed back unconsumed.
fn apply_closure(pre: Ast, ts: &mut TokenStream) -> (r: Result<Ast, ParseError>)
    ensures
        final(ts)@.term == old(ts)@.term,
        ts_measure(final(ts)@) <= ts_measure(old(ts)@),
        sp_closure(ast_view(pre), old(ts)@) == out_of(r, final(ts)@),
{
    proof {
        lemma_ts_next_measure(old(ts)@);
    }
    match ts.next_token() {
        Err(e) => Err(e),
        Ok(t) => match t {
            Token::Star => Ok(Ast::Star(Box::new(pre))),
            Token::Plus => Ok(Ast::OnePlus(Box::new(pre))),
            t2 => {
                ts.return_token(t2);
                Ok(pre)
            },
        },
    }
}

/// Parses a character class, the opening bracket already consumed, through
/// the closing bracket, and returns it as a `CharClass` tree.
pub fn parse_character_class(ts: &mut TokenStream) -> (r: Result<Ast, ParseError>)
    ensures
        final(ts)@.term == old(ts)@.term,
        ts_measure(final(ts)@) <= ts_measure(old(ts)@),
        match sp_class(old(ts)@, class_fuel(old(ts)@)) {
            ClassOut::Done(items, ts2) => r matches Ok(tree) && ast_view(tree)
                == AstView::CharClass(items) && final(ts)@ == ts2,
            ClassOut::Fail(e) => r matches Err(err) && err@ == e,
            ClassOut::Stuck => false,
        },
{
    let ghost f = class_fuel(ts@);
    match class_items(ts, Ghost(f)) {
        Ok(items) => Ok(Ast::CharClass(items)),
        Err(e) => Err(e),
    }
}

/// The items of a character class, in input order, up to and including the
/// closing bracket.
fn class_items(ts: &mut TokenStream, Ghost(fuel): Ghost<nat>) -> (r: Result<
    Vec<ClassItem>,
    ParseError,
>)
    requires
        fuel >= class_fuel(old(ts)@),
    ensures
        final(ts)@.term == old(ts)@.term,
        ts_measure(final(ts)@) <= ts_measure(old(ts)@),
        r matches Ok(_) ==> ts_measure(final(ts)@) < ts_measure(old(ts)@),
        sp_class(old(ts)@, fuel) == class_out_of(r, final(ts)@),
    decreases fuel,
{
    proof {
        lemma_ts_next_measure(old(ts)@);
    }
    match ts.next_token() {
        Err(e) => Err(e),
        Ok(t) => match t {
            Token::RBracket => {
                let items: Vec<ClassItem> = Vec::new();
                proof {
                    assert(class_views(items@) =~= Seq::<ClassItemView>::empty());
                }
                Ok(items)
            },
            Token::StringLiteral(s1) => {
                let ghost ts1 = ts@;
                proof {
                    lemma_ts_next_measure(ts1);
                }
                match ts.next_token() {
                    Err(e) => Err(e),
                    Ok(t2) => match t2 {
                        Token::Dash => {
                            let ghost ts2 = ts@;
                            proof {
                                lemma_ts_next_measure(ts2);
                            }
                            match ts.next_token() {
                                Err(e) => Err(e),
                                Ok(t3) => match t3 {
                                    Token::StringLiteral(s2) => {
                                        if s1.as_str().is_empty() || s2.as_str().is_empty() {
                                            Err(ParseError::EmptyRangeBound)
                                        } else {
                                            let lo = s1.as_str().get_char(0);
                                            let hi = s2.as_str().get_char(0);
                                            let mut items = match class_items(
                                                ts,
                                                Ghost((fuel - 1) as nat),
                                            ) {
                                                Ok(v) => v,
                                                Err(e) => {
                                                    return Err(e);
                                                },
                                            };
                                            let ghost tail = items@;
                                            items.insert(0, ClassItem::Range(lo, hi));
                                            proof {
                                                assert(items@ =~= seq![
                                                    ClassItem::Range(lo, hi),
                                                ] + tail);
                                                assert(class_views(items@) =~= seq![
                                                    ClassItemView::Range(lo, hi),
                                                ] + class_views(tail));
                                            }
                                            Ok(items)
                                        }
                                    },
                                    t4 => Err(ParseError::ClassRangeNotLiteral(t4)),
                                },
                            }
                        },
                        t5 => {
                            ts.return_token(t5);
                            let mut items = match class_items(ts, Ghost((fuel - 1) as nat)) {
                                Ok(v) => v,
                                Err(e) => {
                                    return Err(e);
                                },
                            };
                            let ghost tail = items@;
                            items.insert(0, ClassItem::Singles(s1));
                            proof {
                                assert(items@ =~= seq![ClassItem::Singles(s1)] + tail);
                                assert(class_views(items@) =~= seq![
                                    ClassItemView::Singles(s1@),
                                ] + class_views(tail));
                            }
                            Ok(items)
                        },
                    },
                }
            },
            Token::Dash => Err(ParseError::ClassRangeNotLiteral(Token::Dash)),
            t6 => Err(ParseError::UnexpectedClassToken(t6)),
        },
    }
}

/// Reading the optional closure only consumes a prefix of the input.
proof fn lemma_closure_suffix(a: AstView, ts: TsView)
    ensures
        match sp_closure(a, ts) {
            SpOut::Done(b, ts2) => is_suffix_of(ts2.rest, ts.rest),
            _ => true,
        },
{
    lemma_ts_next_suffix(ts);
}

/// An alternation only consumes a prefix of the input.
proof fn lemma_union_suffix(ts: TsView, fuel: nat)
    ensures
        match sp_union(ts, fuel) {
            SpOut::Done(a, ts2) => is_suffix_of(ts2.rest, ts.rest),
            _ => true,
        },
    decreases fuel,
{
    if fuel > 0 {
        lemma_concat_suffix(ts, (fuel - 1) as nat);
        match sp_concat(ts, (fuel - 1) as nat) {
            SpOut::Done(left, ts1) => {
                lemma_ts_next_suffix(ts1);
                match ts_next(ts1) {
                    StreamNext::Tok(TokenView::Bar, ts2) => {
                        lemma_union_suffix(ts2, (fuel - 1) as nat);
                        match sp_union(ts2, (fuel - 1) as nat) {
                            SpOut::Done(right, ts3) => {
                                lemma_suffix_trans(ts3.rest, ts2.rest, ts1.rest);
                                lemma_suffix_trans(ts3.rest, ts1.rest, ts.rest);
                            },
                            _ => {},
                        }
                    },
                    StreamNext::Tok(t, ts2) => {
                        lemma_suffix_trans(ts2.rest, ts1.rest, ts.rest);
                    },
                    StreamNext::Unterminated(_) => {},
                }
            },
            _ => {},
        }
    }
}

/// A concatenation only consumes a prefix of the input.
proof fn lemma_concat_suffix(ts: TsView, fuel: nat)
    ensures
        match sp_concat(ts, fuel) {
            SpOut::Done(a, ts2) => is_suffix_of(ts2.rest, ts.rest),
            _ => true,
        },
    decreases fuel,
{
    if fuel > 0 {
        lemma_factor_suffix(ts, (fuel - 1) as nat);
        match sp_factor(ts, (fuel - 1) as nat) {
            SpOut::Done(left, ts1) => {
                lemma_ts_next_suffix(ts1);
                match ts_next(ts1) {
                    StreamNext::Tok(t, ts2) => {
                        lemma_suffix_trans(ts2.rest, ts1.rest, ts.rest);
                        if !concat_stops(t) {
                            lemma_concat_suffix(ts_return(ts2, t), (fuel - 1) as nat);
                            match sp_concat(ts_return(ts2, t), (fuel - 1) as nat) {
                                SpOut::Done(right, ts3) => {
                                    lemma_suffix_trans(ts3.rest, ts2.rest, ts.rest);
                                },
                                _ => {},
                            }
                        }
                    },
                    StreamNext::Unterminated(_) => {},
                }
            },
            _ => {},
        }
    }
}

/// A factor only consumes a prefix of the input.
proof fn lemma_factor_suffix(ts: TsView, fuel: nat)
    ensures
        match sp_factor(ts, fuel) {
            SpOut::Done(a, ts2) => is_suffix_of(ts2.rest, ts.rest),
            _ => true,
        },
    decreases fuel,
{
    if fuel > 0 {
        lemma_ts_next_suffix(ts);
        match ts_next(ts) {
            StreamNext::Tok(t, ts1) => match t {
                TokenView::LParen => {
                    lemma_union_suffix(ts1, (fuel - 1) as nat);
                    match sp_union(ts1, (fuel - 1) as nat) {
                        SpOut::Done(inner, ts2) => {
                            lemma_ts_next_suffix(ts2);
                            match ts_next(ts2) {
                                StreamNext::Tok(TokenView::RParen, ts3) => {
                                    lemma_closure_suffix(inner, ts3);
                                    match sp_closure(inner, ts3) {
                                        SpOut::Done(b, ts4) => {
                                            lemma_suffix_trans(ts4.rest, ts3.rest, ts2.rest);
                                            lemma_suffix_trans(ts4.rest, ts2.rest, ts1.rest);
                                            lemma_suffix_trans(ts4.rest, ts1.rest, ts.rest);
                                        },
                                        _ => {},
                                    }
                                },
                                _ => {},
                            }
                        },
                        _ => {},
                    }
                },
                TokenView::LBracket => {
                    lemma_class_suffix(ts1, (fuel - 1) as nat);
                    match sp_class(ts1, (fuel - 1) as nat) {
                        ClassOut::Done(items, ts2) => {
                            lemma_closure_suffix(AstView::CharClass(items), ts2);
                            match sp_closure(AstView::CharClass(items), ts2) {
                                SpOut::Done(b, ts3) => {
                                    lemma_suffix_trans(ts3.rest, ts2.rest, ts1.rest);
                                    lemma_suffix_trans(ts3.rest, ts1.rest, ts.rest);
                                },
                                _ => {},
                            }
                        },
                        _ => {},
                    }
                },
                TokenView::Identifier(name) => {
                    lemma_closure_suffix(AstView::Symbol(name), ts1);
                    match sp_closure(AstView::Symbol(name), ts1) {
                        SpOut::Done(b, ts2) => {
                            lemma_suffix_trans(ts2.rest, ts1.rest, ts.rest);
                        },
                        _ => {},
                    }
                },
                TokenView::StringLiteral(text) => {
                    lemma_closure_suffix(AstView::Literal(text), ts1);
                    match sp_closure(AstView::Literal(text), ts1) {
                        SpOut::Done(b, ts2) => {
                            lemma_suffix_trans(ts2.rest, ts1.rest, ts.rest);
                        },
                        _ => {},
                    }
                },
                _ => {},
            },
            StreamNext::Unterminated(_) => {},
        }
    }
}

/// The items of a character class only consume a prefix of the input.
proof fn lemma_class_suffix(ts: TsView, fuel: nat)
    ensures
        match sp_class(ts, fuel) {
            ClassOut::Done(items, ts2) => is_suffix_of(ts2.rest, ts.rest),
            _ => true,
        },
    decreases fuel,
{
    if fuel > 0 {
        lemma_ts_next_suffix(ts);
        match ts_next(ts) {
            StreamNext::Tok(t, ts1) => match t {
                TokenView::StringLiteral(s1) => {
                    lemma_ts_next_suffix(ts1);
                    match ts_next(ts1) {
                        StreamNext::Tok(TokenView::Dash, ts2) => {
                            lemma_ts_next_suffix(ts2);
                            match ts_next(ts2) {
                                StreamNext::Tok(TokenView::StringLiteral(s2), ts3) => {
                                    if s1.len() > 0 && s2.len() > 0 {
                                        lemma_class_suffix(ts3, (fuel - 1) as nat);
                                        match sp_class(ts3, (fuel - 1) as nat) {
                                            ClassOut::Done(items, ts4) => {
                                                lemma_suffix_trans(ts4.rest, ts3.rest, ts2.rest);
                                                lemma_suffix_trans(ts4.rest, ts2.rest, ts1.rest);
                                                lemma_suffix_trans(ts4.rest, ts1.rest, ts.rest);
                                            },
                                            _ => {},
                                        }
                                    }
                                },
                                _ => {},
                            }
                        },
                        StreamNext::Tok(t2, ts2) => {
                            lemma_class_suffix(ts_return(ts2, t2), (fuel - 1) as nat);
                            match sp_class(ts_return(ts2, t2), (fuel - 1) as nat) {
                                ClassOut::Done(items, ts4) => {
                                    lemma_suffix_trans(ts4.rest, ts2.rest, ts1.rest);
                                    lemma_suffix_trans(ts4.rest, ts1.rest, ts.rest);
                                },
                                _ => {},
                            }
                        },
                        StreamNext::Unterminated(_) => {},
                    }
                },
                _ => {},
            },
            StreamNext::Unterminated(_) => {},
        }
    }
}

/// Parsing reads only a prefix of the input: every character of the scanner
/// state it leaves behind stood, unread and in order, at the end of the input
/// it was given. In particular, once a terminator ends the expression —
/// consumed only to form the `End` token, which stays available to the caller
/// — nothing after it has been read.
pub proof fn lemma_parse_reads_only_a_prefix(ts: TsView)
    ensures
        match spec_parse(ts) {
            SpOut::Done(a, ts2) => is_suffix_of(ts2.rest, ts.rest),
            _ => true,
        },
{
    lemma_union_suffix(ts, union_fuel(ts));
}

/// Parsing is a function of the scanner's state alone: two parses from equal
/// states yield equal results, so parsing the same input twice yields
/// structurally equal trees.
pub proof fn lemma_parse_deterministic(ts1: TsView, ts2: TsView)
    requires
        ts1 == ts2,
    ensures
        spec_parse(ts1) == spec_parse(ts2),
{
}

} // verus!
