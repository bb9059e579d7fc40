//! The abstract syntax tree a parsed regular expression becomes, and the
//! mathematical values the contracts speak of.

use vstd::prelude::*;

verus! {

/// One element inside a character class, kept exactly as written: either a
/// literal run of individual member characters or an inclusive range.
#[derive(Debug, PartialEq, Eq)]
pub enum ClassItem {
    Singles(String),
    Range(char, char),
}

/// The mathematical value of a `ClassItem`.
pub enum ClassItemView {
    Singles(Seq<char>),
    Range(char, char),
}

impl View for ClassItem {
    type V = ClassItemView;

    open spec fn view(&self) -> ClassItemView {
        match self {
            ClassItem::Singles(s) => ClassItemView::Singles(s@),
            ClassItem::Range(lo, hi) => ClassItemView::Range(*lo, *hi),
        }
    }
}

/// The mathematical values of a sequence of class items, in order.
pub open spec fn class_views(items: Seq<ClassItem>) -> Seq<ClassItemView> {
    items.map_values(|item: ClassItem| item@)
}

/// The parse result: a strict tree whose shape mirrors operator nesting as
/// written, with alternation and concatenation as right-leaning binary chains.
/// `Epsilon` is the empty expression, reserved for a downstream compiler; the
/// grammar itself never produces it.
#[derive(Debug, PartialEq, Eq)]
pub enum Ast {
    Symbol(String),
    Literal(String),
    Union(Box<Ast>, Box<Ast>),
    Concat(Box<Ast>, Box<Ast>),
    Star(Box<Ast>),
    OnePlus(Box<Ast>),
    CharClass(Vec<ClassItem>),
    Epsilon,
}

/// The mathematical value of an `Ast`.
pub enum AstView {
    Symbol(Seq<char>),
    Literal(Seq<char>),
    Union(Box<AstView>, Box<AstView>),
    Concat(Box<AstView>, Box<AstView>),
    Star(Box<AstView>),
    OnePlus(Box<AstView>),
    CharClass(Seq<ClassItemView>),
    Epsilon,
}

/// The mathematical value of a tree, node by node.
pub open spec fn ast_view(a: Ast) -> AstView
    decreases a,
{
    match a {
        Ast::Symbol(s) => AstView::Symbol(s@),
        Ast::Literal(s) => AstView::Literal(s@),
        Ast::Union(l, r) => AstView::Union(Box::new(ast_view(*l)), Box::new(ast_view(*r))),
        Ast::Concat(l, r) => AstView::Concat(Box::new(ast_view(*l)), Box::new(ast_view(*r))),
        Ast::Star(inner) => AstView::Star(Box::new(ast_view(*inner))),
        Ast::OnePlus(inner) => AstView::OnePlus(Box::new(ast_view(*inner))),
        Ast::CharClass(items) => AstView::CharClass(class_views(items@)),
        Ast::Epsilon => AstView::Epsilon,
    }
}

impl View for Ast {
    type V = AstView;

    open spec fn view(&self) -> AstView {
        ast_view(*self)
    }
}

} // verus!
