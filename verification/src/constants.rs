//! The fixed tokens the rewrite inserts: separators, the equals sign, the
//! implicit-nil literal, and the `local` keyword of a combined declaration.

use vstd::prelude::*;
use crate::ast::{
    Expression, ExpressionView, Token, TokenKind, TokenReference, TokenReferenceView, TokenView,
};

verus! {

/// The separator of a combined name or expression list.
pub open spec fn comma_view() -> TokenReferenceView {
    TokenReferenceView::symbol(","@)
}

/// The statement terminator.
pub open spec fn semicolon_view() -> TokenReferenceView {
    TokenReferenceView::symbol(";"@)
}

/// The equals sign of a combined statement, carrying no trivia.
pub open spec fn eq_view() -> TokenReferenceView {
    TokenReferenceView::symbol("="@)
}

/// The implicit-nil literal that pads an omitted initializer.
pub open spec fn nil_expression_view() -> ExpressionView {
    ExpressionView::Symbol(TokenReferenceView::symbol("nil"@))
}

/// The `local` keyword of a combined declaration, followed by one space.
pub open spec fn local_token_view() -> TokenReferenceView {
    TokenReferenceView {
        leading: Seq::empty(),
        token: TokenView { kind: TokenKind::Symbol, text: "local"@ },
        trailing: seq![TokenView::space()],
    }
}

/// The separator of a combined name or expression list.
pub fn comma() -> (r: TokenReference)
    ensures
        r@ == comma_view(),
{
    TokenReference::symbol(",")
}

/// The statement terminator.
pub fn semicolon() -> (r: TokenReference)
    ensures
        r@ == semicolon_view(),
{
    TokenReference::symbol(";")
}

/// The equals sign of a combined statement.
pub fn eq_token() -> (r: TokenReference)
    ensures
        r@ == eq_view(),
{
    TokenReference::symbol("=")
}

/// The implicit-nil literal.
pub fn nil_symbol() -> (r: Expression)
    ensures
        r@ == nil_expression_view(),
{
    Expression::Symbol(TokenReference::symbol("nil"))
}

/// The `local` keyword of a combined declaration.
pub fn local_token() -> (r: TokenReference)
    ensures
        r@ == local_token_view(),
{
    let mut trailing: Vec<Token> = Vec::new();
    trailing.push(Token::space());
    let r = TokenReference {
        leading: Vec::new(),
        token: Token { kind: TokenKind::Symbol, text: "local".to_owned() },
        trailing,
    };
    proof {
        assert(r@.leading =~= Seq::<TokenView>::empty());
        assert(r@.trailing =~= seq![TokenView::space()]);
    }
    r
}

} // verus!
