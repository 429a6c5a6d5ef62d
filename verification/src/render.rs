//! Rendering a tree back to source text: the concatenation, in order, of
//! every token's leading trivia, text, and trailing trivia.  Because the
//! tree keeps all trivia, rendering an untouched tree reproduces the
//! original text exactly.

use vstd::prelude::*;
use crate::ast::{
    Block, BlockView, CallView, Expression, ExpressionView, FieldView,
    FunctionArgsView, FunctionBody, FunctionBodyView, IndexView, PairView,
    ParameterView, Prefix, PrefixView, Stmt, StmtView, Suffix, SuffixView, Token, TokenReference,
    TokenReferenceView, TokenView, Var, VarView,
};

verus! {

/// The text of a trivia list.
pub open spec fn spec_render_tokens(ts: Seq<TokenView>) -> Seq<char>
    decreases ts.len(),
{
    if ts.len() == 0 {
        Seq::empty()
    } else {
        ts[0].text + spec_render_tokens(ts.drop_first())
    }
}

/// The text of a token with its surrounding trivia.
pub open spec fn spec_render_token_ref(tr: TokenReferenceView) -> Seq<char> {
    spec_render_tokens(tr.leading) + tr.token.text + spec_render_tokens(tr.trailing)
}

/// The text of an optional token.
pub open spec fn spec_render_opt_token(o: Option<TokenReferenceView>) -> Seq<char> {
    match o {
        Some(t) => spec_render_token_ref(t),
        None => Seq::empty(),
    }
}

/// The text of an expression.
pub open spec fn spec_render_exp(e: ExpressionView) -> Seq<char>
    decreases e,
{
    match e {
        ExpressionView::Number(t) => spec_render_token_ref(t),
        ExpressionView::Str(t) => spec_render_token_ref(t),
        ExpressionView::Symbol(t) => spec_render_token_ref(t),
        ExpressionView::BinaryOperator { lhs, binop, rhs } => spec_render_exp(*lhs)
            + spec_render_token_ref(binop) + spec_render_exp(*rhs),
        ExpressionView::Other(ts) => spec_render_tokens(ts),
    }
}

/// The text of a punctuated expression list.
pub open spec fn spec_render_exp_pairs(s: Seq<PairView<ExpressionView>>) -> Seq<char>
    decreases s.len(),
{
    if s.len() == 0 {
        Seq::empty()
    } else {
        spec_render_exp(s[0].value) + spec_render_opt_token(s[0].punctuation)
            + spec_render_exp_pairs(s.drop_first())
    }
}

/// The text of a punctuated name list.
pub open spec fn spec_render_name_pairs(s: Seq<PairView<TokenReferenceView>>) -> Seq<char>
    decreases s.len(),
{
    if s.len() == 0 {
        Seq::empty()
    } else {
        spec_render_token_ref(s[0].value) + spec_render_opt_token(s[0].punctuation)
            + spec_render_name_pairs(s.drop_first())
    }
}

/// The text of a table field.
pub open spec fn spec_render_field(f: FieldView) -> Seq<char> {
    match f {
        FieldView::ExpressionKey { brackets, key, equal, value } => spec_render_token_ref(
            brackets.start,
        ) + spec_render_exp(key) + spec_render_token_ref(brackets.end) + spec_render_token_ref(
            equal,
        ) + spec_render_exp(value),
        FieldView::NameKey { key, equal, value } => spec_render_token_ref(key)
            + spec_render_token_ref(equal) + spec_render_exp(value),
        FieldView::NoKey(e) => spec_render_exp(e),
    }
}

/// The text of a punctuated field list.
pub open spec fn spec_render_field_pairs(s: Seq<PairView<FieldView>>) -> Seq<char>
    decreases s.len(),
{
    if s.len() == 0 {
        Seq::empty()
    } else {
        spec_render_field(s[0].value) + spec_render_opt_token(s[0].punctuation)
            + spec_render_field_pairs(s.drop_first())
    }
}

/// The text of call arguments.
pub open spec fn spec_render_args(a: FunctionArgsView) -> Seq<char> {
    match a {
        FunctionArgsView::Parentheses { parentheses, arguments } => spec_render_token_ref(
            parentheses.start,
        ) + spec_render_exp_pairs(arguments) + spec_render_token_ref(parentheses.end),
        FunctionArgsView::TableConstructor(tc) => spec_render_token_ref(tc.braces.start)
            + spec_render_field_pairs(tc.fields) + spec_render_token_ref(tc.braces.end),
        FunctionArgsView::Str(t) => spec_render_token_ref(t),
    }
}

/// The text of a suffix.
pub open spec fn spec_render_suffix(s: SuffixView) -> Seq<char> {
    match s {
        SuffixView::Call(CallView::AnonymousCall(a)) => spec_render_args(a),
        SuffixView::Call(CallView::MethodCall { colon, name, args }) => spec_render_token_ref(
            colon,
        ) + spec_render_token_ref(name) + spec_render_args(args),
        SuffixView::Index(IndexView::Brackets { brackets, expression }) => spec_render_token_ref(
            brackets.start,
        ) + spec_render_exp(expression) + spec_render_token_ref(brackets.end),
        SuffixView::Index(IndexView::Dot { dot, name }) => spec_render_token_ref(dot)
            + spec_render_token_ref(name),
    }
}

/// The text of a suffix chain.
pub open spec fn spec_render_suffixes(ss: Seq<SuffixView>) -> Seq<char>
    decreases ss.len(),
{
    if ss.len() == 0 {
        Seq::empty()
    } else {
        spec_render_suffix(ss[0]) + spec_render_suffixes(ss.drop_first())
    }
}

/// The text of a prefix.
pub open spec fn spec_render_prefix(p: PrefixView) -> Seq<char> {
    match p {
        PrefixView::Name(t) => spec_render_token_ref(t),
        PrefixView::Expression(e) => spec_render_exp(*e),
    }
}

/// The text of an assignment target.
pub open spec fn spec_render_var(v: VarView) -> Seq<char> {
    match v {
        VarView::Name(t) => spec_render_token_ref(t),
        VarView::Expression(ve) => spec_render_prefix(ve.prefix) + spec_render_suffixes(
            ve.suffixes,
        ),
    }
}

/// The text of a punctuated target list.
pub open spec fn spec_render_var_pairs(s: Seq<PairView<VarView>>) -> Seq<char>
    decreases s.len(),
{
    if s.len() == 0 {
        Seq::empty()
    } else {
        spec_render_var(s[0].value) + spec_render_opt_token(s[0].punctuation)
            + spec_render_var_pairs(s.drop_first())
    }
}

/// The text of a parameter.
pub open spec fn spec_render_param(p: ParameterView) -> Seq<char> {
    match p {
        ParameterView::Ellipsis(t) => spec_render_token_ref(t),
        ParameterView::Name(t) => spec_render_token_ref(t),
    }
}

/// The text of a punctuated parameter list.
pub open spec fn spec_render_param_pairs(s: Seq<PairView<ParameterView>>) -> Seq<char>
    decreases s.len(),
{
    if s.len() == 0 {
        Seq::empty()
    } else {
        spec_render_param(s[0].value) + spec_render_opt_token(s[0].punctuation)
            + spec_render_param_pairs(s.drop_first())
    }
}

/// The text of a function body.
pub open spec fn spec_render_body(fb: FunctionBodyView) -> Seq<char>
    decreases fb,
{
    spec_render_token_ref(fb.parameters_parentheses.start) + spec_render_param_pairs(fb.parameters)
        + spec_render_token_ref(fb.parameters_parentheses.end) + spec_render_block(fb.block)
        + spec_render_token_ref(fb.end_token)
}

/// The text of a statement.
pub open spec fn spec_render_stmt(s: StmtView) -> Seq<char>
    decreases s,
{
    match s {
        StmtView::LocalAssignment(x) => spec_render_token_ref(x.local_token)
            + spec_render_name_pairs(x.names) + spec_render_opt_token(x.equal_token)
            + spec_render_exp_pairs(x.expressions),
        StmtView::Assignment(x) => spec_render_var_pairs(x.variables) + spec_render_token_ref(
            x.equal_token,
        ) + spec_render_exp_pairs(x.expressions),
        StmtView::LocalFunction(x) => spec_render_token_ref(x.local_token)
            + spec_render_token_ref(x.function_token) + spec_render_token_ref(x.name)
            + spec_render_body(x.body),
        StmtView::FunctionDeclaration(x) => spec_render_token_ref(x.function_token)
            + spec_render_tokens(x.name) + spec_render_body(x.body),
        StmtView::FunctionCall(x) => spec_render_prefix(x.prefix) + spec_render_suffixes(
            x.suffixes,
        ),
        StmtView::Other(ts) => spec_render_tokens(ts),
    }
}

/// The text of a statement list with its terminators.
pub open spec fn spec_render_stmt_pairs(s: Seq<(StmtView, Option<TokenReferenceView>)>) -> Seq<
    char,
>
    decreases s,
{
    if s.len() == 0 {
        Seq::empty()
    } else {
        spec_render_stmt(s[0].0) + spec_render_opt_token(s[0].1) + spec_render_stmt_pairs(
            s.drop_first(),
        )
    }
}

/// The text of a block.
pub open spec fn spec_render_block(b: BlockView) -> Seq<char>
    decreases b,
{
    spec_render_stmt_pairs(b.stmts) + spec_render_tokens(b.last_tokens)
}

/// Appends the text of a trivia list.
fn render_tokens_into(out: &mut String, ts: &Vec<Token>)
    ensures
        final(out)@ == old(out)@ + spec_render_tokens(crate::ast::tokens_view(ts@)),
{
    let ghost base = out@;
    let ghost tv = crate::ast::tokens_view(ts@);
    let mut i: usize = 0;
    while i < ts.len()
        invariant
            i <= ts@.len(),
            tv == crate::ast::tokens_view(ts@),
            tv.len() == ts@.len(),
            out@ == base + spec_render_tokens(tv.take(i as int)),
        decreases ts@.len() - i,
    {
        out.append(ts[i].text.as_str());
        proof {
            lemma_render_tokens_snoc(tv.take(i as int), tv[i as int]);
            assert(tv.take(i + 1) =~= tv.take(i as int).push(tv[i as int]));
            assert(out@ =~= base + spec_render_tokens(tv.take(i + 1)));
        }
        i = i + 1;
    }
    proof {
        assert(tv.take(tv.len() as int) =~= tv);
    }
}

/// Appending a token appends its text.
proof fn lemma_render_tokens_snoc(s: Seq<TokenView>, t: TokenView)
    ensures
        spec_render_tokens(s.push(t)) == spec_render_tokens(s) + t.text,
    decreases s.len(),
{
    if s.len() == 0 {
        assert(s.push(t)[0] == t);
        assert(s.push(t).drop_first() =~= s);
        assert(spec_render_tokens(s.push(t)) =~= spec_render_tokens(s) + t.text);
    } else {
        assert(s.push(t)[0] == s[0]);
        assert(s.push(t).drop_first() =~= s.drop_first().push(t));
        lemma_render_tokens_snoc(s.drop_first(), t);
        assert(spec_render_tokens(s.push(t)) =~= spec_render_tokens(s) + t.text);
    }
}

/// Appends the text of a token with its trivia.
fn render_token_ref_into(out: &mut String, tr: &TokenReference)
    ensures
        final(out)@ == old(out)@ + spec_render_token_ref(tr@),
{
    let ghost base = out@;
    render_tokens_into(out, &tr.leading);
    out.append(tr.token.text.as_str());
    render_tokens_into(out, &tr.trailing);
    proof {
        assert(out@ =~= base + spec_render_token_ref(tr@));
    }
}

/// Appends the text of an optional token.
fn render_opt_token_into(out: &mut String, o: &Option<TokenReference>)
    ensures
        final(out)@ == old(out)@ + spec_render_opt_token(crate::ast::opt_token_view(*o)),
{
    let ghost base = out@;
    match o {
        Some(t) => {
            render_token_ref_into(out, t);
        },
        None => {
            proof {
                assert(out@ =~= base + spec_render_opt_token(crate::ast::opt_token_view(*o)));
            }
        },
    }
}

/// Appends the text of an expression.
fn render_exp_into(out: &mut String, e: &Expression)
    ensures
        final(out)@ == old(out)@ + spec_render_exp(e@),
    decreases *e,
{
    let ghost base = out@;
    match e {
        Expression::Number(t) => render_token_ref_into(out, t),
        Expression::Str(t) => render_token_ref_into(out, t),
        Expression::Symbol(t) => render_token_ref_into(out, t),
        Expression::BinaryOperator { lhs, binop, rhs } => {
            render_exp_into(out, lhs);
            render_token_ref_into(out, binop);
            render_exp_into(out, rhs);
            proof {
                assert(out@ =~= base + spec_render_exp(e@));
            }
        },
        Expression::Other(ts) => render_tokens_into(out, ts),
    }
}

/// Appending an item appends its text and its separator's.
proof fn lemma_render_exp_pairs_snoc(s: Seq<PairView<ExpressionView>>, p: PairView<ExpressionView>)
    ensures
        spec_render_exp_pairs(s.push(p)) == spec_render_exp_pairs(s) + (spec_render_exp(p.value)
            + spec_render_opt_token(p.punctuation)),
    decreases s.len(),
{
    if s.len() == 0 {
        assert(s.push(p)[0] == p);
        assert(s.push(p).drop_first() =~= s);
        assert(spec_render_exp_pairs(s.push(p)) =~= spec_render_exp_pairs(s) + (spec_render_exp(
            p.value,
        ) + spec_render_opt_token(p.punctuation)));
    } else {
        assert(s.push(p)[0] == s[0]);
        assert(s.push(p).drop_first() =~= s.drop_first().push(p));
        lemma_render_exp_pairs_snoc(s.drop_first(), p);
        assert(spec_render_exp_pairs(s.push(p)) =~= spec_render_exp_pairs(s) + (spec_render_exp(
            p.value,
        ) + spec_render_opt_token(p.punctuation)));
    }
}

/// Appending a name appends its text and its separator's.
proof fn lemma_render_name_pairs_snoc(
    s: Seq<PairView<TokenReferenceView>>,
    p: PairView<TokenReferenceView>,
)
    ensures
        spec_render_name_pairs(s.push(p)) == spec_render_name_pairs(s) + (spec_render_token_ref(
            p.value,
        ) + spec_render_opt_token(p.punctuation)),
    decreases s.len(),
{
    if s.len() == 0 {
        assert(s.push(p)[0] == p);
        assert(s.push(p).drop_first() =~= s);
        assert(spec_render_name_pairs(s.push(p)) =~= spec_render_name_pairs(s) + (
        spec_render_token_ref(p.value) + spec_render_opt_token(p.punctuation)));
    } else {
        assert(s.push(p)[0] == s[0]);
        assert(s.push(p).drop_first() =~= s.drop_first().push(p));
        lemma_render_name_pairs_snoc(s.drop_first(), p);
        assert(spec_render_name_pairs(s.push(p)) =~= spec_render_name_pairs(s) + (
        spec_render_token_ref(p.value) + spec_render_opt_token(p.punctuation)));
    }
}

/// Appending a field appends its text and its separator's.
proof fn lemma_render_field_pairs_snoc(s: Seq<PairView<FieldView>>, p: PairView<FieldView>)
    ensures
        spec_render_field_pairs(s.push(p)) == spec_render_field_pairs(s) + (spec_render_field(
            p.value,
        ) + spec_render_opt_token(p.punctuation)),
    decreases s.len(),
{
    if s.len() == 0 {
        assert(s.push(p)[0] == p);
        assert(s.push(p).drop_first() =~= s);
        assert(spec_render_field_pairs(s.push(p)) =~= spec_render_field_pairs(s) + (
        spec_render_field(p.value) + spec_render_opt_token(p.punctuation)));
    } else {
        assert(s.push(p)[0] == s[0]);
        assert(s.push(p).drop_first() =~= s.drop_first().push(p));
        lemma_render_field_pairs_snoc(s.drop_first(), p);
        assert(spec_render_field_pairs(s.push(p)) =~= spec_render_field_pairs(s) + (
        spec_render_field(p.value) + spec_render_opt_token(p.punctuation)));
    }
}

/// Appending a target appends its text and its separator's.
proof fn lemma_render_var_pairs_snoc(s: Seq<PairView<VarView>>, p: PairView<VarView>)
    ensures
        spec_render_var_pairs(s.push(p)) == spec_render_var_pairs(s) + (spec_render_var(p.value)
            + spec_render_opt_token(p.punctuation)),
    decreases s.len(),
{
    if s.len() == 0 {
        assert(s.push(p)[0] == p);
        assert(s.push(p).drop_first() =~= s);
        assert(spec_render_var_pairs(s.push(p)) =~= spec_render_var_pairs(s) + (spec_render_var(
            p.value,
        ) + spec_render_opt_token(p.punctuation)));
    } else {
        assert(s.push(p)[0] == s[0]);
        assert(s.push(p).drop_first() =~= s.drop_first().push(p));
        lemma_render_var_pairs_snoc(s.drop_first(), p);
        assert(spec_render_var_pairs(s.push(p)) =~= spec_render_var_pairs(s) + (spec_render_var(
            p.value,
        ) + spec_render_opt_token(p.punctuation)));
    }
}

/// Appending a parameter appends its text and its separator's.
proof fn lemma_render_param_pairs_snoc(s: Seq<PairView<ParameterView>>, p: PairView<ParameterView>)
    ensures
        spec_render_param_pairs(s.push(p)) == spec_render_param_pairs(s) + (spec_render_param(
            p.value,
        ) + spec_render_opt_token(p.punctuation)),
    decreases s.len(),
{
    if s.len() == 0 {
        assert(s.push(p)[0] == p);
        assert(s.push(p).drop_first() =~= s);
        assert(spec_render_param_pairs(s.push(p)) =~= spec_render_param_pairs(s) + (
        spec_render_param(p.value) + spec_render_opt_token(p.punctuation)));
    } else {
        assert(s.push(p)[0] == s[0]);
        assert(s.push(p).drop_first() =~= s.drop_first().push(p));
        lemma_render_param_pairs_snoc(s.drop_first(), p);
        assert(spec_render_param_pairs(s.push(p)) =~= spec_render_param_pairs(s) + (
        spec_render_param(p.value) + spec_render_opt_token(p.punctuation)));
    }
}

/// Appending a suffix appends its text.
proof fn lemma_render_suffixes_snoc(s: Seq<SuffixView>, x: SuffixView)
    ensures
        spec_render_suffixes(s.push(x)) == spec_render_suffixes(s) + spec_render_suffix(x),
    decreases s.len(),
{
    if s.len() == 0 {
        assert(s.push(x)[0] == x);
        assert(s.push(x).drop_first() =~= s);
        assert(spec_render_suffixes(s.push(x)) =~= spec_render_suffixes(s) + spec_render_suffix(
            x,
        ));
    } else {
        assert(s.push(x)[0] == s[0]);
        assert(s.push(x).drop_first() =~= s.drop_first().push(x));
        lemma_render_suffixes_snoc(s.drop_first(), x);
        assert(spec_render_suffixes(s.push(x)) =~= spec_render_suffixes(s) + spec_render_suffix(
            x,
        ));
    }
}

/// Appending a statement appends its text and its terminator's.
proof fn lemma_render_stmt_pairs_snoc(
    s: Seq<(StmtView, Option<TokenReferenceView>)>,
    p: (StmtView, Option<TokenReferenceView>),
)
    ensures
        spec_render_stmt_pairs(s.push(p)) == spec_render_stmt_pairs(s) + (spec_render_stmt(p.0)
            + spec_render_opt_token(p.1)),
    decreases s.len(),
{
    if s.len() == 0 {
        assert(s.push(p)[0] == p);
        assert(s.push(p).drop_first() =~= s);
        assert(spec_render_stmt_pairs(s.push(p)) =~= spec_render_stmt_pairs(s) + (
        spec_render_stmt(p.0) + spec_render_opt_token(p.1)));
    } else {
        assert(s.push(p)[0] == s[0]);
        assert(s.push(p).drop_first() =~= s.drop_first().push(p));
        lemma_render_stmt_pairs_snoc(s.drop_first(), p);
        assert(spec_render_stmt_pairs(s.push(p)) =~= spec_render_stmt_pairs(s) + (
        spec_render_stmt(p.0) + spec_render_opt_token(p.1)));
    }
}

/// Appends the text of a punctuated expression list.
fn render_exp_pairs_into(out: &mut String, s: &crate::ast::Punctuated<Expression>)
    ensures
        final(out)@ == old(out)@ + spec_render_exp_pairs(s@),
{
    let ghost base = out@;
    let mut i: usize = 0;
    while i < s.pairs.len()
        invariant
            i <= s.pairs@.len(),
            s@.len() == s.pairs@.len(),
            out@ == base + spec_render_exp_pairs(s@.take(i as int)),
        decreases s.pairs@.len() - i,
    {
        let pair = &s.pairs[i];
        render_exp_into(out, &pair.value);
        render_opt_token_into(out, &pair.punctuation);
        proof {
            lemma_render_exp_pairs_snoc(s@.take(i as int), s@[i as int]);
            assert(s@.take(i + 1) =~= s@.take(i as int).push(s@[i as int]));
            assert(out@ =~= base + spec_render_exp_pairs(s@.take(i + 1)));
        }
        i = i + 1;
    }
    proof {
        assert(s@.take(s@.len() as int) =~= s@);
    }
}

/// Appends the text of a punctuated name list.
fn render_name_pairs_into(out: &mut String, s: &crate::ast::Punctuated<TokenReference>)
    ensures
        final(out)@ == old(out)@ + spec_render_name_pairs(s@),
{
    let ghost base = out@;
    let mut i: usize = 0;
    while i < s.pairs.len()
        invariant
            i <= s.pairs@.len(),
            s@.len() == s.pairs@.len(),
            out@ == base + spec_render_name_pairs(s@.take(i as int)),
        decreases s.pairs@.len() - i,
    {
        let pair = &s.pairs[i];
        render_token_ref_into(out, &pair.value);
        render_opt_token_into(out, &pair.punctuation);
        proof {
            lemma_render_name_pairs_snoc(s@.take(i as int), s@[i as int]);
            assert(s@.take(i + 1) =~= s@.take(i as int).push(s@[i as int]));
            assert(out@ =~= base + spec_render_name_pairs(s@.take(i + 1)));
        }
        i = i + 1;
    }
    proof {
        assert(s@.take(s@.len() as int) =~= s@);
    }
}

/// Appends the text of a table field.
fn render_field_into(out: &mut String, f: &crate::ast::Field)
    ensures
        final(out)@ == old(out)@ + spec_render_field(f@),
{
    let ghost base = out@;
    match f {
        crate::ast::Field::ExpressionKey { brackets, key, equal, value } => {
            render_token_ref_into(out, &brackets.start);
            render_exp_into(out, key);
            render_token_ref_into(out, &brackets.end);
            render_token_ref_into(out, equal);
            render_exp_into(out, value);
            proof {
                assert(out@ =~= base + spec_render_field(f@));
            }
        },
        crate::ast::Field::NameKey { key, equal, value } => {
            render_token_ref_into(out, key);
            render_token_ref_into(out, equal);
            render_exp_into(out, value);
            proof {
                assert(out@ =~= base + spec_render_field(f@));
            }
        },
        crate::ast::Field::NoKey(e) => {
            render_exp_into(out, e);
        },
    }
}

/// Appends the text of a punctuated field list.
fn render_field_pairs_into(out: &mut String, s: &crate::ast::Punctuated<crate::ast::Field>)
    ensures
        final(out)@ == old(out)@ + spec_render_field_pairs(s@),
{
    let ghost base = out@;
    let mut i: usize = 0;
    while i < s.pairs.len()
        invariant
            i <= s.pairs@.len(),
            s@.len() == s.pairs@.len(),
            out@ == base + spec_render_field_pairs(s@.take(i as int)),
        decreases s.pairs@.len() - i,
    {
        let pair = &s.pairs[i];
        render_field_into(out, &pair.value);
        render_opt_token_into(out, &pair.punctuation);
        proof {
            lemma_render_field_pairs_snoc(s@.take(i as int), s@[i as int]);
            assert(s@.take(i + 1) =~= s@.take(i as int).push(s@[i as int]));
            assert(out@ =~= base + spec_render_field_pairs(s@.take(i + 1)));
        }
        i = i + 1;
    }
    proof {
        assert(s@.take(s@.len() as int) =~= s@);
    }
}

/// Appends the text of call arguments.
fn render_args_into(out: &mut String, a: &crate::ast::FunctionArgs)
    ensures
        final(out)@ == old(out)@ + spec_render_args(a@),
{
    let ghost base = out@;
    match a {
        crate::ast::FunctionArgs::Parentheses { parentheses, arguments } => {
            render_token_ref_into(out, &parentheses.start);
            render_exp_pairs_into(out, arguments);
            render_token_ref_into(out, &parentheses.end);
            proof {
                assert(out@ =~= base + spec_render_args(a@));
            }
        },
        crate::ast::FunctionArgs::TableConstructor(tc) => {
            render_token_ref_into(out, &tc.braces.start);
            render_field_pairs_into(out, &tc.fields);
            render_token_ref_into(out, &tc.braces.end);
            proof {
                assert(out@ =~= base + spec_render_args(a@));
            }
        },
        crate::ast::FunctionArgs::Str(t) => {
            render_token_ref_into(out, t);
        },
    }
}

/// Appends the text of a suffix.
fn render_suffix_into(out: &mut String, s: &Suffix)
    ensures
        final(out)@ == old(out)@ + spec_render_suffix(s@),
{
    let ghost base = out@;
    match s {
        Suffix::Call(crate::ast::Call::AnonymousCall(a)) => {
            render_args_into(out, a);
        },
        Suffix::Call(crate::ast::Call::MethodCall { colon, name, args }) => {
            render_token_ref_into(out, colon);
            render_token_ref_into(out, name);
            render_args_into(out, args);
            proof {
                assert(out@ =~= base + spec_render_suffix(s@));
            }
        },
        Suffix::Index(crate::ast::Index::Brackets { brackets, expression }) => {
            render_token_ref_into(out, &brackets.start);
            render_exp_into(out, expression);
            render_token_ref_into(out, &brackets.end);
            proof {
                assert(out@ =~= base + spec_render_suffix(s@));
            }
        },
        Suffix::Index(crate::ast::Index::Dot { dot, name }) => {
            render_token_ref_into(out, dot);
            render_token_ref_into(out, name);
            proof {
                assert(out@ =~= base + spec_render_suffix(s@));
            }
        },
    }
}

/// Appends the text of a suffix chain.
fn render_suffixes_into(out: &mut String, ss: &Vec<Suffix>)
    ensures
        final(out)@ == old(out)@ + spec_render_suffixes(crate::ast::suffixes_view(ss@)),
{
    let ghost base = out@;
    let ghost sv = crate::ast::suffixes_view(ss@);
    let mut i: usize = 0;
    while i < ss.len()
        invariant
            i <= ss@.len(),
            sv == crate::ast::suffixes_view(ss@),
            sv.len() == ss@.len(),
            out@ == base + spec_render_suffixes(sv.take(i as int)),
        decreases ss@.len() - i,
    {
        render_suffix_into(out, &ss[i]);
        proof {
            lemma_render_suffixes_snoc(sv.take(i as int), sv[i as int]);
            assert(sv.take(i + 1) =~= sv.take(i as int).push(sv[i as int]));
            assert(out@ =~= base + spec_render_suffixes(sv.take(i + 1)));
        }
        i = i + 1;
    }
    proof {
        assert(sv.take(sv.len() as int) =~= sv);
    }
}

/// Appends the text of a prefix.
fn render_prefix_into(out: &mut String, p: &Prefix)
    ensures
        final(out)@ == old(out)@ + spec_render_prefix(p@),
{
    match p {
        Prefix::Name(t) => render_token_ref_into(out, t),
        Prefix::Expression(e) => render_exp_into(out, e),
    }
}

/// Appends the text of an assignment target.
fn render_var_into(out: &mut String, v: &Var)
    ensures
        final(out)@ == old(out)@ + spec_render_var(v@),
{
    let ghost base = out@;
    match v {
        Var::Name(t) => render_token_ref_into(out, t),
        Var::Expression(ve) => {
            render_prefix_into(out, &ve.prefix);
            render_suffixes_into(out, &ve.suffixes);
            proof {
                assert(out@ =~= base + spec_render_var(v@));
            }
        },
    }
}

/// Appends the text of a punctuated target list.
fn render_var_pairs_into(out: &mut String, s: &crate::ast::Punctuated<Var>)
    ensures
        final(out)@ == old(out)@ + spec_render_var_pairs(s@),
{
    let ghost base = out@;
    let mut i: usize = 0;
    while i < s.pairs.len()
        invariant
            i <= s.pairs@.len(),
            s@.len() == s.pairs@.len(),
            out@ == base + spec_render_var_pairs(s@.take(i as int)),
        decreases s.pairs@.len() - i,
    {
        let pair = &s.pairs[i];
        render_var_into(out, &pair.value);
        render_opt_token_into(out, &pair.punctuation);
        proof {
            lemma_render_var_pairs_snoc(s@.take(i as int), s@[i as int]);
            assert(s@.take(i + 1) =~= s@.take(i as int).push(s@[i as int]));
            assert(out@ =~= base + spec_render_var_pairs(s@.take(i + 1)));
        }
        i = i + 1;
    }
    proof {
        assert(s@.take(s@.len() as int) =~= s@);
    }
}

/// Appends the text of a punctuated parameter list.
fn render_param_pairs_into(out: &mut String, s: &crate::ast::Punctuated<crate::ast::Parameter>)
    ensures
        final(out)@ == old(out)@ + spec_render_param_pairs(s@),
{
    let ghost base = out@;
    let mut i: usize = 0;
    while i < s.pairs.len()
        invariant
            i <= s.pairs@.len(),
            s@.len() == s.pairs@.len(),
            out@ == base + spec_render_param_pairs(s@.take(i as int)),
        decreases s.pairs@.len() - i,
    {
        let pair = &s.pairs[i];
        match &pair.value {
            crate::ast::Parameter::Ellipsis(t) => render_token_ref_into(out, t),
            crate::ast::Parameter::Name(t) => render_token_ref_into(out, t),
        }
        render_opt_token_into(out, &pair.punctuation);
        proof {
            lemma_render_param_pairs_snoc(s@.take(i as int), s@[i as int]);
            assert(s@.take(i + 1) =~= s@.take(i as int).push(s@[i as int]));
            assert(out@ =~= base + spec_render_param_pairs(s@.take(i + 1)));
        }
        i = i + 1;
    }
    proof {
        assert(s@.take(s@.len() as int) =~= s@);
    }
}

/// Appends the text of a function body.
fn render_body_into(out: &mut String, fb: &FunctionBody)
    ensures
        final(out)@ == old(out)@ + spec_render_body(fb@),
    decreases *fb,
{
    let ghost base = out@;
    render_token_ref_into(out, &fb.parameters_parentheses.start);
    render_param_pairs_into(out, &fb.parameters);
    render_token_ref_into(out, &fb.parameters_parentheses.end);
    render_block_into(out, &fb.block);
    render_token_ref_into(out, &fb.end_token);
    proof {
        assert(out@ =~= base + spec_render_body(fb@));
    }
}

/// Appends the text of a statement.
fn render_stmt_into(out: &mut String, s: &Stmt)
    ensures
        final(out)@ == old(out)@ + spec_render_stmt(s@),
    decreases *s,
{
    let ghost base = out@;
    match s {
        Stmt::LocalAssignment(x) => {
            render_token_ref_into(out, &x.local_token);
            render_name_pairs_into(out, &x.names);
            render_opt_token_into(out, &x.equal_token);
            render_exp_pairs_into(out, &x.expressions);
            proof {
                assert(out@ =~= base + spec_render_stmt(s@));
            }
        },
        Stmt::Assignment(x) => {
            render_var_pairs_into(out, &x.variables);
            render_token_ref_into(out, &x.equal_token);
            render_exp_pairs_into(out, &x.expressions);
            proof {
                assert(out@ =~= base + spec_render_stmt(s@));
            }
        },
        Stmt::LocalFunction(x) => {
            render_token_ref_into(out, &x.local_token);
            render_token_ref_into(out, &x.function_token);
            render_token_ref_into(out, &x.name);
            render_body_into(out, &x.body);
            proof {
                assert(out@ =~= base + spec_render_stmt(s@));
            }
        },
        Stmt::FunctionDeclaration(x) => {
            render_token_ref_into(out, &x.function_token);
            render_tokens_into(out, &x.name);
            render_body_into(out, &x.body);
            proof {
                assert(out@ =~= base + spec_render_stmt(s@));
            }
        },
        Stmt::FunctionCall(x) => {
            render_prefix_into(out, &x.prefix);
            render_suffixes_into(out, &x.suffixes);
            proof {
                assert(out@ =~= base + spec_render_stmt(s@));
            }
        },
        Stmt::Other(ts) => {
            render_tokens_into(out, ts);
        },
    }
}

/// Appends the text of a block.
fn render_block_into(out: &mut String, b: &Block)
    ensures
        final(out)@ == old(out)@ + spec_render_block(b@),
    decreases *b,
{
    let ghost base = out@;
    let ghost vv = b@.stmts;
    proof {
        crate::ast::lemma_stmt_pairs_view_index(b.stmts@);
    }
    let mut i: usize = 0;
    while i < b.stmts.len()
        invariant
            i <= b.stmts@.len(),
            vv == b@.stmts,
            vv.len() == b.stmts@.len(),
            forall|k: int|
                0 <= k < vv.len() ==> vv[k] == (
                    crate::ast::stmt_view(#[trigger] b.stmts@[k].0),
                    crate::ast::opt_token_view(b.stmts@[k].1),
                ),
            out@ == base + spec_render_stmt_pairs(vv.take(i as int)),
        decreases b.stmts@.len() - i,
    {
        let pair = &b.stmts[i];
        render_stmt_into(out, &pair.0);
        render_opt_token_into(out, &pair.1);
        proof {
            lemma_render_stmt_pairs_snoc(vv.take(i as int), vv[i as int]);
            assert(vv.take(i + 1) =~= vv.take(i as int).push(vv[i as int]));
            assert(out@ =~= base + spec_render_stmt_pairs(vv.take(i + 1)));
        }
        i = i + 1;
    }
    proof {
        assert(vv.take(vv.len() as int) =~= vv);
    }
    render_tokens_into(out, &b.last_tokens);
    proof {
        assert(out@ =~= base + spec_render_block(b@));
    }
}

/// The text of a block: every statement with its trivia and terminators,
/// then the trailing raw-token statement, if any.
pub fn render_block(block: &Block) -> (r: String)
    ensures
        r@ == spec_render_block(block@),
{
    let mut out = String::new();
    render_block_into(&mut out, block);
    proof {
        assert(out@ =~= spec_render_block(block@));
    }
    out
}

} // verus!
