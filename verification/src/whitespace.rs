//! The trivia trimmer: strips whitespace-class trivia from tokens and from
//! every composite construct the rewrite looks into, and re-inserts a single
//! separating space where two adjacent tokens would otherwise merge.
//!
//! All trimming is specified over the ghost tree model; re-running any
//! trimmer on an already-trimmed node changes nothing further (see the
//! idempotence lemmas at the end of the module).

use vstd::prelude::*;
use crate::ast::{
    Call, CallView, ContainedSpan, ContainedSpanView, Expression, ExpressionView, FieldView,
    FunctionArgsView, Index, IndexView, PairView, ParameterView, Prefix, PrefixView, Suffix, SuffixView,
    TableConstructorView, Token, TokenKind, TokenReference, TokenReferenceView, TokenView,
    duplicate_tokens, tokens_view,
};
use crate::constants::comma_view;
use crate::punctuator::spec_punctuate_name;

verus! {

/// Whether a token survives trivia trimming.
pub open spec fn keep_token(t: TokenView) -> bool {
    !t.is_whitespace()
}

/// A trivia list with every whitespace entry removed.
pub open spec fn spec_trim_tokens(s: Seq<TokenView>) -> Seq<TokenView> {
    s.filter(|t: TokenView| keep_token(t))
}

/// The empty symbol token a whitespace token is replaced with.
pub open spec fn empty_symbol() -> TokenReferenceView {
    TokenReferenceView::symbol(Seq::empty())
}

/// A token with whitespace removed from both trivia lists; a token that is
/// itself whitespace collapses to the empty symbol.
pub open spec fn spec_trim(tr: TokenReferenceView) -> TokenReferenceView {
    if tr.token.is_whitespace() {
        empty_symbol()
    } else {
        TokenReferenceView {
            leading: spec_trim_tokens(tr.leading),
            token: tr.token,
            trailing: spec_trim_tokens(tr.trailing),
        }
    }
}

/// A token with whitespace removed from its leading trivia only.
pub open spec fn spec_trim_leading(tr: TokenReferenceView) -> TokenReferenceView {
    if tr.token.is_whitespace() {
        empty_symbol()
    } else {
        TokenReferenceView {
            leading: spec_trim_tokens(tr.leading),
            token: tr.token,
            trailing: tr.trailing,
        }
    }
}

/// Both enclosing tokens of a span, trimmed.
pub open spec fn spec_trim_cspan(cs: ContainedSpanView) -> ContainedSpanView {
    ContainedSpanView { start: spec_trim(cs.start), end: spec_trim(cs.end) }
}

/// What one token of a raw run contributes to the trimmed run: a
/// significant token is kept; of a run of whitespace tokens only the last
/// remains, as the single separating space that keeps the neighbouring
/// tokens from merging.
pub open spec fn spec_collapse_at(ts: Seq<TokenView>, i: int) -> Seq<TokenView> {
    if !ts[i].is_whitespace() {
        seq![ts[i]]
    } else if i + 1 == ts.len() || !ts[i + 1].is_whitespace() {
        seq![TokenView::space()]
    } else {
        Seq::empty()
    }
}

/// The trimmed prefix of a raw run: the contributions of its first `k`
/// tokens, in order.
pub open spec fn spec_collapse_upto(ts: Seq<TokenView>, k: int) -> Seq<TokenView>
    decreases k,
{
    if k <= 0 {
        Seq::empty()
    } else {
        spec_collapse_upto(ts, k - 1) + spec_collapse_at(ts, k - 1)
    }
}

/// The trivia-trim pass over a raw token run: every maximal run of
/// whitespace tokens collapses to one single space, so the significant
/// tokens keep their order and separation while no two whitespace entries
/// remain adjacent.
pub open spec fn spec_collapse_whitespace(ts: Seq<TokenView>) -> Seq<TokenView> {
    spec_collapse_upto(ts, ts.len() as int)
}

/// An expression with its atoms, binary operator, and both operands
/// trimmed.  Expressions carried as raw token runs get the raw-run trivia
/// trim.
pub open spec fn spec_trim_exp(e: ExpressionView) -> ExpressionView
    decreases e,
{
    match e {
        ExpressionView::Number(t) => ExpressionView::Number(spec_trim(t)),
        ExpressionView::Str(t) => ExpressionView::Str(spec_trim(t)),
        ExpressionView::Symbol(t) => ExpressionView::Symbol(spec_trim(t)),
        ExpressionView::BinaryOperator { lhs, binop, rhs } => ExpressionView::BinaryOperator {
            lhs: Box::new(spec_trim_exp(*lhs)),
            binop: spec_trim(binop),
            rhs: Box::new(spec_trim_exp(*rhs)),
        },
        ExpressionView::Other(ts) => ExpressionView::Other(spec_collapse_whitespace(ts)),
    }
}

/// A prefix with its name or expression trimmed.
pub open spec fn spec_trim_prefix(p: PrefixView) -> PrefixView {
    match p {
        PrefixView::Name(t) => PrefixView::Name(spec_trim(t)),
        PrefixView::Expression(e) => PrefixView::Expression(Box::new(spec_trim_exp(*e))),
    }
}

/// A parameter with its token trimmed.
pub open spec fn spec_trim_parameter(p: ParameterView) -> ParameterView {
    match p {
        ParameterView::Ellipsis(t) => ParameterView::Ellipsis(spec_trim(t)),
        ParameterView::Name(t) => ParameterView::Name(spec_trim(t)),
    }
}

/// A table field with its key, equals token surroundings, and value trimmed.
/// Positional fields pass through unchanged.
pub open spec fn spec_trim_field(f: FieldView) -> FieldView {
    match f {
        FieldView::ExpressionKey { brackets, key, equal, value } => FieldView::ExpressionKey {
            brackets: spec_trim_cspan(brackets),
            key: spec_trim_exp(key),
            equal: equal,
            value: spec_trim_exp(value),
        },
        FieldView::NameKey { key, equal, value } => FieldView::NameKey {
            key: spec_trim(key),
            equal: equal,
            value: spec_trim_exp(value),
        },
        FieldView::NoKey(e) => FieldView::NoKey(e),
    }
}

/// Call arguments with every argument or field trimmed and the list
/// re-punctuated with bare commas.  String-literal arguments pass through
/// unchanged.
pub open spec fn spec_minify_function_args(a: FunctionArgsView) -> FunctionArgsView {
    match a {
        FunctionArgsView::Parentheses { parentheses, arguments } => FunctionArgsView::Parentheses {
            parentheses: spec_trim_cspan(parentheses),
            arguments: spec_punctuate_name(
                arguments.map_values(|p: PairView<ExpressionView>| spec_trim_exp(p.value)),
                comma_view(),
            ),
        },
        FunctionArgsView::TableConstructor(tc) => FunctionArgsView::TableConstructor(
            TableConstructorView {
                braces: tc.braces,
                fields: spec_punctuate_name(
                    tc.fields.map_values(|p: PairView<FieldView>| spec_trim_field(p.value)),
                    comma_view(),
                ),
            },
        ),
        FunctionArgsView::Str(t) => FunctionArgsView::Str(t),
    }
}

/// A suffix with its call arguments or bracketed index trimmed.  Dot
/// indexes pass through unchanged.
pub open spec fn spec_trim_suffix(s: SuffixView) -> SuffixView {
    match s {
        SuffixView::Call(CallView::AnonymousCall(a)) => SuffixView::Call(
            CallView::AnonymousCall(spec_minify_function_args(a)),
        ),
        SuffixView::Call(CallView::MethodCall { colon, name, args }) => SuffixView::Call(
            CallView::MethodCall { colon: colon, name: name, args: spec_minify_function_args(args) },
        ),
        SuffixView::Index(IndexView::Brackets { brackets, expression }) => SuffixView::Index(
            IndexView::Brackets {
                brackets: spec_trim_cspan(brackets),
                expression: spec_trim_exp(expression),
            },
        ),
        SuffixView::Index(IndexView::Dot { dot, name }) => SuffixView::Index(
            IndexView::Dot { dot: dot, name: name },
        ),
    }
}

/// Every suffix of a chain, trimmed.
pub open spec fn spec_trim_suffixes(ss: Seq<SuffixView>) -> Seq<SuffixView> {
    ss.map_values(|s: SuffixView| spec_trim_suffix(s))
}

/// A token with a single space appended to its leading trivia, its trailing
/// trivia, or both — the separator re-inserted where lexical adjacency would
/// otherwise merge two tokens.
pub open spec fn spec_append(tr: TokenReferenceView, leading: bool, trailing: bool) -> TokenReferenceView {
    TokenReferenceView {
        leading: if leading {
            tr.leading.push(TokenView::space())
        } else {
            tr.leading
        },
        token: tr.token,
        trailing: if trailing {
            seq![TokenView::space()] + tr.trailing
        } else {
            tr.trailing
        },
    }
}

/// Removes every whitespace token from a trivia list.
pub fn trim_token(tokens: &Vec<Token>) -> (r: Vec<Token>)
    ensures
        tokens_view(r@) == spec_trim_tokens(tokens_view(tokens@)),
{
    let mut out: Vec<Token> = Vec::new();
    let mut i: usize = 0;
    while i < tokens.len()
        invariant
            i <= tokens.len(),
            tokens_view(out@) == spec_trim_tokens(tokens_view(tokens@.subrange(0, i as int))),
        decreases tokens.len() - i,
    {
        let ghost prefix = tokens_view(tokens@.subrange(0, i as int));
        let ghost t = tokens@[i as int]@;
        if !matches!(tokens[i].kind, TokenKind::Whitespace) {
            out.push(tokens[i].duplicate());
        }
        proof {
            assert(tokens_view(tokens@.subrange(0, i + 1)) =~= prefix.push(t));
            lemma_trim_tokens_push(prefix, t);
            if !t.is_whitespace() {
                assert(tokens_view(out@) =~= spec_trim_tokens(prefix.push(t)));
            } else {
                assert(tokens_view(out@) =~= spec_trim_tokens(prefix.push(t)));
            }
        }
        i = i + 1;
    }
    proof {
        assert(tokens@.subrange(0, tokens@.len() as int) =~= tokens@);
    }
    out
}

/// The trivia-trim pass over a raw token run: every maximal run of
/// whitespace tokens collapses to one single space.
pub fn collapse_whitespace(tokens: &Vec<Token>) -> (r: Vec<Token>)
    ensures
        tokens_view(r@) == spec_collapse_whitespace(tokens_view(tokens@)),
{
    let ghost tv = tokens_view(tokens@);
    let mut out: Vec<Token> = Vec::new();
    let mut i: usize = 0;
    while i < tokens.len()
        invariant
            i <= tokens@.len(),
            tv == tokens_view(tokens@),
            tv.len() == tokens@.len(),
            tokens_view(out@) =~= spec_collapse_upto(tv, i as int),
        decreases tokens@.len() - i,
    {
        if !matches!(tokens[i].kind, TokenKind::Whitespace) {
            out.push(tokens[i].duplicate());
        } else if i + 1 == tokens.len() || !matches!(
            tokens[i + 1].kind,
            TokenKind::Whitespace,
        ) {
            out.push(Token::space());
        }
        proof {
            assert(tokens_view(out@) =~= spec_collapse_upto(tv, i + 1));
        }
        i = i + 1;
    }
    out
}

/// Trims whitespace from a token's leading trivia, leaving its trailing
/// trivia as it stands.
pub fn trim_leading(token_ref: &TokenReference) -> (r: TokenReference)
    ensures
        r@ == spec_trim_leading(token_ref@),
{
    if matches!(token_ref.token.kind, TokenKind::Whitespace) {
        let r = TokenReference::symbol("");
        proof {
            reveal_strlit("");
            assert(""@ =~= Seq::<char>::empty());
        }
        r
    } else {
        TokenReference {
            leading: trim_token(&token_ref.leading),
            token: token_ref.token.duplicate(),
            trailing: duplicate_tokens(&token_ref.trailing),
        }
    }
}

/// Trims whitespace from both trivia lists of a token.
pub fn trim(token_ref: &TokenReference) -> (r: TokenReference)
    ensures
        r@ == spec_trim(token_ref@),
{
    if matches!(token_ref.token.kind, TokenKind::Whitespace) {
        let r = TokenReference::symbol("");
        proof {
            reveal_strlit("");
            assert(""@ =~= Seq::<char>::empty());
        }
        r
    } else {
        TokenReference {
            leading: trim_token(&token_ref.leading),
            token: token_ref.token.duplicate(),
            trailing: trim_token(&token_ref.trailing),
        }
    }
}

/// Trims both enclosing tokens of a span.
pub fn trim_cspan(c_span: &ContainedSpan) -> (r: ContainedSpan)
    ensures
        r@ == spec_trim_cspan(c_span@),
{
    ContainedSpan { start: trim(&c_span.start), end: trim(&c_span.end) }
}

/// Trims an expression: its atoms, and the operator and both operands of a
/// binary operation.
pub fn trim_exp(exp: &Expression) -> (r: Expression)
    ensures
        r@ == spec_trim_exp(exp@),
    decreases *exp,
{
    match exp {
        Expression::Number(t) => Expression::Number(trim(t)),
        Expression::Str(t) => Expression::Str(trim(t)),
        Expression::Symbol(t) => Expression::Symbol(trim(t)),
        Expression::BinaryOperator { lhs, binop, rhs } => Expression::BinaryOperator {
            lhs: Box::new(trim_exp(lhs)),
            binop: trim(binop),
            rhs: Box::new(trim_exp(rhs)),
        },
        Expression::Other(ts) => Expression::Other(collapse_whitespace(ts)),
    }
}

/// Trims a prefix.
pub fn trim_prefix(prefix: &Prefix) -> (r: Prefix)
    ensures
        r@ == spec_trim_prefix(prefix@),
{
    match prefix {
        Prefix::Expression(e) => Prefix::Expression(Box::new(trim_exp(e))),
        Prefix::Name(t) => Prefix::Name(trim(t)),
    }
}

/// Trims a suffix: call arguments through the run's argument trimmer, a
/// bracketed index through the expression trimmer; dot indexes pass through
/// unchanged.
pub fn trim_suffix(minifier: &crate::minifier::Minifier, suffix: &Suffix) -> (r: Suffix)
    ensures
        r@ == spec_trim_suffix(suffix@),
{
    match suffix {
        Suffix::Call(Call::AnonymousCall(args)) => Suffix::Call(
            Call::AnonymousCall(minifier.minify_function_args(args)),
        ),
        Suffix::Call(Call::MethodCall { colon, name, args }) => Suffix::Call(
            Call::MethodCall {
                colon: colon.duplicate(),
                name: name.duplicate(),
                args: minifier.minify_function_args(args),
            },
        ),
        Suffix::Index(Index::Brackets { brackets, expression }) => Suffix::Index(
            Index::Brackets { brackets: trim_cspan(brackets), expression: trim_exp(expression) },
        ),
        Suffix::Index(Index::Dot { dot, name }) => Suffix::Index(
            Index::Dot { dot: dot.duplicate(), name: name.duplicate() },
        ),
    }
}

/// Appends a single separating space to the chosen trivia lists of a token.
pub fn append(token_ref: &TokenReference, leading: bool, trailing: bool) -> (r: TokenReference)
    ensures
        r@ == spec_append(token_ref@, leading, trailing),
{
    let mut leading_trivia = duplicate_tokens(&token_ref.leading);
    let mut trailing_trivia = duplicate_tokens(&token_ref.trailing);
    if leading {
        leading_trivia.push(Token::space());
        proof {
            assert(tokens_view(leading_trivia@) =~= token_ref@.leading.push(TokenView::space()));
        }
    }
    if trailing {
        trailing_trivia.insert(0, Token::space());
        proof {
            assert(tokens_view(trailing_trivia@) =~= seq![TokenView::space()]
                + token_ref@.trailing);
        }
    }
    TokenReference {
        leading: leading_trivia,
        token: token_ref.token.duplicate(),
        trailing: trailing_trivia,
    }
}

/// Filtering a trivia list one token at a time: the filtered list grows by
/// the token exactly when the token is not whitespace.
pub proof fn lemma_trim_tokens_push(s: Seq<TokenView>, t: TokenView)
    ensures
        spec_trim_tokens(s.push(t)) == spec_trim_tokens(s) + (if keep_token(t) {
            seq![t]
        } else {
            Seq::<TokenView>::empty()
        }),
{
    reveal(Seq::filter);
    let pred = |x: TokenView| keep_token(x);
    assert(s.push(t).drop_last() =~= s);
    if pred(t) {
        assert(spec_trim_tokens(s.push(t)) =~= spec_trim_tokens(s) + seq![t]);
    } else {
        assert(spec_trim_tokens(s.push(t)) =~= spec_trim_tokens(s) + Seq::<TokenView>::empty());
    }
}

/// A list every token of which should be kept is unchanged by filtering.
pub proof fn lemma_trim_tokens_noop(s: Seq<TokenView>)
    requires
        forall|i: int| 0 <= i < s.len() ==> keep_token(#[trigger] s[i]),
    ensures
        spec_trim_tokens(s) == s,
    decreases s.len(),
{
    reveal(Seq::filter);
    if s.len() > 0 {
        lemma_trim_tokens_noop(s.drop_last());
        assert(spec_trim_tokens(s) =~= s);
    } else {
        assert(spec_trim_tokens(s) =~= s);
    }
}

/// Trivia trimming is idempotent on trivia lists.
pub proof fn lemma_trim_tokens_idempotent(s: Seq<TokenView>)
    ensures
        spec_trim_tokens(spec_trim_tokens(s)) == spec_trim_tokens(s),
{
    let pred = |x: TokenView| keep_token(x);
    assert forall|i: int| 0 <= i < spec_trim_tokens(s).len() implies keep_token(
        #[trigger] spec_trim_tokens(s)[i],
    ) by {
        s.lemma_filter_pred(pred, i);
    }
    lemma_trim_tokens_noop(spec_trim_tokens(s));
}

/// Trivia trimming is idempotent on tokens.
pub proof fn lemma_trim_idempotent(tr: TokenReferenceView)
    ensures
        spec_trim(spec_trim(tr)) == spec_trim(tr),
{
    if tr.token.is_whitespace() {
        reveal(Seq::filter);
        assert(spec_trim(empty_symbol()) =~= empty_symbol());
    } else {
        lemma_trim_tokens_idempotent(tr.leading);
        lemma_trim_tokens_idempotent(tr.trailing);
    }
}

/// Leading-trivia trimming is idempotent on tokens.
pub proof fn lemma_trim_leading_idempotent(tr: TokenReferenceView)
    ensures
        spec_trim_leading(spec_trim_leading(tr)) == spec_trim_leading(tr),
{
    if tr.token.is_whitespace() {
        reveal(Seq::filter);
        assert(spec_trim_leading(empty_symbol()) =~= empty_symbol());
    } else {
        lemma_trim_tokens_idempotent(tr.leading);
    }
}

/// Trivia trimming is idempotent on enclosing spans.
pub proof fn lemma_trim_cspan_idempotent(cs: ContainedSpanView)
    ensures
        spec_trim_cspan(spec_trim_cspan(cs)) == spec_trim_cspan(cs),
{
    lemma_trim_idempotent(cs.start);
    lemma_trim_idempotent(cs.end);
}

/// The shape of a trimmed raw run: every whitespace entry is a single
/// space, no two whitespace entries are adjacent, and a trailing whitespace
/// entry only stands where the untrimmed run ends in whitespace.
proof fn lemma_collapse_shape(ts: Seq<TokenView>, k: int)
    requires
        0 <= k <= ts.len(),
    ensures
        forall|j: int|
            0 <= j < spec_collapse_upto(ts, k).len() && (#[trigger] spec_collapse_upto(ts, k)[j]).is_whitespace()
                ==> spec_collapse_upto(ts, k)[j] == TokenView::space(),
        forall|j: int|
            0 <= j < spec_collapse_upto(ts, k).len() - 1 && (#[trigger] spec_collapse_upto(ts, k)[j]).is_whitespace()
                ==> !spec_collapse_upto(ts, k)[j + 1].is_whitespace(),
        spec_collapse_upto(ts, k).len() > 0 && spec_collapse_upto(ts, k).last().is_whitespace()
            ==> (k == ts.len() || !ts[k].is_whitespace()),
    decreases k,
{
    if k > 0 {
        lemma_collapse_shape(ts, k - 1);
        let prev = spec_collapse_upto(ts, k - 1);
        let cur = spec_collapse_upto(ts, k);
        assert(cur =~= prev + spec_collapse_at(ts, k - 1));
    }
}

/// The raw-run trivia trim is idempotent: a run with no adjacent
/// whitespace, whose whitespace entries are all single spaces, collapses to
/// itself.
pub proof fn lemma_collapse_whitespace_idempotent(ts: Seq<TokenView>)
    ensures
        spec_collapse_whitespace(spec_collapse_whitespace(ts)) == spec_collapse_whitespace(ts),
{
    lemma_collapse_shape(ts, ts.len() as int);
    let o = spec_collapse_whitespace(ts);
    assert forall|k: int| 0 <= k <= o.len() implies spec_collapse_upto(o, k) =~= o.take(k) by {
        lemma_collapse_take(o, k);
    }
    assert(spec_collapse_upto(o, o.len() as int) =~= o.take(o.len() as int));
    assert(o.take(o.len() as int) =~= o);
}

/// Collapsing a run that is already in trimmed shape keeps each prefix.
proof fn lemma_collapse_take(o: Seq<TokenView>, k: int)
    requires
        0 <= k <= o.len(),
        forall|j: int|
            0 <= j < o.len() && (#[trigger] o[j]).is_whitespace() ==> o[j] == TokenView::space(),
        forall|j: int|
            0 <= j < o.len() - 1 && (#[trigger] o[j]).is_whitespace() ==> !o[j + 1].is_whitespace(),
    ensures
        spec_collapse_upto(o, k) =~= o.take(k),
    decreases k,
{
    if k > 0 {
        lemma_collapse_take(o, k - 1);
        assert(spec_collapse_at(o, k - 1) =~= seq![o[k - 1]]);
    }
}

/// Trivia trimming is idempotent on expressions.
pub proof fn lemma_trim_exp_idempotent(e: ExpressionView)
    ensures
        spec_trim_exp(spec_trim_exp(e)) == spec_trim_exp(e),
    decreases e,
{
    match e {
        ExpressionView::Number(t) => lemma_trim_idempotent(t),
        ExpressionView::Str(t) => lemma_trim_idempotent(t),
        ExpressionView::Symbol(t) => lemma_trim_idempotent(t),
        ExpressionView::BinaryOperator { lhs, binop, rhs } => {
            lemma_trim_exp_idempotent(*lhs);
            lemma_trim_idempotent(binop);
            lemma_trim_exp_idempotent(*rhs);
        },
        ExpressionView::Other(ts) => {
            lemma_collapse_whitespace_idempotent(ts);
        },
    }
}

/// Trivia trimming is idempotent on prefixes.
pub proof fn lemma_trim_prefix_idempotent(p: PrefixView)
    ensures
        spec_trim_prefix(spec_trim_prefix(p)) == spec_trim_prefix(p),
{
    match p {
        PrefixView::Name(t) => lemma_trim_idempotent(t),
        PrefixView::Expression(e) => lemma_trim_exp_idempotent(*e),
    }
}

/// Trivia trimming is idempotent on parameters.
pub proof fn lemma_trim_parameter_idempotent(p: ParameterView)
    ensures
        spec_trim_parameter(spec_trim_parameter(p)) == spec_trim_parameter(p),
{
    match p {
        ParameterView::Ellipsis(t) => lemma_trim_idempotent(t),
        ParameterView::Name(t) => lemma_trim_idempotent(t),
    }
}

/// Trivia trimming is idempotent on table fields.
pub proof fn lemma_trim_field_idempotent(f: FieldView)
    ensures
        spec_trim_field(spec_trim_field(f)) == spec_trim_field(f),
{
    match f {
        FieldView::ExpressionKey { brackets, key, equal, value } => {
            lemma_trim_cspan_idempotent(brackets);
            lemma_trim_exp_idempotent(key);
            lemma_trim_exp_idempotent(value);
        },
        FieldView::NameKey { key, equal, value } => {
            lemma_trim_idempotent(key);
            lemma_trim_exp_idempotent(value);
        },
        FieldView::NoKey(_) => {},
    }
}

/// Trimming call arguments is idempotent.
pub proof fn lemma_minify_function_args_idempotent(a: FunctionArgsView)
    ensures
        spec_minify_function_args(spec_minify_function_args(a)) == spec_minify_function_args(a),
{
    match a {
        FunctionArgsView::Parentheses { parentheses, arguments } => {
            lemma_trim_cspan_idempotent(parentheses);
            let items = arguments.map_values(
                |p: PairView<ExpressionView>| spec_trim_exp(p.value),
            );
            let once = spec_punctuate_name(items, comma_view());
            let items2 = once.map_values(|p: PairView<ExpressionView>| spec_trim_exp(p.value));
            assert forall|i: int| 0 <= i < items2.len() implies items2[i] == items[i] by {
                lemma_trim_exp_idempotent(arguments[i].value);
            }
            assert(items2 =~= items);
        },
        FunctionArgsView::TableConstructor(tc) => {
            let items = tc.fields.map_values(|p: PairView<FieldView>| spec_trim_field(p.value));
            let once = spec_punctuate_name(items, comma_view());
            let items2 = once.map_values(|p: PairView<FieldView>| spec_trim_field(p.value));
            assert forall|i: int| 0 <= i < items2.len() implies items2[i] == items[i] by {
                lemma_trim_field_idempotent(tc.fields[i].value);
            }
            assert(items2 =~= items);
        },
        FunctionArgsView::Str(_) => {},
    }
}

/// Trimming a suffix is idempotent.
pub proof fn lemma_trim_suffix_idempotent(s: SuffixView)
    ensures
        spec_trim_suffix(spec_trim_suffix(s)) == spec_trim_suffix(s),
{
    match s {
        SuffixView::Call(CallView::AnonymousCall(a)) => {
            lemma_minify_function_args_idempotent(a);
        },
        SuffixView::Call(CallView::MethodCall { colon, name, args }) => {
            lemma_minify_function_args_idempotent(args);
        },
        SuffixView::Index(IndexView::Brackets { brackets, expression }) => {
            lemma_trim_cspan_idempotent(brackets);
            lemma_trim_exp_idempotent(expression);
        },
        SuffixView::Index(IndexView::Dot { .. }) => {},
    }
}

/// Trimming a suffix chain is idempotent.
pub proof fn lemma_trim_suffixes_idempotent(ss: Seq<SuffixView>)
    ensures
        spec_trim_suffixes(spec_trim_suffixes(ss)) == spec_trim_suffixes(ss),
{
    assert forall|i: int| 0 <= i < ss.len() implies spec_trim_suffixes(spec_trim_suffixes(ss))[i]
        == spec_trim_suffixes(ss)[i] by {
        lemma_trim_suffix_idempotent(ss[i]);
    }
    assert(spec_trim_suffixes(spec_trim_suffixes(ss)) =~= spec_trim_suffixes(ss));
}

} // verus!
