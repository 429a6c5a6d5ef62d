//! The block rewriter: walks a block's statements in order, trims every
//! construct, coalesces the block's local declarations into one combined
//! declaration and its plain assignments into one combined assignment (both
//! placed at the front of the rewritten block), renames global assignment
//! targets, and recurses into nested function bodies bottom-up.
//!
//! The whole rewrite is specified by `spec_minify_block`, a pure function
//! over the ghost tree model threading the name map through the traversal in
//! source order.

use vstd::prelude::*;
use crate::ast::{
    Assignment, AssignmentView, Block, BlockView, Expression, ExpressionView, Field, FunctionArgs,
    FunctionBody, FunctionBodyView, FunctionCall, FunctionCallView,
    FunctionDeclaration, FunctionDeclarationView, LocalAssignment, LocalAssignmentView,
    LocalFunction, LocalFunctionView, Pair, PairView, Parameter, ParameterView, Punctuated, Stmt,
    StmtView, Suffix, TokenKind, TokenReference, TokenReferenceView, Var, VarExpression,
    VarExpressionView, VarView, duplicate_tokens, lemma_stmt_pairs_view_cons,
    lemma_stmt_pairs_view_index, lemma_stmt_pairs_view_push, stmt_pairs_view, stmt_view,
    suffixes_view,
};
use crate::constants::{
    comma, comma_view, eq_token, eq_view, local_token, local_token_view, nil_expression_view,
    nil_symbol, semicolon, semicolon_view,
};
use crate::punctuator::{
    pair_values, punctuate_exp, punctuate_name, spec_punctuate_name,
};
use crate::utils::{
    NameMap, generate_shortest_names, key_index, lemma_key_index_fresh, spec_next_name,
};
use crate::whitespace::{
    append, spec_append, spec_minify_function_args, spec_trim, spec_trim_cspan, spec_trim_exp,
    spec_trim_field, spec_trim_leading, spec_trim_parameter, spec_trim_prefix, spec_trim_suffix,
    spec_collapse_whitespace, spec_trim_suffixes, collapse_whitespace, trim, trim_cspan,
    trim_exp, trim_leading, trim_prefix, trim_suffix,
};

verus! {

/// Ghost model of a [`Minifier`]: the source text it was created for and
/// the global names registered so far, in registration order.
pub ghost struct MinifierView {
    pub code: Seq<char>,
    pub names: Seq<Seq<char>>,
}

/// One transformation run: the source text and the run-local map of global
/// names.  The map is created empty and owned by the run.
pub struct Minifier {
    code: String,
    global_names: NameMap,
}

impl View for Minifier {
    type V = MinifierView;

    closed spec fn view(&self) -> MinifierView {
        MinifierView { code: self.code@, names: self.global_names@ }
    }
}

impl Minifier {
    /// A fresh run for the given source text, with no names registered.
    pub fn new(code: &str) -> (r: Self)
        ensures
            r@.code == code@,
            r@.names =~= Seq::<Seq<char>>::empty(),
    {
        Minifier { code: code.to_owned(), global_names: NameMap::new() }
    }

    /// Trims every argument of a call: each expression or table field is
    /// trimmed and the list is re-punctuated with bare commas.
    pub fn minify_function_args(&self, function_args: &FunctionArgs) -> (r: FunctionArgs)
        ensures
            r@ == spec_minify_function_args(function_args@),
    {
        match function_args {
            FunctionArgs::Parentheses { parentheses, arguments } => {
                let mut new_args: Punctuated<Expression> = Punctuated::new();
                let mut i: usize = 0;
                while i < arguments.pairs.len()
                    invariant
                        i <= arguments.pairs@.len(),
                        new_args@.len() == i as int,
                        forall|j: int|
                            0 <= j < i ==> (#[trigger] new_args@[j]).value == spec_trim_exp(
                                arguments@[j].value,
                            ),
                    decreases arguments.pairs@.len() - i,
                {
                    let arg = &arguments.pairs[i];
                    new_args.push(Pair { value: trim_exp(&arg.value), punctuation: None });
                    i = i + 1;
                }
                proof {
                    assert(pair_values(new_args@) =~= arguments@.map_values(
                        |p: PairView<ExpressionView>| spec_trim_exp(p.value),
                    ));
                }
                let new_args = punctuate_name(new_args, &comma());
                FunctionArgs::Parentheses {
                    parentheses: trim_cspan(parentheses),
                    arguments: new_args,
                }
            },
            FunctionArgs::TableConstructor(x) => {
                let mut new_fields: Punctuated<Field> = Punctuated::new();
                let mut i: usize = 0;
                while i < x.fields.pairs.len()
                    invariant
                        i <= x.fields.pairs@.len(),
                        new_fields@.len() == i as int,
                        forall|j: int|
                            0 <= j < i ==> (#[trigger] new_fields@[j]).value == spec_trim_field(
                                x.fields@[j].value,
                            ),
                    decreases x.fields.pairs@.len() - i,
                {
                    let field = &x.fields.pairs[i];
                    let new_field: Field = match &field.value {
                        Field::ExpressionKey { brackets, key, equal, value } => Field::ExpressionKey {
                            brackets: trim_cspan(brackets),
                            key: trim_exp(key),
                            equal: equal.duplicate(),
                            value: trim_exp(value),
                        },
                        Field::NameKey { key, equal, value } => Field::NameKey {
                            key: crate::whitespace::trim(key),
                            equal: equal.duplicate(),
                            value: trim_exp(value),
                        },
                        Field::NoKey(e) => Field::NoKey(e.duplicate()),
                    };
                    new_fields.push(Pair { value: new_field, punctuation: None });
                    i = i + 1;
                }
                proof {
                    assert(pair_values(new_fields@) =~= x.fields@.map_values(
                        |p: PairView<crate::ast::FieldView>| spec_trim_field(p.value),
                    ));
                }
                let new_fields = punctuate_name(new_fields, &comma());
                FunctionArgs::TableConstructor(
                    crate::ast::TableConstructor { braces: x.braces.duplicate(), fields: new_fields },
                )
            },
            FunctionArgs::Str(t) => FunctionArgs::Str(t.duplicate()),
        }
    }

    /// Rewrites the targets of one assignment in order, appending them to
    /// the combined target list: plain identifier targets are substituted
    /// by their minified names (registering new ones), all others are
    /// trimmed.
    fn rename_vars_into(&mut self, acc: &mut Punctuated<Var>, vars: &Punctuated<Var>)
        ensures
            final(self)@.code == old(self)@.code,
            final(self)@.names == spec_rename_vars(old(self)@.names, pair_values(vars@)).0,
            pair_values(final(acc)@) == pair_values(old(acc)@) + spec_rename_vars(
                old(self)@.names,
                pair_values(vars@),
            ).1,
    {
        let ghost names0 = self@.names;
        let ghost vals = pair_values(vars@);
        let ghost n0 = old(acc)@.len();
        let mut i: usize = 0;
        while i < vars.pairs.len()
            invariant
                i <= vars.pairs@.len(),
                vals.len() == vars.pairs@.len(),
                vals == pair_values(vars@),
                self@.code == old(self)@.code,
                self@.names == spec_rename_vars(names0, vals.take(i as int)).0,
                acc@.len() == n0 + i,
                forall|j: int| 0 <= j < n0 ==> acc@[j] == old(acc)@[j],
                forall|j: int|
                    n0 <= j < acc@.len() ==> (#[trigger] acc@[j]).value == spec_rename_vars(
                        names0,
                        vals.take(i as int),
                    ).1[j - n0],
            decreases vars.pairs@.len() - i,
        {
            let ghost names_i = self@.names;
            let var = &vars.pairs[i].value;
            match var {
                Var::Name(y) => {
                    if matches!(y.token.kind, TokenKind::Identifier) {
                        if !self.global_names.contains_key(&y.token.text) {
                            proof {
                                lemma_key_index_fresh(self.global_names@, y.token.text@);
                            }
                            generate_shortest_names(&mut self.global_names, y.token.text.clone());
                        }
                        let new_name = match self.global_names.get(&y.token.text) {
                            Some(s) => s,
                            None => {
                                proof {
                                    assert(false);
                                }
                                String::new()
                            },
                        };
                        acc.push(
                            Pair {
                                value: Var::Name(TokenReference::identifier(new_name.as_str())),
                                punctuation: None,
                            },
                        );
                    } else {
                        acc.push(Pair { value: Var::Name(trim(y)), punctuation: None });
                    }
                },
                Var::Expression(y) => {
                    let ve = VarExpression {
                        prefix: trim_prefix(&y.prefix),
                        suffixes: self.trim_suffix_list(&y.suffixes),
                    };
                    acc.push(Pair { value: Var::Expression(Box::new(ve)), punctuation: None });
                },
            }
            proof {
                assert(vals[i as int] == vars@[i as int].value);
                lemma_rename_vars_len(names0, vals.take(i as int));
                lemma_rename_vars_snoc(names0, vals.take(i as int), vals[i as int]);
                assert(vals.take(i + 1) =~= vals.take(i as int).push(vals[i as int]));
                assert(acc@.last().value == spec_rename_var(names_i, vals[i as int]).1);
                assert(self@.names == spec_rename_var(names_i, vals[i as int]).0);
            }
            i = i + 1;
        }
        proof {
            assert(vals.take(vals.len() as int) =~= vals);
            lemma_rename_vars_len(names0, vals);
            assert(pair_values(acc@) =~= pair_values(old(acc)@) + spec_rename_vars(
                names0,
                vals,
            ).1);
        }
    }

    /// Trims every suffix of a chain.
    fn trim_suffix_list(&self, suffixes: &Vec<Suffix>) -> (r: Vec<Suffix>)
        ensures
            suffixes_view(r@) == spec_trim_suffixes(suffixes_view(suffixes@)),
    {
        let mut out: Vec<Suffix> = Vec::new();
        let mut i: usize = 0;
        while i < suffixes.len()
            invariant
                i <= suffixes@.len(),
                out@.len() == i as int,
                forall|j: int|
                    0 <= j < i ==> (#[trigger] out@[j])@ == spec_trim_suffix(suffixes@[j]@),
            decreases suffixes@.len() - i,
        {
            out.push(trim_suffix(self, &suffixes[i]));
            i = i + 1;
        }
        proof {
            assert(suffixes_view(out@) =~= spec_trim_suffixes(suffixes_view(suffixes@)));
        }
        out
    }
}

/// The given number of implicit-nil literals, padding initializers a
/// declaration omitted.
pub open spec fn nil_fill(k: int) -> Seq<ExpressionView> {
    Seq::new(
        if k > 0 {
            k as nat
        } else {
            0
        },
        |i: int| nil_expression_view(),
    )
}

/// One assignment target, renamed or trimmed: a plain identifier target is
/// substituted by its minified name (registering it first if new, carrying
/// no trivia); any other target is trivia-trimmed.  Returns the name map
/// after the step and the rewritten target.
pub open spec fn spec_rename_var(names: Seq<Seq<char>>, v: VarView) -> (Seq<Seq<char>>, VarView) {
    match v {
        VarView::Name(t) => {
            if t.token.kind == TokenKind::Identifier {
                let key = t.token.text;
                if names.contains(key) {
                    (
                        names,
                        VarView::Name(
                            TokenReferenceView::identifier(
                                spec_next_name(key_index(names, key) as nat),
                            ),
                        ),
                    )
                } else {
                    (
                        names.push(key),
                        VarView::Name(
                            TokenReferenceView::identifier(spec_next_name(names.len())),
                        ),
                    )
                }
            } else {
                (names, VarView::Name(spec_trim(t)))
            }
        },
        VarView::Expression(ve) => (
            names,
            VarView::Expression(
                Box::new(
                    VarExpressionView {
                        prefix: spec_trim_prefix(ve.prefix),
                        suffixes: spec_trim_suffixes(ve.suffixes),
                    },
                ),
            ),
        ),
    }
}

/// Every target of an assignment, renamed or trimmed in order, threading
/// the name map left to right.
pub open spec fn spec_rename_vars(names: Seq<Seq<char>>, vs: Seq<VarView>) -> (
    Seq<Seq<char>>,
    Seq<VarView>,
)
    decreases vs.len(),
{
    if vs.len() == 0 {
        (names, Seq::empty())
    } else {
        let (n1, v1) = spec_rename_var(names, vs[0]);
        let (n2, vr) = spec_rename_vars(n1, vs.drop_first());
        (n2, seq![v1] + vr)
    }
}

/// Renaming yields one target per original target.
pub proof fn lemma_rename_vars_len(names: Seq<Seq<char>>, vs: Seq<VarView>)
    ensures
        spec_rename_vars(names, vs).1.len() == vs.len(),
    decreases vs.len(),
{
    if vs.len() > 0 {
        lemma_rename_vars_len(spec_rename_var(names, vs[0]).0, vs.drop_first());
    }
}

/// Renaming targets one at a time from the end.
pub proof fn lemma_rename_vars_snoc(names: Seq<Seq<char>>, vs: Seq<VarView>, v: VarView)
    ensures
        spec_rename_vars(names, vs.push(v)) == {
            let (n1, vs1) = spec_rename_vars(names, vs);
            let (n2, v2) = spec_rename_var(n1, v);
            (n2, vs1.push(v2))
        },
    decreases vs.len(),
{
    reveal_with_fuel(spec_rename_vars, 3);
    let (n1, vs1) = spec_rename_vars(names, vs);
    let (n2, v2) = spec_rename_var(n1, v);
    if vs.len() == 0 {
        assert(vs.push(v) =~= seq![v]);
        assert(vs.push(v).drop_first() =~= Seq::<VarView>::empty());
        assert(spec_rename_vars(names, vs.push(v)).1 =~= vs1.push(v2));
    } else {
        assert(vs.push(v)[0] == vs[0]);
        assert(vs.push(v).drop_first() =~= vs.drop_first().push(v));
        let (m1, w1) = spec_rename_var(names, vs[0]);
        lemma_rename_vars_snoc(m1, vs.drop_first(), v);
        assert(spec_rename_vars(names, vs.push(v)).1 =~= vs1.push(v2));
    }
}

/// Appends the trimmed names of one declaration to the combined name list.
fn push_trimmed_names(acc: &mut Punctuated<TokenReference>, names: &Punctuated<TokenReference>)
    ensures
        pair_values(final(acc)@) == pair_values(old(acc)@) + names@.map_values(
            |p: PairView<TokenReferenceView>| spec_trim(p.value),
        ),
{
    let ghost n0 = old(acc)@.len();
    let mut i: usize = 0;
    while i < names.pairs.len()
        invariant
            i <= names.pairs@.len(),
            acc@.len() == n0 + i,
            forall|j: int| 0 <= j < n0 ==> acc@[j] == old(acc)@[j],
            forall|j: int|
                n0 <= j < acc@.len() ==> (#[trigger] acc@[j]).value == spec_trim(
                    names@[j - n0].value,
                ),
        decreases names.pairs@.len() - i,
    {
        let name = &names.pairs[i];
        acc.push(Pair { value: trim(&name.value), punctuation: None });
        i = i + 1;
    }
    proof {
        assert(pair_values(acc@) =~= pair_values(old(acc)@) + names@.map_values(
            |p: PairView<TokenReferenceView>| spec_trim(p.value),
        ));
    }
}

/// Appends the trimmed initializers of one statement to the combined
/// expression list.
fn push_trimmed_exprs(acc: &mut Punctuated<Expression>, exprs: &Punctuated<Expression>)
    ensures
        pair_values(final(acc)@) == pair_values(old(acc)@) + exprs@.map_values(
            |p: PairView<ExpressionView>| spec_trim_exp(p.value),
        ),
{
    let ghost n0 = old(acc)@.len();
    let mut i: usize = 0;
    while i < exprs.pairs.len()
        invariant
            i <= exprs.pairs@.len(),
            acc@.len() == n0 + i,
            forall|j: int| 0 <= j < n0 ==> acc@[j] == old(acc)@[j],
            forall|j: int|
                n0 <= j < acc@.len() ==> (#[trigger] acc@[j]).value == spec_trim_exp(
                    exprs@[j - n0].value,
                ),
        decreases exprs.pairs@.len() - i,
    {
        let e = &exprs.pairs[i];
        acc.push(Pair { value: trim_exp(&e.value), punctuation: None });
        i = i + 1;
    }
    proof {
        assert(pair_values(acc@) =~= pair_values(old(acc)@) + exprs@.map_values(
            |p: PairView<ExpressionView>| spec_trim_exp(p.value),
        ));
    }
}

/// Pads the combined expression list with implicit-nil literals, one for
/// each name a declaration left uninitialized.
fn push_nils(acc: &mut Punctuated<Expression>, count: usize)
    ensures
        pair_values(final(acc)@) == pair_values(old(acc)@) + nil_fill(count as int),
{
    let ghost n0 = old(acc)@.len();
    let mut i: usize = 0;
    while i < count
        invariant
            i <= count,
            acc@.len() == n0 + i,
            forall|j: int| 0 <= j < n0 ==> acc@[j] == old(acc)@[j],
            forall|j: int|
                n0 <= j < acc@.len() ==> (#[trigger] acc@[j]).value == nil_expression_view(),
        decreases count - i,
    {
        acc.push(Pair { value: nil_symbol(), punctuation: None });
        i = i + 1;
    }
    proof {
        assert(pair_values(acc@) =~= pair_values(old(acc)@) + nil_fill(count as int));
    }
}

/// What one statement contributes to its block's rewrite: the name map
/// after it, the names and initializers it adds to the combined local
/// declaration, the targets and right-hand sides it adds to the combined
/// assignment, and the rewritten statements it keeps in place.
pub ghost struct ScanResult {
    pub names: Seq<Seq<char>>,
    pub local_names: Seq<TokenReferenceView>,
    pub local_exprs: Seq<ExpressionView>,
    pub global_vars: Seq<VarView>,
    pub global_exprs: Seq<ExpressionView>,
    pub rest: Seq<(StmtView, Option<TokenReferenceView>)>,
}

impl ScanResult {
    /// The contribution of nothing.
    pub open spec fn empty(names: Seq<Seq<char>>) -> ScanResult {
        ScanResult {
            names: names,
            local_names: Seq::empty(),
            local_exprs: Seq::empty(),
            global_vars: Seq::empty(),
            global_exprs: Seq::empty(),
            rest: Seq::empty(),
        }
    }

    /// Contributions of consecutive statements, in order.
    pub open spec fn followed_by(self, other: ScanResult) -> ScanResult {
        ScanResult {
            names: other.names,
            local_names: self.local_names + other.local_names,
            local_exprs: self.local_exprs + other.local_exprs,
            global_vars: self.global_vars + other.global_vars,
            global_exprs: self.global_exprs + other.global_exprs,
            rest: self.rest + other.rest,
        }
    }
}

/// A rewritten function body: parentheses, parameters and closing keyword
/// trimmed, the parameter list re-punctuated, and the nested block fully
/// rewritten.
pub open spec fn spec_minify_function_body(names: Seq<Seq<char>>, fb: FunctionBodyView) -> (
    Seq<Seq<char>>,
    FunctionBodyView,
)
    decreases fb,
{
    let (n2, b2) = spec_minify_block(names, fb.block);
    (
        n2,
        FunctionBodyView {
            parameters_parentheses: spec_trim_cspan(fb.parameters_parentheses),
            parameters: spec_punctuate_name(
                fb.parameters.map_values(|p: PairView<ParameterView>| spec_trim_parameter(p.value)),
                comma_view(),
            ),
            block: b2,
            end_token: spec_trim(fb.end_token),
        },
    )
}

/// What one statement contributes to its block's rewrite.
pub open spec fn spec_scan_stmt(names: Seq<Seq<char>>, s: StmtView) -> ScanResult
    decreases s,
{
    match s {
        StmtView::LocalAssignment(x) => ScanResult {
            names: names,
            local_names: x.names.map_values(|p: PairView<TokenReferenceView>| spec_trim(p.value)),
            local_exprs: x.expressions.map_values(
                |p: PairView<ExpressionView>| spec_trim_exp(p.value),
            ) + nil_fill(x.names.len() - x.expressions.len()),
            global_vars: Seq::empty(),
            global_exprs: Seq::empty(),
            rest: Seq::empty(),
        },
        StmtView::Assignment(x) => {
            let (n2, vars2) = spec_rename_vars(names, pair_values(x.variables));
            ScanResult {
                names: n2,
                local_names: Seq::empty(),
                local_exprs: Seq::empty(),
                global_vars: vars2,
                global_exprs: x.expressions.map_values(
                    |p: PairView<ExpressionView>| spec_trim_exp(p.value),
                ),
                rest: Seq::empty(),
            }
        },
        StmtView::LocalFunction(x) => {
            let (n2, body2) = spec_minify_function_body(names, x.body);
            ScanResult {
                names: n2,
                local_names: Seq::empty(),
                local_exprs: Seq::empty(),
                global_vars: Seq::empty(),
                global_exprs: Seq::empty(),
                rest: seq![
                    (
                        StmtView::LocalFunction(
                            Box::new(
                                LocalFunctionView {
                                    local_token: spec_trim_leading(x.local_token),
                                    function_token: spec_append(
                                        spec_trim_leading(x.function_token),
                                        true,
                                        true,
                                    ),
                                    name: x.name,
                                    body: body2,
                                },
                            ),
                        ),
                        Some(semicolon_view()),
                    ),
                ],
            }
        },
        StmtView::FunctionDeclaration(x) => {
            let (n2, body2) = spec_minify_function_body(names, x.body);
            ScanResult {
                names: n2,
                local_names: Seq::empty(),
                local_exprs: Seq::empty(),
                global_vars: Seq::empty(),
                global_exprs: Seq::empty(),
                rest: seq![
                    (
                        StmtView::FunctionDeclaration(
                            Box::new(
                                FunctionDeclarationView {
                                    function_token: spec_append(
                                        spec_trim_leading(x.function_token),
                                        false,
                                        true,
                                    ),
                                    name: x.name,
                                    body: body2,
                                },
                            ),
                        ),
                        Some(semicolon_view()),
                    ),
                ],
            }
        },
        StmtView::FunctionCall(x) => ScanResult {
            names: names,
            local_names: Seq::empty(),
            local_exprs: Seq::empty(),
            global_vars: Seq::empty(),
            global_exprs: Seq::empty(),
            rest: seq![
                (
                    StmtView::FunctionCall(
                        FunctionCallView {
                            prefix: spec_trim_prefix(x.prefix),
                            suffixes: spec_trim_suffixes(x.suffixes),
                        },
                    ),
                    Some(semicolon_view()),
                ),
            ],
        },
        StmtView::Other(ts) => ScanResult {
            names: names,
            local_names: Seq::empty(),
            local_exprs: Seq::empty(),
            global_vars: Seq::empty(),
            global_exprs: Seq::empty(),
            rest: seq![(StmtView::Other(spec_collapse_whitespace(ts)), Some(semicolon_view()))],
        },
    }
}

/// The combined contribution of a statement list, scanned in source order.
pub open spec fn spec_scan_stmts(
    names: Seq<Seq<char>>,
    stmts: Seq<(StmtView, Option<TokenReferenceView>)>,
) -> ScanResult
    decreases stmts,
{
    if stmts.len() == 0 {
        ScanResult::empty(names)
    } else {
        let first = spec_scan_stmt(names, stmts[0].0);
        first.followed_by(spec_scan_stmts(first.names, stmts.drop_first()))
    }
}

/// The rewritten block: the combined assignment (if any), then the combined
/// local declaration (if any), then every non-coalesced statement in its
/// original relative order; the name map is threaded through.  Any trailing
/// statement the block carries as raw tokens is untouched.
pub open spec fn spec_minify_block(names: Seq<Seq<char>>, b: BlockView) -> (
    Seq<Seq<char>>,
    BlockView,
)
    decreases b,
{
    let r = spec_scan_stmts(names, b.stmts);
    let rest1 = if r.local_names.len() > 0 {
        seq![
            (
                StmtView::LocalAssignment(
                    LocalAssignmentView {
                        local_token: local_token_view(),
                        names: spec_punctuate_name(r.local_names, comma_view()),
                        equal_token: Some(eq_view()),
                        expressions: spec_punctuate_name(r.local_exprs, comma_view()),
                    },
                ),
                Some(semicolon_view()),
            ),
        ] + r.rest
    } else {
        r.rest
    };
    let rest2 = if r.global_vars.len() > 0 {
        seq![
            (
                StmtView::Assignment(
                    AssignmentView {
                        variables: spec_punctuate_name(r.global_vars, comma_view()),
                        equal_token: eq_view(),
                        expressions: spec_punctuate_name(r.global_exprs, comma_view()),
                    },
                ),
                Some(semicolon_view()),
            ),
        ] + rest1
    } else {
        rest1
    };
    (r.names, BlockView { stmts: rest2, last_tokens: b.last_tokens })
}

/// Scanning statements one at a time from the end.
#[verifier::rlimit(50)]
pub proof fn lemma_scan_stmts_snoc(
    names: Seq<Seq<char>>,
    stmts: Seq<(StmtView, Option<TokenReferenceView>)>,
    p: (StmtView, Option<TokenReferenceView>),
)
    ensures
        spec_scan_stmts(names, stmts.push(p)) == spec_scan_stmts(names, stmts).followed_by(
            spec_scan_stmt(spec_scan_stmts(names, stmts).names, p.0).followed_by(
                ScanResult::empty(spec_scan_stmt(spec_scan_stmts(names, stmts).names, p.0).names),
            ),
        ),
    decreases stmts.len(),
{
    reveal_with_fuel(spec_scan_stmts, 3);
    let r1 = spec_scan_stmts(names, stmts);
    let r2 = spec_scan_stmt(r1.names, p.0);
    if stmts.len() == 0 {
        assert(stmts.push(p)[0] == p);
        assert(stmts.push(p).drop_first() =~= Seq::<(StmtView, Option<TokenReferenceView>)>::empty());
        assert(spec_scan_stmts(names, stmts.push(p)) == r2.followed_by(ScanResult::empty(r2.names)));
        assert(r1 == ScanResult::empty(names));
        assert(r1.followed_by(r2.followed_by(ScanResult::empty(r2.names))).rest =~= r2.rest);
        assert(r1.followed_by(r2.followed_by(ScanResult::empty(r2.names))).local_names
            =~= r2.local_names);
        assert(r1.followed_by(r2.followed_by(ScanResult::empty(r2.names))).local_exprs
            =~= r2.local_exprs);
        assert(r1.followed_by(r2.followed_by(ScanResult::empty(r2.names))).global_vars
            =~= r2.global_vars);
        assert(r1.followed_by(r2.followed_by(ScanResult::empty(r2.names))).global_exprs
            =~= r2.global_exprs);
        assert(r2.followed_by(ScanResult::empty(r2.names)).rest =~= r2.rest);
        assert(r2.followed_by(ScanResult::empty(r2.names)).local_names =~= r2.local_names);
        assert(r2.followed_by(ScanResult::empty(r2.names)).local_exprs =~= r2.local_exprs);
        assert(r2.followed_by(ScanResult::empty(r2.names)).global_vars =~= r2.global_vars);
        assert(r2.followed_by(ScanResult::empty(r2.names)).global_exprs =~= r2.global_exprs);
    } else {
        assert(stmts.push(p)[0] == stmts[0]);
        assert(stmts.push(p).drop_first() =~= stmts.drop_first().push(p));
        let first = spec_scan_stmt(names, stmts[0].0);
        lemma_scan_stmts_snoc(first.names, stmts.drop_first(), p);
        let q1 = spec_scan_stmts(first.names, stmts.drop_first());
        let q2 = spec_scan_stmt(q1.names, p.0);
        assert(q1.names == r1.names);
        assert(spec_scan_stmts(names, stmts.push(p)) == first.followed_by(
            q1.followed_by(q2.followed_by(ScanResult::empty(q2.names))),
        ));
        let lhs = first.followed_by(q1.followed_by(q2.followed_by(ScanResult::empty(q2.names))));
        let rhs = r1.followed_by(r2.followed_by(ScanResult::empty(r2.names)));
        assert(lhs.local_names =~= rhs.local_names);
        assert(lhs.local_exprs =~= rhs.local_exprs);
        assert(lhs.global_vars =~= rhs.global_vars);
        assert(lhs.global_exprs =~= rhs.global_exprs);
        assert(lhs.rest =~= rhs.rest);
        assert(lhs.names == rhs.names);
    }
}

/// Whether every local declaration of the block, at any depth, declares at
/// least as many names as it has initializers — the shape the coalescer is
/// defined on.
pub open spec fn block_wf(b: BlockView) -> bool
    decreases b,
{
    stmts_wf(b.stmts)
}

/// Well-formedness of a statement list.
pub open spec fn stmts_wf(stmts: Seq<(StmtView, Option<TokenReferenceView>)>) -> bool
    decreases stmts,
{
    stmts.len() == 0 || (stmt_wf(stmts[0].0) && stmts_wf(stmts.drop_first()))
}

/// Well-formedness of one statement.
pub open spec fn stmt_wf(s: StmtView) -> bool
    decreases s,
{
    match s {
        StmtView::LocalAssignment(x) => x.names.len() >= x.expressions.len(),
        StmtView::LocalFunction(x) => block_wf(x.body.block),
        StmtView::FunctionDeclaration(x) => block_wf(x.body.block),
        _ => true,
    }
}

/// Every statement of a well-formed list is well formed.
pub proof fn lemma_stmts_wf_index(stmts: Seq<(StmtView, Option<TokenReferenceView>)>, i: int)
    requires
        stmts_wf(stmts),
        0 <= i < stmts.len(),
    ensures
        stmt_wf(stmts[i].0),
    decreases stmts.len(),
{
    if i > 0 {
        assert(stmts.drop_first()[i - 1] == stmts[i]);
        lemma_stmts_wf_index(stmts.drop_first(), i - 1);
    }
}

/// A statement list is well formed exactly when each of its statements is.
pub proof fn lemma_stmts_wf_iff(stmts: Seq<(StmtView, Option<TokenReferenceView>)>)
    ensures
        stmts_wf(stmts) <==> (forall|i: int|
            0 <= i < stmts.len() ==> stmt_wf((#[trigger] stmts[i]).0)),
    decreases stmts.len(),
{
    if stmts.len() > 0 {
        lemma_stmts_wf_iff(stmts.drop_first());
        if stmts_wf(stmts) {
            assert forall|i: int| 0 <= i < stmts.len() implies stmt_wf(
                (#[trigger] stmts[i]).0,
            ) by {
                if i > 0 {
                    assert(stmts.drop_first()[i - 1] == stmts[i]);
                }
            }
        }
        if forall|i: int| 0 <= i < stmts.len() ==> stmt_wf((#[trigger] stmts[i]).0) {
            assert forall|i: int| 0 <= i < stmts.drop_first().len() implies stmt_wf(
                (#[trigger] stmts.drop_first()[i]).0,
            ) by {
                assert(stmts.drop_first()[i] == stmts[i + 1]);
            }
        }
    }
}

/// Decides whether one statement is well formed: a local declaration must
/// not have more initializers than names, and nested function bodies must
/// be well formed throughout.
pub fn check_stmt_wf(s: &Stmt) -> (b: bool)
    ensures
        b == stmt_wf(s@),
    decreases *s,
{
    match s {
        Stmt::LocalAssignment(x) => x.names.len() >= x.expressions.len(),
        Stmt::LocalFunction(x) => check_block_wf(&x.body.block),
        Stmt::FunctionDeclaration(x) => check_block_wf(&x.body.block),
        _ => true,
    }
}

/// Decides whether a block is well formed — the shape `minify_block` asks
/// of its input.  An unverified caller tests this before rewriting.
pub fn check_block_wf(block: &Block) -> (b: bool)
    ensures
        b == block_wf(block@),
    decreases *block,
{
    proof {
        lemma_stmt_pairs_view_index(block.stmts@);
        lemma_stmts_wf_iff(block@.stmts);
    }
    let mut i: usize = 0;
    while i < block.stmts.len()
        invariant
            i <= block.stmts@.len(),
            block@.stmts.len() == block.stmts@.len(),
            forall|k: int|
                0 <= k < block@.stmts.len() ==> block@.stmts[k] == (
                    stmt_view(#[trigger] block.stmts@[k].0),
                    crate::ast::opt_token_view(block.stmts@[k].1),
                ),
            stmts_wf(block@.stmts) <==> (forall|k: int|
                0 <= k < block@.stmts.len() ==> stmt_wf((#[trigger] block@.stmts[k]).0)),
            forall|k: int| 0 <= k < i ==> stmt_wf((#[trigger] block@.stmts[k]).0),
        decreases block.stmts@.len() - i,
    {
        let pair = &block.stmts[i];
        if !check_stmt_wf(&pair.0) {
            return false;
        }
        i = i + 1;
    }
    true
}

impl Minifier {
    /// Rewrites a function body: parentheses, parameters and the closing
    /// keyword are trimmed, the parameter list is re-punctuated, and the
    /// nested block is rewritten bottom-up.
    fn minify_function_body(&mut self, body: &FunctionBody) -> (r: FunctionBody)
        requires
            block_wf(body.block@),
        ensures
            final(self)@.code == old(self)@.code,
            final(self)@.names == spec_minify_function_body(old(self)@.names, body@).0,
            r@ == spec_minify_function_body(old(self)@.names, body@).1,
        decreases *body,
    {
        let new_parentheses = trim_cspan(&body.parameters_parentheses);
        let mut new_params: Punctuated<Parameter> = Punctuated::new();
        let mut i: usize = 0;
        while i < body.parameters.pairs.len()
            invariant
                i <= body.parameters.pairs@.len(),
                new_params@.len() == i as int,
                forall|j: int|
                    0 <= j < i ==> (#[trigger] new_params@[j]).value == spec_trim_parameter(
                        body.parameters@[j].value,
                    ),
            decreases body.parameters.pairs@.len() - i,
        {
            let param = &body.parameters.pairs[i];
            let new_param = match &param.value {
                Parameter::Ellipsis(t) => Parameter::Ellipsis(trim(t)),
                Parameter::Name(t) => Parameter::Name(trim(t)),
            };
            new_params.push(Pair { value: new_param, punctuation: None });
            i = i + 1;
        }
        proof {
            assert(pair_values(new_params@) =~= body.parameters@.map_values(
                |p: PairView<ParameterView>| spec_trim_parameter(p.value),
            ));
        }
        let new_params = punctuate_name(new_params, &comma());
        let new_block = self.minify_block(&body.block);
        let new_end = trim(&body.end_token);
        FunctionBody {
            parameters_parentheses: new_parentheses,
            parameters: new_params,
            block: new_block,
            end_token: new_end,
        }
    }

    /// Rewrites one block: every statement is trimmed in source order, all
    /// local declarations are merged into one combined declaration and all
    /// plain assignments into one combined assignment, both placed at the
    /// front; global assignment targets are renamed; nested function bodies
    /// are rewritten bottom-up.  The trailing raw-token statement, if any,
    /// is untouched.
    #[verifier::rlimit(100)]
    pub fn minify_block(&mut self, block: &Block) -> (r: Block)
        requires
            block_wf(block@),
        ensures
            final(self)@.code == old(self)@.code,
            final(self)@.names == spec_minify_block(old(self)@.names, block@).0,
            r@ == spec_minify_block(old(self)@.names, block@).1,
        decreases *block,
    {
        let ghost names0 = self@.names;
        let ghost vv = block@.stmts;
        proof {
            lemma_stmt_pairs_view_index(block.stmts@);
        }
        let mut new_stmts: Vec<(Stmt, Option<TokenReference>)> = Vec::new();
        let mut local_names: Punctuated<TokenReference> = Punctuated::new();
        let mut local_expressions: Punctuated<Expression> = Punctuated::new();
        let mut global_vars: Punctuated<Var> = Punctuated::new();
        let mut global_expressions: Punctuated<Expression> = Punctuated::new();
        let mut i: usize = 0;
        while i < block.stmts.len()
            invariant
                i <= block.stmts@.len(),
                vv == block@.stmts,
                vv.len() == block.stmts@.len(),
                block_wf(block@),
                forall|k: int|
                    0 <= k < vv.len() ==> vv[k] == (
                        stmt_view(#[trigger] block.stmts@[k].0),
                        crate::ast::opt_token_view(block.stmts@[k].1),
                    ),
                self@.code == old(self)@.code,
                self@.names == spec_scan_stmts(names0, vv.take(i as int)).names,
                pair_values(local_names@) =~= spec_scan_stmts(
                    names0,
                    vv.take(i as int),
                ).local_names,
                pair_values(local_expressions@) =~= spec_scan_stmts(
                    names0,
                    vv.take(i as int),
                ).local_exprs,
                pair_values(global_vars@) =~= spec_scan_stmts(
                    names0,
                    vv.take(i as int),
                ).global_vars,
                pair_values(global_expressions@) =~= spec_scan_stmts(
                    names0,
                    vv.take(i as int),
                ).global_exprs,
                stmt_pairs_view(new_stmts@) =~= spec_scan_stmts(names0, vv.take(i as int)).rest,
            decreases block.stmts@.len() - i,
        {
            let ghost si = spec_scan_stmts(names0, vv.take(i as int));
            let ghost contribution = spec_scan_stmt(si.names, vv[i as int].0);
            proof {
                lemma_stmts_wf_index(vv, i as int);
            }
            let pair = &block.stmts[i];
            match &pair.0 {
                Stmt::LocalAssignment(x) => {
                    push_trimmed_names(&mut local_names, &x.names);
                    push_trimmed_exprs(&mut local_expressions, &x.expressions);
                    let diff_len = x.names.len() - x.expressions.len();
                    push_nils(&mut local_expressions, diff_len);
                    proof {
                        assert(pair_values(local_names@) =~= si.local_names
                            + contribution.local_names);
                        assert(pair_values(local_expressions@) =~= si.local_exprs
                            + contribution.local_exprs);
                        assert(pair_values(global_vars@) =~= si.global_vars
                            + contribution.global_vars);
                        assert(pair_values(global_expressions@) =~= si.global_exprs
                            + contribution.global_exprs);
                        assert(stmt_pairs_view(new_stmts@) =~= si.rest + contribution.rest);
                        assert(self@.names == contribution.names);
                    }
                },
                Stmt::Assignment(x) => {
                    self.rename_vars_into(&mut global_vars, &x.variables);
                    push_trimmed_exprs(&mut global_expressions, &x.expressions);
                    proof {
                        assert(pair_values(local_names@) =~= si.local_names
                            + contribution.local_names);
                        assert(pair_values(local_expressions@) =~= si.local_exprs
                            + contribution.local_exprs);
                        assert(pair_values(global_vars@) =~= si.global_vars
                            + contribution.global_vars);
                        assert(pair_values(global_expressions@) =~= si.global_exprs
                            + contribution.global_exprs);
                        assert(stmt_pairs_view(new_stmts@) =~= si.rest + contribution.rest);
                        assert(self@.names == contribution.names);
                    }
                },
                Stmt::LocalFunction(x) => {
                    let new_body = self.minify_function_body(&x.body);
                    let new_local = trim_leading(&x.local_token);
                    let trimmed_function = trim_leading(&x.function_token);
                    let new_function = append(&trimmed_function, true, true);
                    let ghost old_stmts = new_stmts@;
                    let new_stmt = Stmt::LocalFunction(
                        Box::new(
                            LocalFunction {
                                local_token: new_local,
                                function_token: new_function,
                                name: x.name.duplicate(),
                                body: new_body,
                            },
                        ),
                    );
                    let terminator = Some(semicolon());
                    new_stmts.push((new_stmt, terminator));
                    proof {
                        lemma_stmt_pairs_view_push(
                            old_stmts,
                            (new_stmts@.last().0, new_stmts@.last().1),
                        );
                        assert(new_stmts@ =~= old_stmts.push(new_stmts@.last()));
                        assert(pair_values(local_names@) =~= si.local_names
                            + contribution.local_names);
                        assert(pair_values(local_expressions@) =~= si.local_exprs
                            + contribution.local_exprs);
                        assert(pair_values(global_vars@) =~= si.global_vars
                            + contribution.global_vars);
                        assert(pair_values(global_expressions@) =~= si.global_exprs
                            + contribution.global_exprs);
                        assert(stmt_pairs_view(new_stmts@) =~= si.rest + contribution.rest);
                        assert(self@.names == contribution.names);
                    }
                },
                Stmt::FunctionDeclaration(x) => {
                    let new_body = self.minify_function_body(&x.body);
                    let trimmed_function = trim_leading(&x.function_token);
                    let new_function = append(&trimmed_function, false, true);
                    let ghost old_stmts = new_stmts@;
                    let new_stmt = Stmt::FunctionDeclaration(
                        Box::new(
                            FunctionDeclaration {
                                function_token: new_function,
                                name: duplicate_tokens(&x.name),
                                body: new_body,
                            },
                        ),
                    );
                    let terminator = Some(semicolon());
                    new_stmts.push((new_stmt, terminator));
                    proof {
                        lemma_stmt_pairs_view_push(
                            old_stmts,
                            (new_stmts@.last().0, new_stmts@.last().1),
                        );
                        assert(new_stmts@ =~= old_stmts.push(new_stmts@.last()));
                        assert(pair_values(local_names@) =~= si.local_names
                            + contribution.local_names);
                        assert(pair_values(local_expressions@) =~= si.local_exprs
                            + contribution.local_exprs);
                        assert(pair_values(global_vars@) =~= si.global_vars
                            + contribution.global_vars);
                        assert(pair_values(global_expressions@) =~= si.global_exprs
                            + contribution.global_exprs);
                        assert(stmt_pairs_view(new_stmts@) =~= si.rest + contribution.rest);
                        assert(self@.names == contribution.names);
                    }
                },
                Stmt::FunctionCall(x) => {
                    let new_prefix = trim_prefix(&x.prefix);
                    let new_suffixes = self.trim_suffix_list(&x.suffixes);
                    let ghost old_stmts = new_stmts@;
                    let new_stmt = Stmt::FunctionCall(
                        FunctionCall { prefix: new_prefix, suffixes: new_suffixes },
                    );
                    let terminator = Some(semicolon());
                    new_stmts.push((new_stmt, terminator));
                    proof {
                        lemma_stmt_pairs_view_push(
                            old_stmts,
                            (new_stmts@.last().0, new_stmts@.last().1),
                        );
                        assert(new_stmts@ =~= old_stmts.push(new_stmts@.last()));
                        assert(pair_values(local_names@) =~= si.local_names
                            + contribution.local_names);
                        assert(pair_values(local_expressions@) =~= si.local_exprs
                            + contribution.local_exprs);
                        assert(pair_values(global_vars@) =~= si.global_vars
                            + contribution.global_vars);
                        assert(pair_values(global_expressions@) =~= si.global_exprs
                            + contribution.global_exprs);
                        assert(stmt_pairs_view(new_stmts@) =~= si.rest + contribution.rest);
                        assert(self@.names == contribution.names);
                    }
                },
                Stmt::Other(ts) => {
                    let ghost old_stmts = new_stmts@;
                    let new_stmt = Stmt::Other(collapse_whitespace(ts));
                    let terminator = Some(semicolon());
                    new_stmts.push((new_stmt, terminator));
                    proof {
                        lemma_stmt_pairs_view_push(
                            old_stmts,
                            (new_stmts@.last().0, new_stmts@.last().1),
                        );
                        assert(new_stmts@ =~= old_stmts.push(new_stmts@.last()));
                        assert(pair_values(local_names@) =~= si.local_names
                            + contribution.local_names);
                        assert(pair_values(local_expressions@) =~= si.local_exprs
                            + contribution.local_exprs);
                        assert(pair_values(global_vars@) =~= si.global_vars
                            + contribution.global_vars);
                        assert(pair_values(global_expressions@) =~= si.global_exprs
                            + contribution.global_exprs);
                        assert(stmt_pairs_view(new_stmts@) =~= si.rest + contribution.rest);
                        assert(self@.names == contribution.names);
                    }
                },
            }
            proof {
                lemma_scan_stmts_snoc(names0, vv.take(i as int), vv[i as int]);
                assert(vv.take(i + 1) =~= vv.take(i as int).push(vv[i as int]));
                let snext = spec_scan_stmts(names0, vv.take(i + 1));
                assert(snext.names == contribution.names);
                assert(snext.local_names =~= si.local_names + contribution.local_names);
                assert(snext.local_exprs =~= si.local_exprs + contribution.local_exprs);
                assert(snext.global_vars =~= si.global_vars + contribution.global_vars);
                assert(snext.global_exprs =~= si.global_exprs + contribution.global_exprs);
                assert(snext.rest =~= si.rest + contribution.rest);
            }
            i = i + 1;
        }
        proof {
            assert(vv.take(vv.len() as int) =~= vv);
        }
        let ghost sfin = spec_scan_stmts(names0, vv);
        if local_names.len() > 0 {
            let punctuated_names = punctuate_name(local_names, &comma());
            let punctuated_exprs = punctuate_exp(local_expressions, &comma());
            let ghost old_stmts = new_stmts@;
            let combined = Stmt::LocalAssignment(
                LocalAssignment {
                    local_token: local_token(),
                    names: punctuated_names,
                    equal_token: Some(eq_token()),
                    expressions: punctuated_exprs,
                },
            );
            new_stmts.insert(0, (combined, Some(semicolon())));
            proof {
                lemma_stmt_pairs_view_cons(old_stmts, (new_stmts@[0].0, new_stmts@[0].1));
                assert(new_stmts@ =~= old_stmts.insert(0, new_stmts@[0]));
            }
        } else {
            proof {
                assert(sfin.local_names.len() == 0);
            }
        }
        if global_vars.len() > 0 {
            let punctuated_vars = punctuate_name(global_vars, &comma());
            let punctuated_exprs = punctuate_exp(global_expressions, &comma());
            let ghost old_stmts = new_stmts@;
            let combined = Stmt::Assignment(
                Assignment {
                    variables: punctuated_vars,
                    equal_token: eq_token(),
                    expressions: punctuated_exprs,
                },
            );
            new_stmts.insert(0, (combined, Some(semicolon())));
            proof {
                lemma_stmt_pairs_view_cons(old_stmts, (new_stmts@[0].0, new_stmts@[0].1));
                assert(new_stmts@ =~= old_stmts.insert(0, new_stmts@[0]));
            }
        } else {
            proof {
                assert(sfin.global_vars.len() == 0);
            }
        }
        let result = Block {
            stmts: new_stmts,
            last_tokens: duplicate_tokens(&block.last_tokens),
        };
        proof {
            assert(result@.stmts =~= spec_minify_block(names0, block@).1.stmts);
            assert(result@.last_tokens =~= spec_minify_block(names0, block@).1.last_tokens);
            assert(result@ == spec_minify_block(names0, block@).1);
        }
        result
    }
}

} // verus!
