//! The syntax tree the minifier works on.
//!
//! Every executable type has a ghost model (its `View`) built from `Seq` and
//! `Seq<char>`, over which all contracts are stated.  Constructs the rewrite
//! never looks into are kept as flat runs of raw tokens, which still render
//! to their exact original text.

use vstd::prelude::*;

verus! {

/// The lexical class of a token.  `Whitespace` and `Comment` are trivia;
/// everything else is significant.
#[derive(Clone, Copy, PartialEq, Eq, Structural, Debug)]
pub enum TokenKind {
    Whitespace,
    Comment,
    Identifier,
    Number,
    StringLiteral,
    Symbol,
}

/// An atomic lexical unit: its class and its exact source text.
#[derive(Debug, PartialEq, Eq)]
pub struct Token {
    pub kind: TokenKind,
    pub text: String,
}

/// Ghost model of a [`Token`].
pub ghost struct TokenView {
    pub kind: TokenKind,
    pub text: Seq<char>,
}

impl View for Token {
    type V = TokenView;

    open spec fn view(&self) -> TokenView {
        TokenView { kind: self.kind, text: self.text@ }
    }
}

impl TokenView {
    /// Whether the token is whitespace trivia.
    pub open spec fn is_whitespace(self) -> bool {
        self.kind == TokenKind::Whitespace
    }

    /// A single-space whitespace token.
    pub open spec fn space() -> TokenView {
        TokenView { kind: TokenKind::Whitespace, text: seq![' '] }
    }
}

/// The ghost model of a list of tokens.
pub open spec fn tokens_view(s: Seq<Token>) -> Seq<TokenView> {
    s.map_values(|t: Token| t@)
}

impl Token {
    /// An exact copy of the token.
    pub fn duplicate(&self) -> (r: Token)
        ensures
            r@ == self@,
    {
        Token { kind: self.kind, text: self.text.clone() }
    }

    /// A single-space whitespace token.
    pub fn space() -> (r: Token)
        ensures
            r@ == TokenView::space(),
    {
        let t = Token { kind: TokenKind::Whitespace, text: String::from_str(" ") };
        proof {
            reveal_strlit(" ");
            assert(t@.text =~= seq![' ']);
        }
        t
    }
}

/// Copies a list of tokens.
pub fn duplicate_tokens(tokens: &Vec<Token>) -> (r: Vec<Token>)
    ensures
        tokens_view(r@) == tokens_view(tokens@),
{
    let mut out: Vec<Token> = Vec::new();
    let mut i: usize = 0;
    while i < tokens.len()
        invariant
            i <= tokens.len(),
            out@.len() == i as int,
            forall|j: int| 0 <= j < i ==> (#[trigger] out@[j])@ == tokens@[j]@,
        decreases tokens.len() - i,
    {
        out.push(tokens[i].duplicate());
        i = i + 1;
    }
    proof {
        assert(tokens_view(out@) =~= tokens_view(tokens@));
    }
    out
}

/// A significant token together with the trivia that surrounded it in the
/// source: leading trivia before it, trailing trivia after it.
#[derive(Debug, PartialEq, Eq)]
pub struct TokenReference {
    pub leading: Vec<Token>,
    pub token: Token,
    pub trailing: Vec<Token>,
}

/// Ghost model of a [`TokenReference`].
pub ghost struct TokenReferenceView {
    pub leading: Seq<TokenView>,
    pub token: TokenView,
    pub trailing: Seq<TokenView>,
}

impl View for TokenReference {
    type V = TokenReferenceView;

    open spec fn view(&self) -> TokenReferenceView {
        TokenReferenceView {
            leading: tokens_view(self.leading@),
            token: self.token@,
            trailing: tokens_view(self.trailing@),
        }
    }
}

impl TokenReferenceView {
    /// A bare symbol token with no surrounding trivia.
    pub open spec fn symbol(text: Seq<char>) -> TokenReferenceView {
        TokenReferenceView {
            leading: Seq::empty(),
            token: TokenView { kind: TokenKind::Symbol, text: text },
            trailing: Seq::empty(),
        }
    }

    /// A bare identifier token with no surrounding trivia.
    pub open spec fn identifier(text: Seq<char>) -> TokenReferenceView {
        TokenReferenceView {
            leading: Seq::empty(),
            token: TokenView { kind: TokenKind::Identifier, text: text },
            trailing: Seq::empty(),
        }
    }
}

impl TokenReference {
    /// A bare symbol token with no surrounding trivia.
    pub fn symbol(text: &str) -> (r: TokenReference)
        ensures
            r@ == TokenReferenceView::symbol(text@),
    {
        let r = TokenReference {
            leading: Vec::new(),
            token: Token { kind: TokenKind::Symbol, text: text.to_owned() },
            trailing: Vec::new(),
        };
        proof {
            assert(r@.leading =~= Seq::<TokenView>::empty());
            assert(r@.trailing =~= Seq::<TokenView>::empty());
        }
        r
    }

    /// A bare identifier token with no surrounding trivia.
    pub fn identifier(text: &str) -> (r: TokenReference)
        ensures
            r@ == TokenReferenceView::identifier(text@),
    {
        let r = TokenReference {
            leading: Vec::new(),
            token: Token { kind: TokenKind::Identifier, text: text.to_owned() },
            trailing: Vec::new(),
        };
        proof {
            assert(r@.leading =~= Seq::<TokenView>::empty());
            assert(r@.trailing =~= Seq::<TokenView>::empty());
        }
        r
    }

    /// An exact copy of the token reference.
    pub fn duplicate(&self) -> (r: TokenReference)
        ensures
            r@ == self@,
    {
        TokenReference {
            leading: duplicate_tokens(&self.leading),
            token: self.token.duplicate(),
            trailing: duplicate_tokens(&self.trailing),
        }
    }
}

/// The ghost model of an optional token reference.
pub open spec fn opt_token_view(o: Option<TokenReference>) -> Option<TokenReferenceView> {
    match o {
        Some(t) => Some(t@),
        None => None,
    }
}

/// A pair of enclosing tokens, such as parentheses or brackets.
#[derive(Debug, PartialEq, Eq)]
pub struct ContainedSpan {
    pub start: TokenReference,
    pub end: TokenReference,
}

/// Ghost model of a [`ContainedSpan`].
pub ghost struct ContainedSpanView {
    pub start: TokenReferenceView,
    pub end: TokenReferenceView,
}

impl View for ContainedSpan {
    type V = ContainedSpanView;

    open spec fn view(&self) -> ContainedSpanView {
        ContainedSpanView { start: self.start@, end: self.end@ }
    }
}

impl ContainedSpan {
    /// An exact copy of the span's tokens.
    pub fn duplicate(&self) -> (r: ContainedSpan)
        ensures
            r@ == self@,
    {
        ContainedSpan { start: self.start.duplicate(), end: self.end.duplicate() }
    }
}

/// One item of a punctuated sequence, with the separator that follows it, if
/// any.  Every item except the last is followed by a separator; the final
/// item carries none.
#[derive(Debug, PartialEq, Eq)]
pub struct Pair<T> {
    pub value: T,
    pub punctuation: Option<TokenReference>,
}

/// Ghost model of a [`Pair`].
pub ghost struct PairView<V> {
    pub value: V,
    pub punctuation: Option<TokenReferenceView>,
}

impl<T: View> View for Pair<T> {
    type V = PairView<T::V>;

    open spec fn view(&self) -> PairView<T::V> {
        PairView { value: self.value@, punctuation: opt_token_view(self.punctuation) }
    }
}

/// An ordered list of items interleaved with separator tokens.
#[derive(Debug, PartialEq, Eq)]
pub struct Punctuated<T> {
    pub pairs: Vec<Pair<T>>,
}

impl<T: View> View for Punctuated<T> {
    type V = Seq<PairView<T::V>>;

    open spec fn view(&self) -> Seq<PairView<T::V>> {
        self.pairs@.map_values(|p: Pair<T>| p@)
    }
}

impl<T: View> Punctuated<T> {
    /// An empty sequence.
    pub fn new() -> (r: Punctuated<T>)
        ensures
            r@ =~= Seq::<PairView<T::V>>::empty(),
    {
        Punctuated { pairs: Vec::new() }
    }

    /// The number of items.
    pub fn len(&self) -> (r: usize)
        ensures
            r == self@.len(),
    {
        self.pairs.len()
    }

    /// Appends an item with its separator slot.
    pub fn push(&mut self, pair: Pair<T>)
        ensures
            final(self)@ =~= old(self)@.push(pair@),
    {
        self.pairs.push(pair);
    }
}

/// An expression.  Only the forms the trimmer looks into are structured;
/// every other expression is carried as its flat run of raw tokens.
#[derive(Debug, PartialEq, Eq)]
pub enum Expression {
    Number(TokenReference),
    Str(TokenReference),
    Symbol(TokenReference),
    BinaryOperator { lhs: Box<Expression>, binop: TokenReference, rhs: Box<Expression> },
    Other(Vec<Token>),
}

/// Ghost model of an [`Expression`].
pub ghost enum ExpressionView {
    Number(TokenReferenceView),
    Str(TokenReferenceView),
    Symbol(TokenReferenceView),
    BinaryOperator { lhs: Box<ExpressionView>, binop: TokenReferenceView, rhs: Box<ExpressionView> },
    Other(Seq<TokenView>),
}

/// The ghost model of an [`Expression`], by structural recursion.
pub open spec fn expression_view(e: Expression) -> ExpressionView
    decreases e,
{
    match e {
        Expression::Number(t) => ExpressionView::Number(t@),
        Expression::Str(t) => ExpressionView::Str(t@),
        Expression::Symbol(t) => ExpressionView::Symbol(t@),
        Expression::BinaryOperator { lhs, binop, rhs } => ExpressionView::BinaryOperator {
            lhs: Box::new(expression_view(*lhs)),
            binop: binop@,
            rhs: Box::new(expression_view(*rhs)),
        },
        Expression::Other(ts) => ExpressionView::Other(tokens_view(ts@)),
    }
}

impl View for Expression {
    type V = ExpressionView;

    open spec fn view(&self) -> ExpressionView {
        expression_view(*self)
    }
}

/// The first part of a qualified or called name: a plain name or a
/// parenthesized expression.
#[derive(Debug, PartialEq, Eq)]
pub enum Prefix {
    Name(TokenReference),
    Expression(Box<Expression>),
}

/// Ghost model of a [`Prefix`].
pub ghost enum PrefixView {
    Name(TokenReferenceView),
    Expression(Box<ExpressionView>),
}

impl View for Prefix {
    type V = PrefixView;

    open spec fn view(&self) -> PrefixView {
        match self {
            Prefix::Name(t) => PrefixView::Name(t@),
            Prefix::Expression(e) => PrefixView::Expression(Box::new((**e)@)),
        }
    }
}

/// An index into a value: brackets around an expression, or a dot and a name.
#[derive(Debug, PartialEq, Eq)]
pub enum Index {
    Brackets { brackets: ContainedSpan, expression: Expression },
    Dot { dot: TokenReference, name: TokenReference },
}

/// Ghost model of an [`Index`].
pub ghost enum IndexView {
    Brackets { brackets: ContainedSpanView, expression: ExpressionView },
    Dot { dot: TokenReferenceView, name: TokenReferenceView },
}

impl View for Index {
    type V = IndexView;

    open spec fn view(&self) -> IndexView {
        match self {
            Index::Brackets { brackets, expression } => IndexView::Brackets {
                brackets: brackets@,
                expression: expression@,
            },
            Index::Dot { dot, name } => IndexView::Dot { dot: dot@, name: name@ },
        }
    }
}

/// A field of a table constructor.
#[derive(Debug, PartialEq, Eq)]
pub enum Field {
    ExpressionKey {
        brackets: ContainedSpan,
        key: Expression,
        equal: TokenReference,
        value: Expression,
    },
    NameKey { key: TokenReference, equal: TokenReference, value: Expression },
    NoKey(Expression),
}

/// Ghost model of a [`Field`].
pub ghost enum FieldView {
    ExpressionKey {
        brackets: ContainedSpanView,
        key: ExpressionView,
        equal: TokenReferenceView,
        value: ExpressionView,
    },
    NameKey { key: TokenReferenceView, equal: TokenReferenceView, value: ExpressionView },
    NoKey(ExpressionView),
}

impl View for Field {
    type V = FieldView;

    open spec fn view(&self) -> FieldView {
        match self {
            Field::ExpressionKey { brackets, key, equal, value } => FieldView::ExpressionKey {
                brackets: brackets@,
                key: key@,
                equal: equal@,
                value: value@,
            },
            Field::NameKey { key, equal, value } => FieldView::NameKey {
                key: key@,
                equal: equal@,
                value: value@,
            },
            Field::NoKey(e) => FieldView::NoKey(e@),
        }
    }
}

/// A table constructor: braces around a punctuated list of fields.
#[derive(Debug, PartialEq, Eq)]
pub struct TableConstructor {
    pub braces: ContainedSpan,
    pub fields: Punctuated<Field>,
}

/// Ghost model of a [`TableConstructor`].
pub ghost struct TableConstructorView {
    pub braces: ContainedSpanView,
    pub fields: Seq<PairView<FieldView>>,
}

impl View for TableConstructor {
    type V = TableConstructorView;

    open spec fn view(&self) -> TableConstructorView {
        TableConstructorView { braces: self.braces@, fields: self.fields@ }
    }
}

/// The arguments of a call.
#[derive(Debug, PartialEq, Eq)]
pub enum FunctionArgs {
    Parentheses { parentheses: ContainedSpan, arguments: Punctuated<Expression> },
    TableConstructor(TableConstructor),
    Str(TokenReference),
}

/// Ghost model of [`FunctionArgs`].
pub ghost enum FunctionArgsView {
    Parentheses { parentheses: ContainedSpanView, arguments: Seq<PairView<ExpressionView>> },
    TableConstructor(TableConstructorView),
    Str(TokenReferenceView),
}

impl View for FunctionArgs {
    type V = FunctionArgsView;

    open spec fn view(&self) -> FunctionArgsView {
        match self {
            FunctionArgs::Parentheses { parentheses, arguments } => FunctionArgsView::Parentheses {
                parentheses: parentheses@,
                arguments: arguments@,
            },
            FunctionArgs::TableConstructor(t) => FunctionArgsView::TableConstructor(t@),
            FunctionArgs::Str(t) => FunctionArgsView::Str(t@),
        }
    }
}

/// A call suffix: anonymous arguments, or a method call.
#[derive(Debug, PartialEq, Eq)]
pub enum Call {
    AnonymousCall(FunctionArgs),
    MethodCall { colon: TokenReference, name: TokenReference, args: FunctionArgs },
}

/// Ghost model of a [`Call`].
pub ghost enum CallView {
    AnonymousCall(FunctionArgsView),
    MethodCall { colon: TokenReferenceView, name: TokenReferenceView, args: FunctionArgsView },
}

impl View for Call {
    type V = CallView;

    open spec fn view(&self) -> CallView {
        match self {
            Call::AnonymousCall(a) => CallView::AnonymousCall(a@),
            Call::MethodCall { colon, name, args } => CallView::MethodCall {
                colon: colon@,
                name: name@,
                args: args@,
            },
        }
    }
}

/// A suffix stacked onto a prefix: a call or an index.
#[derive(Debug, PartialEq, Eq)]
pub enum Suffix {
    Call(Call),
    Index(Index),
}

/// Ghost model of a [`Suffix`].
pub ghost enum SuffixView {
    Call(CallView),
    Index(IndexView),
}

impl View for Suffix {
    type V = SuffixView;

    open spec fn view(&self) -> SuffixView {
        match self {
            Suffix::Call(c) => SuffixView::Call(c@),
            Suffix::Index(i) => SuffixView::Index(i@),
        }
    }
}

/// The ghost model of a list of suffixes.
pub open spec fn suffixes_view(s: Seq<Suffix>) -> Seq<SuffixView> {
    s.map_values(|x: Suffix| x@)
}

/// A qualified or indexed target, such as `x.y` or `t[k]`.
#[derive(Debug, PartialEq, Eq)]
pub struct VarExpression {
    pub prefix: Prefix,
    pub suffixes: Vec<Suffix>,
}

/// Ghost model of a [`VarExpression`].
pub ghost struct VarExpressionView {
    pub prefix: PrefixView,
    pub suffixes: Seq<SuffixView>,
}

impl View for VarExpression {
    type V = VarExpressionView;

    open spec fn view(&self) -> VarExpressionView {
        VarExpressionView { prefix: self.prefix@, suffixes: suffixes_view(self.suffixes@) }
    }
}

/// An assignment target: a plain name or a qualified expression.
#[derive(Debug, PartialEq, Eq)]
pub enum Var {
    Name(TokenReference),
    Expression(Box<VarExpression>),
}

/// Ghost model of a [`Var`].
pub ghost enum VarView {
    Name(TokenReferenceView),
    Expression(Box<VarExpressionView>),
}

impl View for Var {
    type V = VarView;

    open spec fn view(&self) -> VarView {
        match self {
            Var::Name(t) => VarView::Name(t@),
            Var::Expression(e) => VarView::Expression(Box::new((**e)@)),
        }
    }
}

/// A function parameter: a name or the `...` vararg.
#[derive(Debug, PartialEq, Eq)]
pub enum Parameter {
    Ellipsis(TokenReference),
    Name(TokenReference),
}

/// Ghost model of a [`Parameter`].
pub ghost enum ParameterView {
    Ellipsis(TokenReferenceView),
    Name(TokenReferenceView),
}

impl View for Parameter {
    type V = ParameterView;

    open spec fn view(&self) -> ParameterView {
        match self {
            Parameter::Ellipsis(t) => ParameterView::Ellipsis(t@),
            Parameter::Name(t) => ParameterView::Name(t@),
        }
    }
}

/// A function body: the parenthesized parameter list, the nested block, and
/// the closing `end` keyword.
#[derive(Debug, PartialEq, Eq)]
pub struct FunctionBody {
    pub parameters_parentheses: ContainedSpan,
    pub parameters: Punctuated<Parameter>,
    pub block: Block,
    pub end_token: TokenReference,
}

/// Ghost model of a [`FunctionBody`].
pub ghost struct FunctionBodyView {
    pub parameters_parentheses: ContainedSpanView,
    pub parameters: Seq<PairView<ParameterView>>,
    pub block: BlockView,
    pub end_token: TokenReferenceView,
}

/// A local variable declaration, such as `local x, y = 1, 2`.
#[derive(Debug, PartialEq, Eq)]
pub struct LocalAssignment {
    pub local_token: TokenReference,
    pub names: Punctuated<TokenReference>,
    pub equal_token: Option<TokenReference>,
    pub expressions: Punctuated<Expression>,
}

/// Ghost model of a [`LocalAssignment`].
pub ghost struct LocalAssignmentView {
    pub local_token: TokenReferenceView,
    pub names: Seq<PairView<TokenReferenceView>>,
    pub equal_token: Option<TokenReferenceView>,
    pub expressions: Seq<PairView<ExpressionView>>,
}

impl View for LocalAssignment {
    type V = LocalAssignmentView;

    open spec fn view(&self) -> LocalAssignmentView {
        LocalAssignmentView {
            local_token: self.local_token@,
            names: self.names@,
            equal_token: opt_token_view(self.equal_token),
            expressions: self.expressions@,
        }
    }
}

/// A plain assignment, such as `x, t.k = 1, 2`.
#[derive(Debug, PartialEq, Eq)]
pub struct Assignment {
    pub variables: Punctuated<Var>,
    pub equal_token: TokenReference,
    pub expressions: Punctuated<Expression>,
}

/// Ghost model of an [`Assignment`].
pub ghost struct AssignmentView {
    pub variables: Seq<PairView<VarView>>,
    pub equal_token: TokenReferenceView,
    pub expressions: Seq<PairView<ExpressionView>>,
}

impl View for Assignment {
    type V = AssignmentView;

    open spec fn view(&self) -> AssignmentView {
        AssignmentView {
            variables: self.variables@,
            equal_token: self.equal_token@,
            expressions: self.expressions@,
        }
    }
}

/// A local function declaration, such as `local function f() end`.
#[derive(Debug, PartialEq, Eq)]
pub struct LocalFunction {
    pub local_token: TokenReference,
    pub function_token: TokenReference,
    pub name: TokenReference,
    pub body: FunctionBody,
}

/// Ghost model of a [`LocalFunction`].
pub ghost struct LocalFunctionView {
    pub local_token: TokenReferenceView,
    pub function_token: TokenReferenceView,
    pub name: TokenReferenceView,
    pub body: FunctionBodyView,
}

/// A function declaration, such as `function t.f() end`.  The declared name
/// is carried as its raw token run; the rewrite never looks into it.
#[derive(Debug, PartialEq, Eq)]
pub struct FunctionDeclaration {
    pub function_token: TokenReference,
    pub name: Vec<Token>,
    pub body: FunctionBody,
}

/// Ghost model of a [`FunctionDeclaration`].
pub ghost struct FunctionDeclarationView {
    pub function_token: TokenReferenceView,
    pub name: Seq<TokenView>,
    pub body: FunctionBodyView,
}

/// A function call standing as a statement.
#[derive(Debug, PartialEq, Eq)]
pub struct FunctionCall {
    pub prefix: Prefix,
    pub suffixes: Vec<Suffix>,
}

/// Ghost model of a [`FunctionCall`].
pub ghost struct FunctionCallView {
    pub prefix: PrefixView,
    pub suffixes: Seq<SuffixView>,
}

impl View for FunctionCall {
    type V = FunctionCallView;

    open spec fn view(&self) -> FunctionCallView {
        FunctionCallView { prefix: self.prefix@, suffixes: suffixes_view(self.suffixes@) }
    }
}

/// A statement.  Kinds the rewrite does not treat specially are carried as
/// their flat runs of raw tokens; the rewrite gives them a single
/// trivia-trim pass and otherwise keeps them in place.
#[derive(Debug, PartialEq, Eq)]
pub enum Stmt {
    LocalAssignment(LocalAssignment),
    Assignment(Assignment),
    LocalFunction(Box<LocalFunction>),
    FunctionDeclaration(Box<FunctionDeclaration>),
    FunctionCall(FunctionCall),
    Other(Vec<Token>),
}

/// Ghost model of a [`Stmt`].
pub ghost enum StmtView {
    LocalAssignment(LocalAssignmentView),
    Assignment(AssignmentView),
    LocalFunction(Box<LocalFunctionView>),
    FunctionDeclaration(Box<FunctionDeclarationView>),
    FunctionCall(FunctionCallView),
    Other(Seq<TokenView>),
}

/// An ordered sequence of statements, each optionally followed by a
/// terminator token.  Any trailing `return` or `break` statement is carried
/// as its raw token run and passed through unchanged.
#[derive(Debug, PartialEq, Eq)]
pub struct Block {
    pub stmts: Vec<(Stmt, Option<TokenReference>)>,
    pub last_tokens: Vec<Token>,
}

/// Ghost model of a [`Block`].
pub ghost struct BlockView {
    pub stmts: Seq<(StmtView, Option<TokenReferenceView>)>,
    pub last_tokens: Seq<TokenView>,
}

/// The ghost model of a [`FunctionBody`], by structural recursion.
pub open spec fn function_body_view(fb: FunctionBody) -> FunctionBodyView
    decreases fb,
{
    FunctionBodyView {
        parameters_parentheses: fb.parameters_parentheses@,
        parameters: fb.parameters@,
        block: block_view(fb.block),
        end_token: fb.end_token@,
    }
}

/// The ghost model of a [`Stmt`], by structural recursion.
pub open spec fn stmt_view(s: Stmt) -> StmtView
    decreases s,
{
    match s {
        Stmt::LocalAssignment(x) => StmtView::LocalAssignment(x@),
        Stmt::Assignment(x) => StmtView::Assignment(x@),
        Stmt::LocalFunction(x) => StmtView::LocalFunction(
            Box::new(
                LocalFunctionView {
                    local_token: x.local_token@,
                    function_token: x.function_token@,
                    name: x.name@,
                    body: function_body_view(x.body),
                },
            ),
        ),
        Stmt::FunctionDeclaration(x) => StmtView::FunctionDeclaration(
            Box::new(
                FunctionDeclarationView {
                    function_token: x.function_token@,
                    name: tokens_view(x.name@),
                    body: function_body_view(x.body),
                },
            ),
        ),
        Stmt::FunctionCall(x) => StmtView::FunctionCall(x@),
        Stmt::Other(ts) => StmtView::Other(tokens_view(ts@)),
    }
}

/// The ghost model of a statement list, by structural recursion.
pub open spec fn stmt_pairs_view(s: Seq<(Stmt, Option<TokenReference>)>) -> Seq<
    (StmtView, Option<TokenReferenceView>),
>
    decreases s,
{
    if s.len() == 0 {
        Seq::empty()
    } else {
        seq![(stmt_view(s[0].0), opt_token_view(s[0].1))] + stmt_pairs_view(s.drop_first())
    }
}

/// The ghost model of a [`Block`], by structural recursion.
pub open spec fn block_view(b: Block) -> BlockView
    decreases b,
{
    BlockView { stmts: stmt_pairs_view(b.stmts@), last_tokens: tokens_view(b.last_tokens@) }
}

/// Indexing the ghost model of a statement list.
pub proof fn lemma_stmt_pairs_view_index(s: Seq<(Stmt, Option<TokenReference>)>)
    ensures
        stmt_pairs_view(s).len() == s.len(),
        forall|i: int|
            0 <= i < s.len() ==> stmt_pairs_view(s)[i] == (
                stmt_view(s[i].0),
                opt_token_view(s[i].1),
            ),
    decreases s.len(),
{
    if s.len() > 0 {
        lemma_stmt_pairs_view_index(s.drop_first());
        assert forall|i: int| 0 <= i < s.len() implies stmt_pairs_view(s)[i] == (
            stmt_view(s[i].0),
            opt_token_view(s[i].1),
        ) by {
            if i > 0 {
                assert(s.drop_first()[i - 1] == s[i]);
                assert(stmt_pairs_view(s)[i] == stmt_pairs_view(s.drop_first())[i - 1]);
            }
        }
    }
}

/// Appending a statement appends its ghost model.
pub proof fn lemma_stmt_pairs_view_push(
    s: Seq<(Stmt, Option<TokenReference>)>,
    p: (Stmt, Option<TokenReference>),
)
    ensures
        stmt_pairs_view(s.push(p)) == stmt_pairs_view(s) + seq![
            (stmt_view(p.0), opt_token_view(p.1)),
        ],
{
    lemma_stmt_pairs_view_index(s);
    lemma_stmt_pairs_view_index(s.push(p));
    assert(stmt_pairs_view(s.push(p)) =~= stmt_pairs_view(s) + seq![
        (stmt_view(p.0), opt_token_view(p.1)),
    ]);
}

/// Prepending a statement prepends its ghost model.
pub proof fn lemma_stmt_pairs_view_cons(
    s: Seq<(Stmt, Option<TokenReference>)>,
    p: (Stmt, Option<TokenReference>),
)
    ensures
        stmt_pairs_view(s.insert(0, p)) == seq![(stmt_view(p.0), opt_token_view(p.1))]
            + stmt_pairs_view(s),
{
    assert(s.insert(0, p)[0] == p);
    assert(s.insert(0, p).drop_first() =~= s);
    assert(stmt_pairs_view(s.insert(0, p)) =~= seq![(stmt_view(p.0), opt_token_view(p.1))]
        + stmt_pairs_view(s));
}

impl Expression {
    /// An exact copy of the expression.
    pub fn duplicate(&self) -> (r: Expression)
        ensures
            r@ == self@,
        decreases *self,
    {
        match self {
            Expression::Number(t) => Expression::Number(t.duplicate()),
            Expression::Str(t) => Expression::Str(t.duplicate()),
            Expression::Symbol(t) => Expression::Symbol(t.duplicate()),
            Expression::BinaryOperator { lhs, binop, rhs } => Expression::BinaryOperator {
                lhs: Box::new(lhs.duplicate()),
                binop: binop.duplicate(),
                rhs: Box::new(rhs.duplicate()),
            },
            Expression::Other(ts) => Expression::Other(duplicate_tokens(ts)),
        }
    }
}

impl View for Stmt {
    type V = StmtView;

    open spec fn view(&self) -> StmtView {
        stmt_view(*self)
    }
}

impl View for Block {
    type V = BlockView;

    open spec fn view(&self) -> BlockView {
        block_view(*self)
    }
}

impl View for FunctionBody {
    type V = FunctionBodyView;

    open spec fn view(&self) -> FunctionBodyView {
        function_body_view(*self)
    }
}

} // verus!
