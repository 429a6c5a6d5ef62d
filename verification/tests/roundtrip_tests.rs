//! The minified output must itself be valid source: whatever the upstream
//! grammar accepted, the rewritten text re-parses under the same grammar.

use luamine::ast::{
    Assignment, Block, ContainedSpan, Expression, FunctionBody, LocalAssignment, LocalFunction,
    Pair, Punctuated, Stmt, Token, TokenKind, TokenReference, Var,
};
use luamine::minifier::Minifier;
use luamine::render::render_block;

fn ws() -> Token {
    Token { kind: TokenKind::Whitespace, text: " ".to_string() }
}

fn sym(text: &str) -> Token {
    Token { kind: TokenKind::Symbol, text: text.to_string() }
}

fn ident_tok(text: &str) -> Token {
    Token { kind: TokenKind::Identifier, text: text.to_string() }
}

fn num_tok(text: &str) -> Token {
    Token { kind: TokenKind::Number, text: text.to_string() }
}

fn tr(leading: Vec<Token>, token: Token, trailing: Vec<Token>) -> TokenReference {
    TokenReference { leading, token, trailing }
}

fn punctuated<T>(mut items: Vec<T>) -> Punctuated<T> {
    let n = items.len();
    let mut pairs = Vec::new();
    for (i, value) in items.drain(..).enumerate() {
        let punctuation = if i + 1 == n {
            None
        } else {
            Some(tr(vec![], sym(","), vec![ws()]))
        };
        pairs.push(Pair { value, punctuation });
    }
    Punctuated { pairs }
}

fn local_decl(names: Vec<&str>, exprs: Vec<&str>) -> Stmt {
    let name_refs = names
        .iter()
        .map(|n| tr(vec![], ident_tok(n), vec![ws()]))
        .collect::<Vec<_>>();
    let expr_vals = exprs
        .iter()
        .map(|e| Expression::Number(tr(vec![ws()], num_tok(e), vec![])))
        .collect::<Vec<_>>();
    Stmt::LocalAssignment(LocalAssignment {
        local_token: tr(vec![], sym("local"), vec![ws()]),
        names: punctuated(name_refs),
        equal_token: Some(tr(vec![], sym("="), vec![])),
        expressions: punctuated(expr_vals),
    })
}

fn assignment(name: &str, expr: &str) -> Stmt {
    Stmt::Assignment(Assignment {
        variables: punctuated(vec![Var::Name(tr(vec![], ident_tok(name), vec![ws()]))]),
        equal_token: tr(vec![], sym("="), vec![]),
        expressions: punctuated(vec![Expression::Number(tr(vec![ws()], num_tok(expr), vec![]))]),
    })
}

fn block_of(stmts: Vec<Stmt>) -> Block {
    Block { stmts: stmts.into_iter().map(|s| (s, None)).collect(), last_tokens: vec![] }
}

#[test]
fn minified_locals_and_assignments_reparse() {
    let block = block_of(vec![
        local_decl(vec!["x"], vec!["1"]),
        local_decl(vec!["y", "z"], vec!["2"]),
        assignment("g", "3"),
        assignment("h", "4"),
    ]);
    let mut minifier = Minifier::new("");
    let out = minifier.minify_block(&block);
    let text = render_block(&out);
    assert_eq!(text, "a,b=3,4;local x,y,z=1,2,nil;");
    assert!(full_moon::parse(&text).is_ok());
}

#[test]
fn minified_nested_function_reparses() {
    let inner = block_of(vec![local_decl(vec!["a"], vec!["1"])]);
    let local_fn = Stmt::LocalFunction(Box::new(LocalFunction {
        local_token: tr(vec![], sym("local"), vec![ws()]),
        function_token: tr(vec![], sym("function"), vec![ws()]),
        name: tr(vec![], ident_tok("f"), vec![]),
        body: FunctionBody {
            parameters_parentheses: ContainedSpan {
                start: tr(vec![], sym("("), vec![]),
                end: tr(vec![], sym(")"), vec![ws()]),
            },
            parameters: Punctuated { pairs: vec![] },
            block: inner,
            end_token: tr(vec![ws()], sym("end"), vec![]),
        },
    }));
    let block = block_of(vec![local_fn, assignment("g", "5")]);
    let mut minifier = Minifier::new("");
    let out = minifier.minify_block(&block);
    let text = render_block(&out);
    assert!(full_moon::parse(&text).is_ok(), "output did not re-parse: {text}");
}

#[test]
fn minified_unhandled_statement_reparses() {
    let raw = Stmt::Other(vec![
        sym("do"),
        ws(),
        ws(),
        sym("end"),
    ]);
    let block = block_of(vec![raw, local_decl(vec!["x"], vec!["1"])]);
    let mut minifier = Minifier::new("");
    let out = minifier.minify_block(&block);
    let text = render_block(&out);
    assert_eq!(text, "local x=1;do end;");
    assert!(full_moon::parse(&text).is_ok(), "output did not re-parse: {text}");
}

#[test]
fn untouched_tree_renders_losslessly_and_reparses() {
    let source = "local x = 1 return 7";
    let block = Block {
        stmts: vec![(local_decl(vec!["x"], vec!["1"]), None)],
        last_tokens: vec![ws(), sym("return"), ws(), num_tok("7")],
    };
    let text = render_block(&block);
    assert_eq!(text, source);
    assert!(full_moon::parse(&text).is_ok());
}
