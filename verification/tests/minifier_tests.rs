use luamine::ast::{
    Assignment, Block, ContainedSpan, Expression, FunctionArgs, FunctionBody, LocalAssignment,
    LocalFunction, Pair, Punctuated, Stmt, Token, TokenKind, TokenReference, Var,
};
use luamine::minifier::{Minifier, check_block_wf};
use luamine::render::render_block;
use luamine::utils::{NameMap, generate_next_name, generate_shortest_names};
use luamine::whitespace::{append, trim, trim_exp, trim_leading, trim_token};

fn ws() -> Token {
    Token { kind: TokenKind::Whitespace, text: " ".to_string() }
}

fn comment(text: &str) -> Token {
    Token { kind: TokenKind::Comment, text: text.to_string() }
}

fn sym(text: &str) -> Token {
    Token { kind: TokenKind::Symbol, text: text.to_string() }
}

fn ident_tok(text: &str) -> Token {
    Token { kind: TokenKind::Identifier, text: text.to_string() }
}

fn num_tok(text: &str) -> Token {
    Token { kind: TokenKind::Number, text: text.to_string() }
}

fn tr(leading: Vec<Token>, token: Token, trailing: Vec<Token>) -> TokenReference {
    TokenReference { leading, token, trailing }
}

fn bare(token: Token) -> TokenReference {
    tr(vec![], token, vec![])
}

/// A punctuated list of the given items, comma-separated as in source text.
fn punctuated<T>(mut items: Vec<T>) -> Punctuated<T> {
    let n = items.len();
    let mut pairs = Vec::new();
    for (i, value) in items.drain(..).enumerate() {
        let punctuation = if i + 1 == n {
            None
        } else {
            Some(tr(vec![], sym(","), vec![ws()]))
        };
        pairs.push(Pair { value, punctuation });
    }
    Punctuated { pairs }
}

/// `local a, b = 1, 2` with ordinary spacing.
fn local_decl(names: Vec<&str>, exprs: Vec<&str>) -> Stmt {
    let name_refs = names
        .iter()
        .map(|n| tr(vec![], ident_tok(n), vec![ws()]))
        .collect::<Vec<_>>();
    let expr_vals = exprs
        .iter()
        .map(|e| Expression::Number(tr(vec![ws()], num_tok(e), vec![])))
        .collect::<Vec<_>>();
    Stmt::LocalAssignment(LocalAssignment {
        local_token: tr(vec![], sym("local"), vec![ws()]),
        names: punctuated(name_refs),
        equal_token: if exprs.is_empty() {
            None
        } else {
            Some(tr(vec![], sym("="), vec![]))
        },
        expressions: punctuated(expr_vals),
    })
}

/// `p = 1` with ordinary spacing.
fn assignment(name: &str, expr: &str) -> Stmt {
    Stmt::Assignment(Assignment {
        variables: punctuated(vec![Var::Name(tr(vec![], ident_tok(name), vec![ws()]))]),
        equal_token: tr(vec![], sym("="), vec![]),
        expressions: punctuated(vec![Expression::Number(tr(vec![ws()], num_tok(expr), vec![]))]),
    })
}

fn block_of(stmts: Vec<Stmt>) -> Block {
    Block {
        stmts: stmts.into_iter().map(|s| (s, None)).collect(),
        last_tokens: vec![],
    }
}

#[test]
fn trim_removes_whitespace_trivia_keeps_comments() {
    let t = tr(
        vec![ws(), comment("--[[keep]]"), ws()],
        ident_tok("x"),
        vec![ws()],
    );
    let trimmed = trim(&t);
    assert_eq!(trimmed.leading, vec![comment("--[[keep]]")]);
    assert_eq!(trimmed.token, ident_tok("x"));
    assert_eq!(trimmed.trailing, Vec::<Token>::new());
}

#[test]
fn trim_leading_keeps_trailing_trivia() {
    let t = tr(vec![ws()], sym("local"), vec![ws()]);
    let trimmed = trim_leading(&t);
    assert_eq!(trimmed.leading, Vec::<Token>::new());
    assert_eq!(trimmed.trailing, vec![ws()]);
}

#[test]
fn trim_on_whitespace_token_yields_empty_symbol() {
    let t = tr(vec![], ws(), vec![]);
    let trimmed = trim(&t);
    assert_eq!(trimmed.token, sym(""));
    assert!(trimmed.leading.is_empty() && trimmed.trailing.is_empty());
}

#[test]
fn trim_token_filters_whitespace_only() {
    let out = trim_token(&vec![ws(), comment("-- c"), ws(), ws(), comment("--d")]);
    assert_eq!(out, vec![comment("-- c"), comment("--d")]);
}

#[test]
fn trimming_twice_changes_nothing_on_tokens() {
    let t = tr(vec![ws(), comment("--x"), ws()], ident_tok("y"), vec![ws()]);
    let once = trim(&t);
    let twice = trim(&once);
    assert_eq!(once, twice);
}

#[test]
fn trimming_twice_changes_nothing_on_expressions() {
    let e = Expression::BinaryOperator {
        lhs: Box::new(Expression::Number(tr(vec![ws()], num_tok("1"), vec![ws()]))),
        binop: tr(vec![ws()], sym("+"), vec![ws()]),
        rhs: Box::new(Expression::Number(tr(vec![ws()], num_tok("2"), vec![]))),
    };
    let once = trim_exp(&e);
    let twice = trim_exp(&once);
    assert_eq!(once, twice);
}

#[test]
fn append_adds_single_spaces() {
    let t = bare(sym("function"));
    let both = append(&t, true, true);
    assert_eq!(both.leading, vec![ws()]);
    assert_eq!(both.trailing, vec![ws()]);
    let lead_only = append(&t, true, false);
    assert_eq!(lead_only.leading, vec![ws()]);
    assert!(lead_only.trailing.is_empty());
}

#[test]
fn next_name_sequence_start() {
    assert_eq!(generate_next_name(0), "a");
    assert_eq!(generate_next_name(1), "b");
    assert_eq!(generate_next_name(25), "z");
}

#[test]
fn next_name_sequence_carries() {
    assert_eq!(generate_next_name(26), "aa");
    assert_eq!(generate_next_name(27), "ab");
    assert_eq!(generate_next_name(51), "az");
    assert_eq!(generate_next_name(52), "ba");
    assert_eq!(generate_next_name(701), "zz");
    assert_eq!(generate_next_name(702), "aaa");
}

#[test]
fn name_map_is_injective_and_stable() {
    let mut map = NameMap::new();
    let originals = ["foo", "bar", "baz", "qux"];
    for name in originals {
        generate_shortest_names(&mut map, name.to_string());
    }
    let mut assigned = Vec::new();
    for name in originals {
        let minified = map.get(&name.to_string()).unwrap();
        assert!(!assigned.contains(&minified));
        assigned.push(minified);
    }
    // Registering more names never changes an earlier assignment.
    generate_shortest_names(&mut map, "quux".to_string());
    for (name, earlier) in originals.iter().zip(assigned.iter()) {
        assert_eq!(map.get(&name.to_string()).unwrap(), *earlier);
    }
    assert_eq!(map.get(&"foo".to_string()).unwrap(), "a");
    assert_eq!(map.get(&"quux".to_string()).unwrap(), "e");
}

#[test]
fn re_registering_a_name_keeps_the_map() {
    let mut map = NameMap::new();
    generate_shortest_names(&mut map, "foo".to_string());
    // A second registration of the same original leaves its entry — and the
    // whole map — unchanged.
    generate_shortest_names(&mut map, "foo".to_string());
    assert_eq!(map.get(&"foo".to_string()).unwrap(), "a");
    generate_shortest_names(&mut map, "bar".to_string());
    assert_eq!(map.get(&"bar".to_string()).unwrap(), "b");
}

#[test]
fn twenty_seventh_global_name_is_aa() {
    let mut map = NameMap::new();
    for i in 0..27 {
        generate_shortest_names(&mut map, format!("global{}", i));
    }
    assert_eq!(map.get(&"global0".to_string()).unwrap(), "a");
    assert_eq!(map.get(&"global26".to_string()).unwrap(), "aa");
}

#[test]
fn two_local_declarations_coalesce() {
    let block = block_of(vec![local_decl(vec!["x"], vec!["1"]), local_decl(
        vec!["y"],
        vec!["2"],
    )]);
    let mut minifier = Minifier::new("local x = 1\nlocal y = 2");
    assert!(check_block_wf(&block));
    let out = minifier.minify_block(&block);
    assert_eq!(out.stmts.len(), 1);
    assert_eq!(render_block(&out), "local x,y=1,2;");
    // The ";" is the combined statement's terminator; the expression list
    // itself is a well-formed punctuated sequence whose last item carries
    // no separator.
    assert_eq!(out.stmts[0].1, Some(bare(sym(";"))));
    match &out.stmts[0].0 {
        Stmt::LocalAssignment(la) => {
            assert_eq!(la.expressions.pairs.last().unwrap().punctuation, None);
        }
        other => panic!("unexpected statement: {other:?}"),
    }
}

#[test]
fn missing_initializer_padded_with_nil() {
    let block = block_of(vec![local_decl(vec!["a", "b"], vec!["1"])]);
    let mut minifier = Minifier::new("local a, b = 1");
    let out = minifier.minify_block(&block);
    assert_eq!(out.stmts.len(), 1);
    assert_eq!(render_block(&out), "local a,b=1,nil;");
}

#[test]
fn bare_local_declaration_padded_with_nil() {
    let block = block_of(vec![local_decl(vec!["x"], vec![])]);
    let mut minifier = Minifier::new("local x");
    let out = minifier.minify_block(&block);
    assert_eq!(render_block(&out), "local x=nil;");
}

#[test]
fn two_assignments_coalesce_with_minified_names() {
    let block = block_of(vec![assignment("p", "1"), assignment("q", "2")]);
    let mut minifier = Minifier::new("p = 1\nq = 2");
    let out = minifier.minify_block(&block);
    assert_eq!(out.stmts.len(), 1);
    assert!(matches!(out.stmts[0].0, Stmt::Assignment(_)));
    assert_eq!(render_block(&out), "a,b=1,2;");
}

#[test]
fn repeated_assignment_target_keeps_its_minified_name() {
    let block = block_of(vec![
        assignment("p", "1"),
        assignment("q", "2"),
        assignment("p", "3"),
    ]);
    let mut minifier = Minifier::new("p = 1\nq = 2\np = 3");
    let out = minifier.minify_block(&block);
    assert_eq!(render_block(&out), "a,b,a=1,2,3;");
}

#[test]
fn combined_assignment_precedes_combined_local() {
    let block = block_of(vec![local_decl(vec!["x"], vec!["1"]), assignment("g", "2")]);
    let mut minifier = Minifier::new("local x = 1\ng = 2");
    let out = minifier.minify_block(&block);
    assert_eq!(out.stmts.len(), 2);
    assert!(matches!(out.stmts[0].0, Stmt::Assignment(_)));
    assert!(matches!(out.stmts[1].0, Stmt::LocalAssignment(_)));
    assert_eq!(render_block(&out), "a=2;local x=1;");
}

#[test]
fn function_call_statement_is_trimmed_in_place() {
    let call = Stmt::FunctionCall(luamine::ast::FunctionCall {
        prefix: luamine::ast::Prefix::Name(tr(vec![], ident_tok("print"), vec![ws()])),
        suffixes: vec![luamine::ast::Suffix::Call(luamine::ast::Call::AnonymousCall(
            FunctionArgs::Parentheses {
                parentheses: ContainedSpan {
                    start: tr(vec![], sym("("), vec![ws()]),
                    end: tr(vec![ws()], sym(")"), vec![]),
                },
                arguments: punctuated(vec![Expression::Number(tr(
                    vec![ws()],
                    num_tok("1"),
                    vec![ws()],
                ))]),
            },
        ))],
    });
    let block = block_of(vec![call]);
    let mut minifier = Minifier::new("print ( 1 )");
    let out = minifier.minify_block(&block);
    assert_eq!(render_block(&out), "print(1);");
}

#[test]
fn unhandled_statement_passes_through_with_terminator() {
    let raw = Stmt::Other(vec![
        sym("while"),
        ws(),
        sym("true"),
        ws(),
        sym("do"),
        ws(),
        sym("end"),
    ]);
    let block = block_of(vec![raw]);
    let mut minifier = Minifier::new("while true do end");
    let out = minifier.minify_block(&block);
    assert_eq!(render_block(&out), "while true do end;");
}

#[test]
fn unhandled_statement_gets_a_trivia_trim_pass() {
    // Runs of whitespace collapse to the single separating space; the
    // significant tokens and their order are untouched.
    let newline = Token { kind: TokenKind::Whitespace, text: "\n".to_string() };
    let raw = Stmt::Other(vec![
        sym("do"),
        ws(),
        ws(),
        newline,
        sym("end"),
        ws(),
    ]);
    let block = block_of(vec![raw]);
    let mut minifier = Minifier::new("do  \nend ");
    let out = minifier.minify_block(&block);
    assert_eq!(render_block(&out), "do end ;");
    match &out.stmts[0].0 {
        Stmt::Other(tokens) => {
            assert_eq!(*tokens, vec![sym("do"), ws(), sym("end"), ws()]);
        }
        other => panic!("unexpected statement: {other:?}"),
    }
}

#[test]
fn opaque_expression_gets_a_trivia_trim_pass() {
    let raw = Expression::Other(vec![
        sym("("),
        ws(),
        ws(),
        num_tok("1"),
        ws(),
        sym(")"),
    ]);
    let trimmed = trim_exp(&raw);
    assert_eq!(
        trimmed,
        Expression::Other(vec![sym("("), ws(), num_tok("1"), ws(), sym(")")])
    );
}

#[test]
fn binary_operator_token_is_trimmed() {
    let e = Expression::BinaryOperator {
        lhs: Box::new(Expression::Number(bare(num_tok("1")))),
        binop: tr(vec![ws()], sym("+"), vec![ws()]),
        rhs: Box::new(Expression::Number(bare(num_tok("2")))),
    };
    let trimmed = trim_exp(&e);
    assert_eq!(
        trimmed,
        Expression::BinaryOperator {
            lhs: Box::new(Expression::Number(bare(num_tok("1")))),
            binop: bare(sym("+")),
            rhs: Box::new(Expression::Number(bare(num_tok("2")))),
        }
    );
}

#[test]
fn nested_function_body_is_rewritten() {
    let inner = block_of(vec![local_decl(vec!["a"], vec!["1"]), local_decl(
        vec!["b"],
        vec!["2"],
    )]);
    let local_fn = Stmt::LocalFunction(Box::new(LocalFunction {
        local_token: tr(vec![], sym("local"), vec![ws()]),
        function_token: tr(vec![], sym("function"), vec![ws()]),
        name: bare(ident_tok("f")),
        body: FunctionBody {
            parameters_parentheses: ContainedSpan {
                start: bare(sym("(")),
                end: tr(vec![], sym(")"), vec![ws()]),
            },
            parameters: Punctuated { pairs: vec![] },
            block: inner,
            end_token: tr(vec![ws()], sym("end"), vec![]),
        },
    }));
    let block = block_of(vec![local_fn]);
    let mut minifier = Minifier::new("local function f( ) local a = 1 local b = 2 end");
    let out = minifier.minify_block(&block);
    assert_eq!(out.stmts.len(), 1);
    assert_eq!(
        render_block(&out),
        "local  function  f()local a,b=1,2;end;"
    );
}

#[test]
fn minify_function_args_trims_and_repunctuates() {
    let minifier = Minifier::new("");
    let args = FunctionArgs::Parentheses {
        parentheses: ContainedSpan {
            start: tr(vec![], sym("("), vec![ws()]),
            end: tr(vec![ws()], sym(")"), vec![]),
        },
        arguments: punctuated(vec![
            Expression::Number(tr(vec![ws()], num_tok("1"), vec![])),
            Expression::Number(tr(vec![ws()], num_tok("2"), vec![])),
        ]),
    };
    let out = minifier.minify_function_args(&args);
    let expected = FunctionArgs::Parentheses {
        parentheses: ContainedSpan { start: bare(sym("(")), end: bare(sym(")")) },
        arguments: Punctuated {
            pairs: vec![
                Pair {
                    value: Expression::Number(bare(num_tok("1"))),
                    punctuation: Some(bare(sym(","))),
                },
                Pair { value: Expression::Number(bare(num_tok("2"))), punctuation: None },
            ],
        },
    };
    assert_eq!(out, expected);
}

#[test]
fn well_formedness_rejects_extra_initializers() {
    let bad = block_of(vec![local_decl(vec!["x"], vec!["1", "2"])]);
    assert!(!check_block_wf(&bad));
    let good = block_of(vec![local_decl(vec!["x", "y"], vec!["1"])]);
    assert!(check_block_wf(&good));
}

#[test]
fn renderer_reproduces_untouched_text() {
    let block = Block {
        stmts: vec![(local_decl(vec!["x"], vec!["1"]), None)],
        last_tokens: vec![ws(), sym("return"), ws(), num_tok("7")],
    };
    assert_eq!(render_block(&block), "local x = 1 return 7");
}

#[test]
fn empty_block_renders_empty() {
    let block = block_of(vec![]);
    let mut minifier = Minifier::new("");
    let out = minifier.minify_block(&block);
    assert_eq!(render_block(&out), "");
}

#[test]
fn binary_operation_operands_are_trimmed() {
    let expr = Expression::BinaryOperator {
        lhs: Box::new(Expression::Number(tr(vec![ws()], num_tok("1"), vec![ws()]))),
        binop: bare(sym("+")),
        rhs: Box::new(Expression::Number(tr(vec![ws()], num_tok("2"), vec![]))),
    };
    let stmt = Stmt::LocalAssignment(LocalAssignment {
        local_token: tr(vec![], sym("local"), vec![ws()]),
        names: punctuated(vec![tr(vec![], ident_tok("x"), vec![ws()])]),
        equal_token: Some(tr(vec![], sym("="), vec![])),
        expressions: punctuated(vec![expr]),
    });
    let mut minifier = Minifier::new("local x = 1 + 2");
    let out = minifier.minify_block(&block_of(vec![stmt]));
    assert_eq!(render_block(&out), "local x=1+2;");
}

#[test]
fn indexed_assignment_target_is_trimmed_not_renamed() {
    let target = Var::Expression(Box::new(luamine::ast::VarExpression {
        prefix: luamine::ast::Prefix::Name(tr(vec![], ident_tok("t"), vec![ws()])),
        suffixes: vec![luamine::ast::Suffix::Index(luamine::ast::Index::Brackets {
            brackets: ContainedSpan {
                start: tr(vec![], sym("["), vec![ws()]),
                end: tr(vec![ws()], sym("]"), vec![ws()]),
            },
            expression: Expression::Number(tr(vec![ws()], num_tok("1"), vec![ws()])),
        })],
    }));
    let stmt = Stmt::Assignment(Assignment {
        variables: punctuated(vec![target]),
        equal_token: tr(vec![], sym("="), vec![]),
        expressions: punctuated(vec![Expression::Number(tr(vec![ws()], num_tok("2"), vec![]))]),
    });
    let mut minifier = Minifier::new("t [ 1 ] = 2");
    let out = minifier.minify_block(&block_of(vec![stmt]));
    assert_eq!(render_block(&out), "t[1]=2;");
}

#[test]
fn table_constructor_arguments_are_trimmed() {
    let minifier = Minifier::new("");
    let args = FunctionArgs::TableConstructor(luamine::ast::TableConstructor {
        braces: ContainedSpan {
            start: tr(vec![], sym("{"), vec![ws()]),
            end: tr(vec![ws()], sym("}"), vec![]),
        },
        fields: punctuated(vec![
            luamine::ast::Field::NameKey {
                key: tr(vec![], ident_tok("k"), vec![ws()]),
                equal: tr(vec![], sym("="), vec![ws()]),
                value: Expression::Number(tr(vec![ws()], num_tok("1"), vec![ws()])),
            },
            luamine::ast::Field::NoKey(Expression::Number(tr(vec![ws()], num_tok("2"), vec![]))),
        ]),
    });
    let out = minifier.minify_function_args(&args);
    match out {
        FunctionArgs::TableConstructor(tc) => {
            // The braces are carried over unchanged.
            assert_eq!(tc.braces.start, tr(vec![], sym("{"), vec![ws()]));
            assert_eq!(tc.braces.end, tr(vec![ws()], sym("}"), vec![]));
            assert_eq!(tc.fields.pairs.len(), 2);
            match &tc.fields.pairs[0].value {
                luamine::ast::Field::NameKey { key, equal, value } => {
                    assert_eq!(*key, bare(ident_tok("k")));
                    // The equals token of a field is carried over unchanged.
                    assert_eq!(*equal, tr(vec![], sym("="), vec![ws()]));
                    assert_eq!(*value, Expression::Number(bare(num_tok("1"))));
                }
                other => panic!("unexpected field: {other:?}"),
            }
            // A positional field passes through untrimmed.
            assert_eq!(
                tc.fields.pairs[1].value,
                luamine::ast::Field::NoKey(Expression::Number(tr(vec![ws()], num_tok("2"), vec![])))
            );
            assert_eq!(tc.fields.pairs[0].punctuation, Some(bare(sym(","))));
            assert_eq!(tc.fields.pairs[1].punctuation, None);
        }
        other => panic!("unexpected arguments: {other:?}"),
    }
}

#[test]
fn renaming_is_shared_with_nested_bodies() {
    let inner = block_of(vec![assignment("g", "2")]);
    let local_fn = Stmt::LocalFunction(Box::new(LocalFunction {
        local_token: tr(vec![], sym("local"), vec![ws()]),
        function_token: tr(vec![], sym("function"), vec![ws()]),
        name: bare(ident_tok("f")),
        body: FunctionBody {
            parameters_parentheses: ContainedSpan {
                start: bare(sym("(")),
                end: tr(vec![], sym(")"), vec![ws()]),
            },
            parameters: Punctuated { pairs: vec![] },
            block: inner,
            end_token: tr(vec![ws()], sym("end"), vec![]),
        },
    }));
    let block = block_of(vec![assignment("g", "1"), local_fn]);
    let mut minifier = Minifier::new("g = 1 local function f( ) g = 2 end");
    let out = minifier.minify_block(&block);
    assert_eq!(render_block(&out), "a=1;local  function  f()a=2;end;");
}

#[test]
fn minifier_runs_are_independent() {
    let block = block_of(vec![assignment("p", "1")]);
    let mut first = Minifier::new("p = 1");
    let first_out = first.minify_block(&block);
    let block_again = block_of(vec![assignment("p", "1")]);
    let mut second = Minifier::new("p = 1");
    let second_out = second.minify_block(&block_again);
    assert_eq!(render_block(&first_out), render_block(&second_out));
    assert_eq!(render_block(&first_out), "a=1;");
}
