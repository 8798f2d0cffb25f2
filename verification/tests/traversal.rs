// Read-only traversal scenarios: delimiter ordering, dotted indexes, zip
// consistency, and byte-for-byte round trips of printed trees.
use treewalk::ast::Block;
use treewalk::ast::Expression;
use treewalk::ast::FunctionArgs;
use treewalk::ast::FunctionBody;
use treewalk::ast::GenericDeclaration;
use treewalk::ast::Index;
use treewalk::ast::LocalAssignment;
use treewalk::ast::Stmt;
use treewalk::ast::TypeSpecifier;
use treewalk::ast::Var;
use treewalk::collect::print_expression;
use treewalk::collect::TokenCollector;
use treewalk::punctuated::ContainedSpan;
use treewalk::punctuated::Pair;
use treewalk::punctuated::Punctuated;
use treewalk::token::Token;

fn tok(text: &str) -> Token {
    Token::new(Vec::new(), text.as_bytes().to_vec(), Vec::new())
}

fn tok_trail(text: &str, trailing: &str) -> Token {
    Token::new(Vec::new(), text.as_bytes().to_vec(), trailing.as_bytes().to_vec())
}

fn texts(strings: &[&str]) -> Vec<Vec<u8>> {
    strings.iter().map(|s| s.as_bytes().to_vec()).collect()
}

fn paren_one_plus_two() -> Expression {
    Expression::Parentheses {
        contained: ContainedSpan { open_token: tok("("), close_token: tok(")") },
        expression: Box::new(Expression::BinaryOperator {
            lhs: Box::new(Expression::Number(tok_trail("1", " "))),
            binop: tok_trail("+", " "),
            rhs: Box::new(Expression::Number(tok("2"))),
        }),
    }
}

#[test]
fn delimiter_ordering_parenthesized_expression() {
    let expression = paren_one_plus_two();
    let mut collector = TokenCollector::new();
    expression.visit(&mut collector);
    assert_eq!(collector.token_texts(), texts(&["(", "1", "+", "2", ")"]));
}

#[test]
fn round_trip_parenthesized_expression() {
    let expression = paren_one_plus_two();
    let mut collector = TokenCollector::new();
    expression.visit(&mut collector);
    assert_eq!(collector.printed(), b"(1 + 2)".to_vec());
    assert_eq!(print_expression(&expression), b"(1 + 2)".to_vec());
}

#[test]
fn dotted_index_reports_dot_then_name() {
    let expression = Expression::Var(Var::Indexed {
        base: tok("a"),
        index: Index::Dot { dot: tok("."), name: tok("b") },
    });
    let mut collector = TokenCollector::new();
    expression.visit(&mut collector);
    assert_eq!(collector.token_texts(), texts(&["a", ".", "b"]));
    assert_eq!(collector.printed(), b"a.b".to_vec());
}

fn two_names() -> Punctuated<Token> {
    Punctuated {
        pairs: vec![
            Pair { value: tok("a"), separator: Some(tok_trail(",", " ")) },
            Pair { value: tok_trail("b", " "), separator: None },
        ],
    }
}

fn one_two_exprs() -> Punctuated<Expression> {
    Punctuated {
        pairs: vec![
            Pair {
                value: Expression::Number(tok("1")),
                separator: Some(tok_trail(",", " ")),
            },
            Pair { value: Expression::Number(tok("2")), separator: None },
        ],
    }
}

#[test]
fn zip_inactive_slots_walk_only_the_list() {
    let local = LocalAssignment {
        local_token: tok_trail("local", " "),
        name_list: two_names(),
        attributes: Vec::new(),
        type_specifiers: Vec::new(),
        equal_token: Some(tok_trail("=", " ")),
        expr_list: one_two_exprs(),
    };
    let mut collector = TokenCollector::new();
    local.visit(&mut collector);
    assert_eq!(
        collector.token_texts(),
        texts(&["local", "a", ",", "b", "=", "1", ",", "2"])
    );
    assert_eq!(collector.printed(), b"local a, b = 1, 2".to_vec());
}

#[test]
fn zip_active_slots_interleave_per_name() {
    let local = LocalAssignment {
        local_token: tok_trail("local", " "),
        name_list: two_names(),
        attributes: vec![None, None],
        type_specifiers: vec![
            Some(TypeSpecifier {
                punctuation: tok(":"),
                type_info: tok_trail("number", ""),
            }),
            None,
        ],
        equal_token: Some(tok_trail("=", " ")),
        expr_list: one_two_exprs(),
    };
    let mut collector = TokenCollector::new();
    local.visit(&mut collector);
    assert_eq!(
        collector.token_texts(),
        texts(&["local", "a", ":", "number", ",", "b", "=", "1", ",", "2"])
    );
}

#[test]
fn function_body_zips_parameters_and_covers_every_token() {
    let body = FunctionBody {
        generics: Some(GenericDeclaration {
            arrows: ContainedSpan { open_token: tok("<"), close_token: tok(">") },
            generics: Punctuated {
                pairs: vec![Pair { value: tok("T"), separator: None }],
            },
        }),
        parameters_parentheses: ContainedSpan { open_token: tok("("), close_token: tok(")") },
        parameters: Punctuated {
            pairs: vec![
                Pair { value: tok("x"), separator: Some(tok_trail(",", " ")) },
                Pair { value: tok("y"), separator: None },
            ],
        },
        type_specifiers: vec![
            Some(TypeSpecifier {
                punctuation: tok_trail(":", " "),
                type_info: tok("T"),
            }),
            None,
        ],
        return_type: Some(TypeSpecifier {
            punctuation: tok_trail(":", " "),
            type_info: tok_trail("T", " "),
        }),
        block: Block {
            statements: vec![Stmt::LocalAssignment(LocalAssignment {
                local_token: tok_trail("local", " "),
                name_list: Punctuated {
                    pairs: vec![Pair { value: tok_trail("z", " "), separator: None }],
                },
                attributes: vec![None],
                type_specifiers: vec![None],
                equal_token: Some(tok_trail("=", " ")),
                expr_list: Punctuated {
                    pairs: vec![Pair {
                        value: Expression::Var(Var::Name(tok_trail("x", " "))),
                        separator: None,
                    }],
                },
            })],
        },
        end_token: tok("end"),
    };
    let mut collector = TokenCollector::new();
    body.visit(&mut collector);
    assert_eq!(
        collector.token_texts(),
        texts(&["<", "T", ">", "(", "x", ":", "T", ",", "y", ")", ":", "T", "local", "z", "=", "x", "end"])
    );
    assert_eq!(collector.printed(), b"<T>(x: T, y): T local z = x end".to_vec());
}

#[test]
fn empty_argument_list_visits_only_delimiters() {
    let args = FunctionArgs::Parentheses {
        parentheses: ContainedSpan { open_token: tok("("), close_token: tok(")") },
        arguments: Punctuated::new(),
    };
    let mut collector = TokenCollector::new();
    args.visit(&mut collector);
    assert_eq!(collector.token_texts(), texts(&["(", ")"]));
}

#[test]
fn punctuated_builder_keeps_push_order() {
    let mut arguments: Punctuated<Expression> = Punctuated::new();
    arguments.push(Expression::Number(tok("1")), Some(tok_trail(",", " ")));
    arguments.push(Expression::Number(tok("2")), None);
    assert_eq!(arguments.len(), 2);
    let args = FunctionArgs::Parentheses {
        parentheses: ContainedSpan { open_token: tok("("), close_token: tok(")") },
        arguments,
    };
    let mut collector = TokenCollector::new();
    args.visit(&mut collector);
    assert_eq!(collector.printed(), b"(1, 2)".to_vec());
}

#[test]
fn leading_trivia_is_preserved_in_print() {
    let token = Token::new(b"-- note\n".to_vec(), b"x".to_vec(), b" ".to_vec());
    let expression = Expression::Var(Var::Name(token));
    assert_eq!(print_expression(&expression), b"-- note\nx ".to_vec());
}
