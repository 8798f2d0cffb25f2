// Rewriting scenarios: identity rewrites are no-ops on the printed text, a
// token-text replacement leaves all trivia untouched, and re-zipped slot
// lists keep one slot per name.
use treewalk::ast::Expression;
use treewalk::ast::Index;
use treewalk::ast::LocalAssignment;
use treewalk::ast::TypeSpecifier;
use treewalk::ast::Var;
use treewalk::collect::print_expression;
use treewalk::collect::print_local_assignment;
use treewalk::collect::IdentityRewriter;
use treewalk::collect::TextReplacer;
use treewalk::collect::TokenCollector;
use treewalk::punctuated::ContainedSpan;
use treewalk::punctuated::Pair;
use treewalk::punctuated::Punctuated;
use treewalk::token::Token;

fn tok(text: &str) -> Token {
    Token::new(Vec::new(), text.as_bytes().to_vec(), Vec::new())
}

fn tok_trail(text: &str, trailing: &str) -> Token {
    Token::new(Vec::new(), text.as_bytes().to_vec(), trailing.as_bytes().to_vec())
}

fn local_x_equals_one() -> LocalAssignment {
    LocalAssignment {
        local_token: tok_trail("local", " "),
        name_list: Punctuated {
            pairs: vec![Pair { value: tok_trail("x", " "), separator: None }],
        },
        attributes: vec![None],
        type_specifiers: vec![None],
        equal_token: Some(tok_trail("=", " ")),
        expr_list: Punctuated {
            pairs: vec![Pair { value: Expression::Number(tok("1")), separator: None }],
        },
    }
}

#[test]
fn rewrite_and_print_replaces_only_the_literal() {
    let local = local_x_equals_one();
    assert_eq!(print_local_assignment(&local), b"local x = 1".to_vec());
    let mut rewriter = TextReplacer::new(b"1".to_vec(), b"2".to_vec());
    let rewritten = local.visit_mut(&mut rewriter);
    assert_eq!(print_local_assignment(&rewritten), b"local x = 2".to_vec());
}

#[test]
fn identity_rewrite_is_a_no_op() {
    let local = local_x_equals_one();
    let before = print_local_assignment(&local);
    let mut rewriter = IdentityRewriter::new();
    let rewritten = local.visit_mut(&mut rewriter);
    assert_eq!(print_local_assignment(&rewritten), before);
}

#[test]
fn identity_rewrite_preserves_nested_delimiters() {
    let expression = Expression::Parentheses {
        contained: ContainedSpan { open_token: tok("("), close_token: tok(")") },
        expression: Box::new(Expression::Var(Var::Indexed {
            base: tok("a"),
            index: Index::Brackets {
                brackets: ContainedSpan { open_token: tok("["), close_token: tok("]") },
                expression: Box::new(Expression::Number(tok("7"))),
            },
        })),
    };
    let mut rewriter = IdentityRewriter::new();
    let rewritten = expression.visit_mut(&mut rewriter);
    assert_eq!(print_expression(&rewritten), b"(a[7])".to_vec());
}

#[test]
fn rewrite_keeps_separator_arity() {
    let local = LocalAssignment {
        local_token: tok_trail("local", " "),
        name_list: Punctuated {
            pairs: vec![
                Pair { value: tok("a"), separator: Some(tok_trail(",", " ")) },
                Pair { value: tok_trail("b", " "), separator: None },
            ],
        },
        attributes: vec![None, None],
        type_specifiers: vec![
            Some(TypeSpecifier { punctuation: tok(":"), type_info: tok("T") }),
            None,
        ],
        equal_token: Some(tok_trail("=", " ")),
        expr_list: Punctuated {
            pairs: vec![
                Pair {
                    value: Expression::Number(tok("1")),
                    separator: Some(tok_trail(",", " ")),
                },
                Pair { value: Expression::Number(tok("2")), separator: None },
            ],
        },
    };
    let mut rewriter = IdentityRewriter::new();
    let rewritten = local.visit_mut(&mut rewriter);
    assert_eq!(rewritten.name_list.pairs.len(), 2);
    assert!(rewritten.name_list.pairs[0].separator.is_some());
    assert!(rewritten.name_list.pairs[1].separator.is_none());
    assert_eq!(rewritten.attributes.len(), 2);
    assert_eq!(rewritten.type_specifiers.len(), 2);
    assert!(rewritten.type_specifiers[0].is_some());
    assert!(rewritten.type_specifiers[1].is_none());
    assert_eq!(print_local_assignment(&rewritten), b"local a:T, b = 1, 2".to_vec());
}

#[test]
fn text_replacement_keeps_trivia() {
    let expression = Expression::BinaryOperator {
        lhs: Box::new(Expression::Number(Token::new(
            b"\t".to_vec(),
            b"1".to_vec(),
            b" ".to_vec(),
        ))),
        binop: tok_trail("+", " "),
        rhs: Box::new(Expression::Number(tok("1"))),
    };
    let mut rewriter = TextReplacer::new(b"1".to_vec(), b"10".to_vec());
    let rewritten = expression.visit_mut(&mut rewriter);
    assert_eq!(print_expression(&rewritten), b"\t10 + 10".to_vec());
}

#[test]
fn rewrite_collects_same_tokens_as_visit() {
    let local = local_x_equals_one();
    let mut before = TokenCollector::new();
    local.visit(&mut before);
    let mut rewriter = IdentityRewriter::new();
    let rewritten = local.visit_mut(&mut rewriter);
    let mut after = TokenCollector::new();
    rewritten.visit(&mut after);
    assert_eq!(before.token_texts(), after.token_texts());
    assert_eq!(before.printed(), after.printed());
}
