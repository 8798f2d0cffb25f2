// Exhaustiveness: every variant of every tagged union is traversed down to
// at least one leaf token, so no variant is silently skipped.
use treewalk::ast::Block;
use treewalk::ast::Expression;
use treewalk::ast::Field;
use treewalk::ast::FunctionArgs;
use treewalk::ast::FunctionBody;
use treewalk::ast::FunctionCall;
use treewalk::ast::GenericFor;
use treewalk::ast::IfExpression;
use treewalk::ast::Index;
use treewalk::ast::InterpolatedString;
use treewalk::ast::LocalAssignment;
use treewalk::ast::NumericFor;
use treewalk::ast::Stmt;
use treewalk::ast::TableConstructor;
use treewalk::ast::TypeAssertion;
use treewalk::ast::TypeSpecifier;
use treewalk::ast::Var;
use treewalk::collect::TokenCollector;
use treewalk::punctuated::ContainedSpan;
use treewalk::punctuated::Pair;
use treewalk::punctuated::Punctuated;
use treewalk::token::Token;

fn tok(text: &str) -> Token {
    Token::new(Vec::new(), text.as_bytes().to_vec(), Vec::new())
}

fn tok_trail(text: &str, trailing: &str) -> Token {
    Token::new(Vec::new(), text.as_bytes().to_vec(), trailing.as_bytes().to_vec())
}

fn span(open: &str, close: &str) -> ContainedSpan {
    ContainedSpan { open_token: tok(open), close_token: tok(close) }
}

fn number(text: &str) -> Expression {
    Expression::Number(tok(text))
}

fn table() -> TableConstructor {
    TableConstructor {
        braces: span("{", "}"),
        fields: Punctuated {
            pairs: vec![Pair { value: Field::NoKey(Box::new(number("1"))), separator: None }],
        },
    }
}

fn body() -> FunctionBody {
    FunctionBody {
        generics: None,
        parameters_parentheses: span("(", ")"),
        parameters: Punctuated::new(),
        type_specifiers: Vec::new(),
        return_type: None,
        block: Block { statements: Vec::new() },
        end_token: tok("end"),
    }
}

fn local() -> LocalAssignment {
    LocalAssignment {
        local_token: tok_trail("local", " "),
        name_list: Punctuated {
            pairs: vec![Pair { value: tok("x"), separator: None }],
        },
        attributes: vec![None],
        type_specifiers: vec![None],
        equal_token: None,
        expr_list: Punctuated::new(),
    }
}

fn generic_for() -> GenericFor {
    GenericFor {
        for_token: tok_trail("for", " "),
        names: Punctuated {
            pairs: vec![Pair { value: tok_trail("k", " "), separator: None }],
        },
        type_specifiers: vec![None],
        in_token: tok_trail("in", " "),
        expr_list: Punctuated {
            pairs: vec![Pair {
                value: Expression::Var(Var::Name(tok_trail("t", " "))),
                separator: None,
            }],
        },
        do_token: tok_trail("do", " "),
        block: Block { statements: Vec::new() },
        end_token: tok("end"),
    }
}

fn numeric_for() -> NumericFor {
    NumericFor {
        for_token: tok_trail("for", " "),
        index_variable: tok("i"),
        type_specifier: None,
        equal_token: tok_trail(" =", " "),
        start: Box::new(number("1")),
        start_end_comma: tok_trail(",", " "),
        end: Box::new(number("9")),
        end_step_comma: Some(tok_trail(",", " ")),
        step: Some(Box::new(number("2"))),
        do_token: tok_trail(" do", " "),
        block: Block { statements: Vec::new() },
        end_token: tok("end"),
    }
}

fn visited_token_count_expression(e: &Expression) -> usize {
    let mut collector = TokenCollector::new();
    e.visit(&mut collector);
    collector.token_count()
}

#[test]
fn every_field_variant_reaches_a_token() {
    let variants = vec![
        Field::ExpressionKey {
            brackets: span("[", "]"),
            key: Box::new(number("1")),
            equal: tok("="),
            value: Box::new(number("2")),
        },
        Field::NameKey { key: tok("k"), equal: tok("="), value: Box::new(number("2")) },
        Field::NoKey(Box::new(number("3"))),
        Field::SetConstructor { dot: tok("."), name: tok("flag") },
    ];
    for field in &variants {
        let mut collector = TokenCollector::new();
        field.visit(&mut collector);
        assert!(collector.token_count() > 0);
    }
}

#[test]
fn every_expression_variant_reaches_a_token() {
    let variants = vec![
        Expression::BinaryOperator {
            lhs: Box::new(number("1")),
            binop: tok("+"),
            rhs: Box::new(number("2")),
        },
        Expression::Parentheses {
            contained: span("(", ")"),
            expression: Box::new(number("1")),
        },
        Expression::UnaryOperator { unop: tok("-"), expression: Box::new(number("1")) },
        Expression::Function { function_token: tok("function"), body: Box::new(body()) },
        Expression::FunctionCall(FunctionCall {
            prefix: tok("f"),
            args: FunctionArgs::Parentheses {
                parentheses: span("(", ")"),
                arguments: Punctuated::new(),
            },
        }),
        Expression::IfExpression(Box::new(IfExpression {
            if_token: tok_trail("if", " "),
            condition: Box::new(Expression::Symbol(tok_trail("true", " "))),
            then_token: tok_trail("then", " "),
            if_expression: Box::new(number("1")),
            else_token: tok_trail(" else", " "),
            else_expression: Box::new(number("2")),
        })),
        Expression::InterpolatedString(Box::new(InterpolatedString {
            start_string: tok("`a{"),
            expression: Box::new(Expression::Var(Var::Name(tok("x")))),
            last_string: tok("}b`"),
        })),
        Expression::TableConstructor(table()),
        Expression::TypeAssertion {
            expression: Box::new(number("1")),
            type_assertion: TypeAssertion { assertion_op: tok("::"), cast_to: tok("number") },
        },
        Expression::Number(tok("7")),
        Expression::StringLiteral(tok("\"s\"")),
        Expression::Symbol(tok("nil")),
        Expression::Var(Var::Name(tok("x"))),
    ];
    for expression in &variants {
        assert!(visited_token_count_expression(expression) > 0);
    }
}

#[test]
fn every_index_variant_reaches_a_token() {
    let variants = vec![
        Index::Brackets { brackets: span("[", "]"), expression: Box::new(number("1")) },
        Index::Dot { dot: tok("."), name: tok("b") },
    ];
    for index in &variants {
        let mut collector = TokenCollector::new();
        index.visit(&mut collector);
        assert!(collector.token_count() > 0);
    }
}

#[test]
fn every_function_args_variant_reaches_a_token() {
    let variants = vec![
        FunctionArgs::Parentheses { parentheses: span("(", ")"), arguments: Punctuated::new() },
        FunctionArgs::StringLiteral(tok("\"arg\"")),
        FunctionArgs::TableConstructor(table()),
    ];
    for args in &variants {
        let mut collector = TokenCollector::new();
        args.visit(&mut collector);
        assert!(collector.token_count() > 0);
    }
}

#[test]
fn every_var_variant_reaches_a_token() {
    let variants = vec![
        Var::Name(tok("x")),
        Var::Indexed { base: tok("a"), index: Index::Dot { dot: tok("."), name: tok("b") } },
    ];
    for var in &variants {
        let mut collector = TokenCollector::new();
        var.visit(&mut collector);
        assert!(collector.token_count() > 0);
    }
}

#[test]
fn every_statement_variant_reaches_a_token() {
    let variants = vec![
        Stmt::LocalAssignment(local()),
        Stmt::GenericFor(generic_for()),
        Stmt::NumericFor(numeric_for()),
    ];
    for statement in &variants {
        let mut collector = TokenCollector::new();
        statement.visit(&mut collector);
        assert!(collector.token_count() > 0);
    }
}

#[test]
fn generic_for_prints_in_source_order() {
    let mut collector = TokenCollector::new();
    generic_for().visit(&mut collector);
    assert_eq!(collector.printed(), b"for k in t do end".to_vec());
}

#[test]
fn numeric_for_prints_in_source_order() {
    let mut collector = TokenCollector::new();
    numeric_for().visit(&mut collector);
    assert_eq!(collector.printed(), b"for i = 1, 9, 2 do end".to_vec());
}

#[test]
fn numeric_for_without_step_skips_absent_slots() {
    let mut statement = numeric_for();
    statement.end_step_comma = None;
    statement.step = None;
    let mut collector = TokenCollector::new();
    statement.visit(&mut collector);
    assert_eq!(collector.printed(), b"for i = 1, 9 do end".to_vec());
}
