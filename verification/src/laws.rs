//! Laws stated over every input at once: a visit of any variant of any
//! tagged union reaches at least one token, the zipped traversal walks
//! exactly one slot per list element — never more, never fewer — and an
//! inactive slot feature leaves no trace in the traversal.
use vstd::prelude::*;

use crate::ast::attribute_slot_ev;
use crate::ast::event_tokens;
use crate::ast::punctuated_token_ev;
use crate::ast::type_specifier_slot_ev;
use crate::ast::zipped_names_ev;
use crate::ast::Attribute;
use crate::ast::Expression;
use crate::ast::Field;
use crate::ast::FunctionArgs;
use crate::ast::Index;
use crate::ast::TypeSpecifier;
use crate::ast::VisitEvent;
use crate::punctuated::Pair;
use crate::token::Token;

verus! {

/// An event run holding a token event at any position has a non-empty
/// token run.
pub proof fn lemma_event_tokens_token_at(s: Seq<VisitEvent>, k: int)
    requires
        0 <= k < s.len(),
        s[k] is Token,
    ensures
        event_tokens(s).len() > 0,
    decreases s.len(),
{
    if k == s.len() - 1 {
        assert(s.last() is Token);
    } else {
        assert(s.drop_last()[k] == s[k]);
        lemma_event_tokens_token_at(s.drop_last(), k);
    }
}

/// Exhaustiveness: a visit of an expression, whatever its variant, reaches
/// at least one token.
pub proof fn lemma_expression_reaches_token(e: Expression)
    ensures
        exists|k: int| 0 <= k < e.events().len() && (#[trigger] e.events()[k]) is Token,
        event_tokens(e.events()).len() > 0,
{
    match e {
        Expression::BinaryOperator { lhs, binop, rhs } => {
            let k = 1 + lhs.events().len() as int;
            assert(e.events()[k] is Token);
        },
        Expression::Parentheses { contained, expression } => {
            assert(e.events()[1] is Token);
        },
        Expression::UnaryOperator { unop, expression } => {
            assert(e.events()[1] is Token);
        },
        Expression::Function { function_token, body } => {
            assert(e.events()[1] is Token);
        },
        Expression::FunctionCall(call) => {
            assert(call.events()[0] is Token);
            assert(e.events()[1] == call.events()[0]);
        },
        Expression::IfExpression(if_expression) => {
            assert(if_expression.events()[0] is Token);
            assert(e.events()[1] == if_expression.events()[0]);
        },
        Expression::InterpolatedString(interpolated) => {
            assert(interpolated.events()[0] is Token);
            assert(e.events()[1] == interpolated.events()[0]);
        },
        Expression::TableConstructor(table) => {
            assert(table.events()[0] is Token);
            assert(e.events()[1] == table.events()[0]);
        },
        Expression::TypeAssertion { expression, type_assertion } => {
            let k = 1 + expression.events().len() as int;
            assert(e.events()[k] is Token);
        },
        Expression::Number(token) => {
            assert(e.events()[1] is Token);
        },
        Expression::StringLiteral(token) => {
            assert(e.events()[1] is Token);
        },
        Expression::Symbol(token) => {
            assert(e.events()[1] is Token);
        },
        Expression::Var(var) => {
            match var {
                crate::ast::Var::Name(token) => {
                    assert(var.events()[0] is Token);
                    assert(e.events()[1] == var.events()[0]);
                },
                crate::ast::Var::Indexed { base, index } => {
                    assert(var.events()[0] is Token);
                    assert(e.events()[1] == var.events()[0]);
                },
            }
        },
    }
    let k = choose|k: int| 0 <= k < e.events().len() && (#[trigger] e.events()[k]) is Token;
    lemma_event_tokens_token_at(e.events(), k);
}

/// Exhaustiveness: a visit of a field, whatever its variant, reaches at
/// least one token.
pub proof fn lemma_field_reaches_token(field: Field)
    ensures
        event_tokens(field.events()).len() > 0,
{
    match field {
        Field::ExpressionKey { brackets, key, equal, value } => {
            assert(field.events()[1] is Token);
        },
        Field::NameKey { key, equal, value } => {
            assert(field.events()[1] is Token);
        },
        Field::NoKey(value) => {
            lemma_expression_reaches_token(*value);
            let k = choose|k: int|
                0 <= k < value.events().len() && (#[trigger] value.events()[k]) is Token;
            assert(field.events()[1 + k] is Token);
        },
        Field::SetConstructor { dot, name } => {
            assert(field.events()[1] is Token);
        },
    }
    let k = choose|k: int|
        0 <= k < field.events().len() && (#[trigger] field.events()[k]) is Token;
    lemma_event_tokens_token_at(field.events(), k);
}

/// Exhaustiveness: a visit of an index, whatever its variant, reaches at
/// least one token.
pub proof fn lemma_index_reaches_token(index: Index)
    ensures
        event_tokens(index.events()).len() > 0,
{
    match index {
        Index::Brackets { brackets, expression } => {
            assert(index.events()[1] is Token);
        },
        Index::Dot { dot, name } => {
            assert(index.events()[1] is Token);
        },
    }
    let k = choose|k: int|
        0 <= k < index.events().len() && (#[trigger] index.events()[k]) is Token;
    lemma_event_tokens_token_at(index.events(), k);
}

/// Exhaustiveness: a visit of a call-arguments node, whatever its variant,
/// reaches at least one token.
pub proof fn lemma_function_args_reaches_token(args: FunctionArgs)
    ensures
        event_tokens(args.events()).len() > 0,
{
    match args {
        FunctionArgs::Parentheses { parentheses, arguments } => {
            assert(args.events()[1] is Token);
        },
        FunctionArgs::StringLiteral(token) => {
            assert(args.events()[1] is Token);
        },
        FunctionArgs::TableConstructor(table) => {
            assert(table.events()[0] is Token);
            assert(args.events()[1] == table.events()[0]);
        },
    }
    let k = choose|k: int|
        0 <= k < args.events().len() && (#[trigger] args.events()[k]) is Token;
    lemma_event_tokens_token_at(args.events(), k);
}

/// When no dialect slot feature is active, the zipped traversal of a name
/// list walks exactly the list's own values and separators: every visited
/// slot is absent, and the number of pairs walked is the list's length,
/// exactly as when a feature is active.
pub proof fn lemma_zip_inactive(names: Seq<Pair<Token>>, j: int)
    ensures
        zipped_names_ev(names, Seq::empty(), Seq::empty(), j) == punctuated_token_ev(names, j),
    decreases names.len() - j,
{
    if 0 <= j < names.len() {
        lemma_zip_inactive(names, j + 1);
        assert(zipped_names_ev(names, Seq::empty(), Seq::empty(), j) =~= punctuated_token_ev(
            names,
            j,
        ));
    }
}

/// The zipped traversal reads exactly one slot per list element and nothing
/// else: two slot sequences whose slots agree at every index below the name
/// list's length — whatever either holds beyond it — zip identically. The
/// zip's length is the punctuated list's length, always.
pub proof fn lemma_zip_slots_agree(
    names: Seq<Pair<Token>>,
    attrs: Seq<Option<Attribute>>,
    types: Seq<Option<TypeSpecifier>>,
    attrs2: Seq<Option<Attribute>>,
    types2: Seq<Option<TypeSpecifier>>,
    j: int,
)
    requires
        forall|k: int|
            0 <= k < names.len() ==> attribute_slot_ev(attrs, k) == attribute_slot_ev(attrs2, k),
        forall|k: int|
            0 <= k < names.len() ==> type_specifier_slot_ev(types, k) == type_specifier_slot_ev(
                types2,
                k,
            ),
    ensures
        zipped_names_ev(names, attrs, types, j) == zipped_names_ev(names, attrs2, types2, j),
    decreases names.len() - j,
{
    if 0 <= j < names.len() {
        lemma_zip_slots_agree(names, attrs, types, attrs2, types2, j + 1);
    }
}

} // verus!
