//! Read-only traversal: for every node type, `visit` invokes the enter hook,
//! descends into the matched variant's children in hand-specified source
//! order, and invokes the exit hook. The contract of every entry point is the
//! same: the visitor's event log grows by exactly the node's event sequence —
//! every token and hook, exactly once, in source order.
use vstd::prelude::*;

use crate::ast::attribute_ev;
use crate::ast::generic_declaration_ev;
use crate::ast::opt_attribute_ev;
use crate::ast::opt_expression_ev;
use crate::ast::opt_generic_declaration_ev;
use crate::ast::opt_tok_ev;
use crate::ast::opt_type_specifier_ev;
use crate::ast::punctuated_expression_ev;
use crate::ast::punctuated_field_ev;
use crate::ast::punctuated_token_ev;
use crate::ast::statements_ev;
use crate::ast::tok_ev;
use crate::ast::type_assertion_ev;
use crate::ast::type_specifier_ev;
use crate::ast::zipped_names_ev;
use crate::ast::Attribute;
use crate::ast::Block;
use crate::ast::Expression;
use crate::ast::Field;
use crate::ast::FunctionArgs;
use crate::ast::FunctionBody;
use crate::ast::FunctionCall;
use crate::ast::GenericDeclaration;
use crate::ast::GenericFor;
use crate::ast::IfExpression;
use crate::ast::Index;
use crate::ast::InterpolatedString;
use crate::ast::LocalAssignment;
use crate::ast::NumericFor;
use crate::ast::Stmt;
use crate::ast::TableConstructor;
use crate::ast::TypeAssertion;
use crate::ast::TypeSpecifier;
use crate::ast::Var;
use crate::punctuated::Punctuated;
use crate::token::Token;
use crate::visitor::Visitor;

verus! {

/// The slot sequence a traversal zips against a name list: the slots of the
/// auxiliary vector when the dialect feature carries one, and no slots at
/// all — every zipped slot absent — when it does not.
pub open spec fn slot_view<T>(slots: Option<&Vec<Option<T>>>) -> Seq<Option<T>> {
    match slots {
        Some(v) => v@,
        None => Seq::empty(),
    }
}

impl Token {
    /// Visit this token: report it to the visitor, once.
    pub fn visit<V: Visitor>(&self, visitor: &mut V)
        ensures
            final (visitor).seen() == old(visitor).seen() + tok_ev(*self),
    {
        let ghost s0 = visitor.seen();
        visitor.visit_token(self);
        proof {
            assert(visitor.seen() =~= s0 + tok_ev(*self));
        }
    }
}

/// Visit an optional token: visited when present, silently skipped when not.
pub fn visit_opt_token<V: Visitor>(token: &Option<Token>, visitor: &mut V)
    ensures
        final (visitor).seen() == old(visitor).seen() + opt_tok_ev(*token),
{
    let ghost s0 = visitor.seen();
    match token {
        Some(token) => token.visit(visitor),
        None => (),
    }
    proof {
        assert(visitor.seen() =~= s0 + opt_tok_ev(*token));
    }
}

/// Visit a type specifier: its punctuation, then its annotation token.
pub fn visit_type_specifier<V: Visitor>(ts: &TypeSpecifier, visitor: &mut V)
    ensures
        final (visitor).seen() == old(visitor).seen() + type_specifier_ev(*ts),
{
    let ghost s0 = visitor.seen();
    ts.punctuation.visit(visitor);
    ts.type_info.visit(visitor);
    proof {
        assert(visitor.seen() =~= s0 + type_specifier_ev(*ts));
    }
}

/// Visit an optional type specifier slot.
pub fn visit_opt_type_specifier<V: Visitor>(ts: &Option<TypeSpecifier>, visitor: &mut V)
    ensures
        final (visitor).seen() == old(visitor).seen() + opt_type_specifier_ev(*ts),
{
    let ghost s0 = visitor.seen();
    match ts {
        Some(ts) => visit_type_specifier(ts, visitor),
        None => (),
    }
    proof {
        assert(visitor.seen() =~= s0 + opt_type_specifier_ev(*ts));
    }
}

/// Visit an attribute: open bracket, name, close bracket.
pub fn visit_attribute<V: Visitor>(attribute: &Attribute, visitor: &mut V)
    ensures
        final (visitor).seen() == old(visitor).seen() + attribute_ev(*attribute),
{
    let ghost s0 = visitor.seen();
    attribute.brackets.open_token.visit(visitor);
    attribute.name.visit(visitor);
    attribute.brackets.close_token.visit(visitor);
    proof {
        assert(visitor.seen() =~= s0 + attribute_ev(*attribute));
    }
}

/// Visit an optional attribute slot.
pub fn visit_opt_attribute<V: Visitor>(attribute: &Option<Attribute>, visitor: &mut V)
    ensures
        final (visitor).seen() == old(visitor).seen() + opt_attribute_ev(*attribute),
{
    let ghost s0 = visitor.seen();
    match attribute {
        Some(attribute) => visit_attribute(attribute, visitor),
        None => (),
    }
    proof {
        assert(visitor.seen() =~= s0 + opt_attribute_ev(*attribute));
    }
}

/// Visit a type assertion: its operator, then the asserted type.
pub fn visit_type_assertion<V: Visitor>(ta: &TypeAssertion, visitor: &mut V)
    ensures
        final (visitor).seen() == old(visitor).seen() + type_assertion_ev(*ta),
{
    let ghost s0 = visitor.seen();
    ta.assertion_op.visit(visitor);
    ta.cast_to.visit(visitor);
    proof {
        assert(visitor.seen() =~= s0 + type_assertion_ev(*ta));
    }
}

/// Visit the pairs of a punctuated token list from pair `i` on: each value,
/// then its separator if present.
pub fn visit_token_pairs<V: Visitor>(list: &Punctuated<Token>, i: usize, visitor: &mut V)
    ensures
        final (visitor).seen() == old(visitor).seen() + punctuated_token_ev(
            list.pairs@,
            i as int,
        ),
    decreases list.pairs@.len() - i,
{
    let ghost s0 = visitor.seen();
    if i < list.pairs.len() {
        list.pairs[i].value.visit(visitor);
        visit_opt_token(&list.pairs[i].separator, visitor);
        visit_token_pairs(list, i + 1, visitor);
        proof {
            assert(visitor.seen() =~= s0 + punctuated_token_ev(list.pairs@, i as int));
        }
    } else {
        proof {
            assert(visitor.seen() =~= s0 + punctuated_token_ev(list.pairs@, i as int));
        }
    }
}

/// Visit a generic declaration: open arrow, punctuated names, close arrow.
pub fn visit_generic_declaration<V: Visitor>(g: &GenericDeclaration, visitor: &mut V)
    ensures
        final (visitor).seen() == old(visitor).seen() + generic_declaration_ev(*g),
{
    let ghost s0 = visitor.seen();
    g.arrows.open_token.visit(visitor);
    visit_token_pairs(&g.generics, 0, visitor);
    g.arrows.close_token.visit(visitor);
    proof {
        assert(visitor.seen() =~= s0 + generic_declaration_ev(*g));
    }
}

/// Visit an optional generic declaration.
pub fn visit_opt_generic_declaration<V: Visitor>(g: &Option<GenericDeclaration>, visitor: &mut V)
    ensures
        final (visitor).seen() == old(visitor).seen() + opt_generic_declaration_ev(*g),
{
    let ghost s0 = visitor.seen();
    match g {
        Some(g) => visit_generic_declaration(g, visitor),
        None => (),
    }
    proof {
        assert(visitor.seen() =~= s0 + opt_generic_declaration_ev(*g));
    }
}

/// Visit a name list zipped against its per-name dialect slots, from pair
/// `i` on: for each pair the name, its attribute slot, its type slot, then
/// its separator. The traversal never branches on which dialect features are
/// active — an absent slot vector walks exactly as one of absent slots.
pub fn visit_zipped_names<V: Visitor>(
    names: &Punctuated<Token>,
    attrs: Option<&Vec<Option<Attribute>>>,
    types: Option<&Vec<Option<TypeSpecifier>>>,
    i: usize,
    visitor: &mut V,
)
    ensures
        final (visitor).seen() == old(visitor).seen() + zipped_names_ev(
            names.pairs@,
            slot_view(attrs),
            slot_view(types),
            i as int,
        ),
    decreases names.pairs@.len() - i,
{
    let ghost s0 = visitor.seen();
    if i < names.pairs.len() {
        names.pairs[i].value.visit(visitor);
        match attrs {
            Some(attrs) => {
                if i < attrs.len() {
                    visit_opt_attribute(&attrs[i], visitor);
                }
            },
            None => (),
        }
        match types {
            Some(types) => {
                if i < types.len() {
                    visit_opt_type_specifier(&types[i], visitor);
                }
            },
            None => (),
        }
        visit_opt_token(&names.pairs[i].separator, visitor);
        visit_zipped_names(names, attrs, types, i + 1, visitor);
        proof {
            assert(visitor.seen() =~= s0 + zipped_names_ev(
                names.pairs@,
                slot_view(attrs),
                slot_view(types),
                i as int,
            ));
        }
    } else {
        proof {
            assert(visitor.seen() =~= s0 + zipped_names_ev(
                names.pairs@,
                slot_view(attrs),
                slot_view(types),
                i as int,
            ));
        }
    }
}

/// Visit the pairs of a punctuated expression list from pair `i` on.
pub fn visit_expression_pairs<V: Visitor>(
    list: &Punctuated<Expression>,
    i: usize,
    visitor: &mut V,
)
    ensures
        final (visitor).seen() == old(visitor).seen() + punctuated_expression_ev(
            list.pairs@,
            i as int,
        ),
    decreases list, list.pairs@.len() - i, 0int,
{
    let ghost s0 = visitor.seen();
    if i < list.pairs.len() {
        list.pairs[i].value.visit(visitor);
        visit_opt_token(&list.pairs[i].separator, visitor);
        visit_expression_pairs(list, i + 1, visitor);
        proof {
            assert(visitor.seen() =~= s0 + punctuated_expression_ev(list.pairs@, i as int));
        }
    } else {
        proof {
            assert(visitor.seen() =~= s0 + punctuated_expression_ev(list.pairs@, i as int));
        }
    }
}

/// Visit the pairs of a punctuated field list from pair `i` on.
pub fn visit_field_pairs<V: Visitor>(list: &Punctuated<Field>, i: usize, visitor: &mut V)
    ensures
        final (visitor).seen() == old(visitor).seen() + punctuated_field_ev(
            list.pairs@,
            i as int,
        ),
    decreases list, list.pairs@.len() - i, 0int,
{
    let ghost s0 = visitor.seen();
    if i < list.pairs.len() {
        list.pairs[i].value.visit(visitor);
        visit_opt_token(&list.pairs[i].separator, visitor);
        visit_field_pairs(list, i + 1, visitor);
        proof {
            assert(visitor.seen() =~= s0 + punctuated_field_ev(list.pairs@, i as int));
        }
    } else {
        proof {
            assert(visitor.seen() =~= s0 + punctuated_field_ev(list.pairs@, i as int));
        }
    }
}

/// Visit an optional expression.
pub fn visit_opt_expression<V: Visitor>(e: &Option<Box<Expression>>, visitor: &mut V)
    ensures
        final (visitor).seen() == old(visitor).seen() + opt_expression_ev(*e),
    decreases e, 0int, 1int,
{
    let ghost s0 = visitor.seen();
    match e {
        Some(e) => e.visit(visitor),
        None => (),
    }
    proof {
        assert(visitor.seen() =~= s0 + opt_expression_ev(*e));
    }
}

impl Field {
    /// Visit this field: enter hook, the matched variant's children in
    /// source order — the key's brackets interleaved around the key — exit
    /// hook.
    pub fn visit<V: Visitor>(&self, visitor: &mut V)
        ensures
            final (visitor).seen() == old(visitor).seen() + self.events(),
        decreases self, 0int, 0int,
    {
        let ghost s0 = visitor.seen();
        visitor.visit_field(self);
        match self {
            Field::ExpressionKey { brackets, key, equal, value } => {
                brackets.open_token.visit(visitor);
                key.visit(visitor);
                brackets.close_token.visit(visitor);
                equal.visit(visitor);
                value.visit(visitor);
            },
            Field::NameKey { key, equal, value } => {
                key.visit(visitor);
                equal.visit(visitor);
                value.visit(visitor);
            },
            Field::NoKey(value) => {
                value.visit(visitor);
            },
            Field::SetConstructor { dot, name } => {
                dot.visit(visitor);
                name.visit(visitor);
            },
        }
        visitor.visit_field_end(self);
        proof {
            assert(visitor.seen() =~= s0 + self.events());
        }
    }
}

impl Expression {
    /// Visit this expression: enter hook, the matched variant's children in
    /// source order — parentheses interleaved around their content — exit
    /// hook.
    pub fn visit<V: Visitor>(&self, visitor: &mut V)
        ensures
            final (visitor).seen() == old(visitor).seen() + self.events(),
        decreases self, 0int, 0int,
    {
        let ghost s0 = visitor.seen();
        visitor.visit_expression(self);
        match self {
            Expression::BinaryOperator { lhs, binop, rhs } => {
                lhs.visit(visitor);
                binop.visit(visitor);
                rhs.visit(visitor);
            },
            Expression::Parentheses { contained, expression } => {
                contained.open_token.visit(visitor);
                expression.visit(visitor);
                contained.close_token.visit(visitor);
            },
            Expression::UnaryOperator { unop, expression } => {
                unop.visit(visitor);
                expression.visit(visitor);
            },
            Expression::Function { function_token, body } => {
                function_token.visit(visitor);
                body.visit(visitor);
            },
            Expression::FunctionCall(call) => {
                call.visit(visitor);
            },
            Expression::IfExpression(if_expression) => {
                if_expression.visit(visitor);
            },
            Expression::InterpolatedString(interpolated) => {
                interpolated.visit(visitor);
            },
            Expression::TableConstructor(table) => {
                table.visit(visitor);
            },
            Expression::TypeAssertion { expression, type_assertion } => {
                expression.visit(visitor);
                visit_type_assertion(type_assertion, visitor);
            },
            Expression::Number(token) => {
                token.visit(visitor);
            },
            Expression::StringLiteral(token) => {
                token.visit(visitor);
            },
            Expression::Symbol(token) => {
                token.visit(visitor);
            },
            Expression::Var(var) => {
                var.visit(visitor);
            },
        }
        visitor.visit_expression_end(self);
        proof {
            assert(visitor.seen() =~= s0 + self.events());
        }
    }
}

impl Index {
    /// Visit this index: enter hook, then either the brackets interleaved
    /// around the indexing expression, or the dot then the name — a dotted
    /// index never touches bracket fields — then the exit hook.
    pub fn visit<V: Visitor>(&self, visitor: &mut V)
        ensures
            final (visitor).seen() == old(visitor).seen() + self.events(),
        decreases self, 0int, 0int,
    {
        let ghost s0 = visitor.seen();
        visitor.visit_index(self);
        match self {
            Index::Brackets { brackets, expression } => {
                brackets.open_token.visit(visitor);
                expression.visit(visitor);
                brackets.close_token.visit(visitor);
            },
            Index::Dot { dot, name } => {
                dot.visit(visitor);
                name.visit(visitor);
            },
        }
        visitor.visit_index_end(self);
        proof {
            assert(visitor.seen() =~= s0 + self.events());
        }
    }
}

impl FunctionArgs {
    /// Visit these call arguments: enter hook, the matched variant's
    /// children — parentheses interleaved around the argument list — exit
    /// hook.
    pub fn visit<V: Visitor>(&self, visitor: &mut V)
        ensures
            final (visitor).seen() == old(visitor).seen() + self.events(),
        decreases self, 0int, 0int,
    {
        let ghost s0 = visitor.seen();
        visitor.visit_function_args(self);
        match self {
            FunctionArgs::Parentheses { parentheses, arguments } => {
                parentheses.open_token.visit(visitor);
                visit_expression_pairs(arguments, 0, visitor);
                parentheses.close_token.visit(visitor);
            },
            FunctionArgs::StringLiteral(token) => {
                token.visit(visitor);
            },
            FunctionArgs::TableConstructor(table) => {
                table.visit(visitor);
            },
        }
        visitor.visit_function_args_end(self);
        proof {
            assert(visitor.seen() =~= s0 + self.events());
        }
    }
}

impl Var {
    /// Visit this variable reference.
    pub fn visit<V: Visitor>(&self, visitor: &mut V)
        ensures
            final (visitor).seen() == old(visitor).seen() + self.events(),
        decreases self, 0int, 0int,
    {
        let ghost s0 = visitor.seen();
        match self {
            Var::Name(token) => {
                token.visit(visitor);
            },
            Var::Indexed { base, index } => {
                base.visit(visitor);
                index.visit(visitor);
            },
        }
        proof {
            assert(visitor.seen() =~= s0 + self.events());
        }
    }
}

impl FunctionCall {
    /// Visit this call: the callee, then its arguments.
    pub fn visit<V: Visitor>(&self, visitor: &mut V)
        ensures
            final (visitor).seen() == old(visitor).seen() + self.events(),
        decreases self, 0int, 0int,
    {
        let ghost s0 = visitor.seen();
        self.prefix.visit(visitor);
        self.args.visit(visitor);
        proof {
            assert(visitor.seen() =~= s0 + self.events());
        }
    }
}

impl TableConstructor {
    /// Visit this table constructor: open brace, fields, close brace.
    pub fn visit<V: Visitor>(&self, visitor: &mut V)
        ensures
            final (visitor).seen() == old(visitor).seen() + self.events(),
        decreases self, 0int, 0int,
    {
        let ghost s0 = visitor.seen();
        self.braces.open_token.visit(visitor);
        visit_field_pairs(&self.fields, 0, visitor);
        self.braces.close_token.visit(visitor);
        proof {
            assert(visitor.seen() =~= s0 + self.events());
        }
    }
}

impl IfExpression {
    /// Visit this conditional expression, keyword tokens interleaved with
    /// the condition and both branches.
    pub fn visit<V: Visitor>(&self, visitor: &mut V)
        ensures
            final (visitor).seen() == old(visitor).seen() + self.events(),
        decreases self, 0int, 0int,
    {
        let ghost s0 = visitor.seen();
        self.if_token.visit(visitor);
        self.condition.visit(visitor);
        self.then_token.visit(visitor);
        self.if_expression.visit(visitor);
        self.else_token.visit(visitor);
        self.else_expression.visit(visitor);
        proof {
            assert(visitor.seen() =~= s0 + self.events());
        }
    }
}

impl InterpolatedString {
    /// Visit this interpolated string: opening segment, expression, closing
    /// segment.
    pub fn visit<V: Visitor>(&self, visitor: &mut V)
        ensures
            final (visitor).seen() == old(visitor).seen() + self.events(),
        decreases self, 0int, 0int,
    {
        let ghost s0 = visitor.seen();
        self.start_string.visit(visitor);
        self.expression.visit(visitor);
        self.last_string.visit(visitor);
        proof {
            assert(visitor.seen() =~= s0 + self.events());
        }
    }
}

impl FunctionBody {
    /// Visit this function body: enter hook, generics if present, open
    /// parenthesis, the parameters zipped with their per-parameter type
    /// slots, close parenthesis, return type if present, block, end token,
    /// exit hook.
    pub fn visit<V: Visitor>(&self, visitor: &mut V)
        ensures
            final (visitor).seen() == old(visitor).seen() + self.events(),
        decreases self, 0int, 0int,
    {
        let ghost s0 = visitor.seen();
        visitor.visit_function_body(self);
        visit_opt_generic_declaration(&self.generics, visitor);
        self.parameters_parentheses.open_token.visit(visitor);
        visit_zipped_names(&self.parameters, None, Some(&self.type_specifiers), 0, visitor);
        self.parameters_parentheses.close_token.visit(visitor);
        visit_opt_type_specifier(&self.return_type, visitor);
        self.block.visit(visitor);
        self.end_token.visit(visitor);
        visitor.visit_function_body_end(self);
        proof {
            assert(visitor.seen() =~= s0 + self.events());
        }
    }
}

impl LocalAssignment {
    /// Visit this local binding: enter hook, keyword, the names zipped with
    /// their attribute and type slots, the assignment token if present, the
    /// bound expressions, exit hook.
    pub fn visit<V: Visitor>(&self, visitor: &mut V)
        ensures
            final (visitor).seen() == old(visitor).seen() + self.events(),
        decreases self, 0int, 0int,
    {
        let ghost s0 = visitor.seen();
        visitor.visit_local_assignment(self);
        self.local_token.visit(visitor);
        visit_zipped_names(
            &self.name_list,
            Some(&self.attributes),
            Some(&self.type_specifiers),
            0,
            visitor,
        );
        visit_opt_token(&self.equal_token, visitor);
        visit_expression_pairs(&self.expr_list, 0, visitor);
        visitor.visit_local_assignment_end(self);
        proof {
            assert(visitor.seen() =~= s0 + self.events());
        }
    }
}

impl GenericFor {
    /// Visit this generic iteration: enter hook, keyword, the loop variables
    /// zipped with their type slots, the `in` token, the iterated
    /// expressions, the `do` token, block, end token, exit hook.
    pub fn visit<V: Visitor>(&self, visitor: &mut V)
        ensures
            final (visitor).seen() == old(visitor).seen() + self.events(),
        decreases self, 0int, 0int,
    {
        let ghost s0 = visitor.seen();
        visitor.visit_generic_for(self);
        self.for_token.visit(visitor);
        visit_zipped_names(&self.names, None, Some(&self.type_specifiers), 0, visitor);
        self.in_token.visit(visitor);
        visit_expression_pairs(&self.expr_list, 0, visitor);
        self.do_token.visit(visitor);
        self.block.visit(visitor);
        self.end_token.visit(visitor);
        visitor.visit_generic_for_end(self);
        proof {
            assert(visitor.seen() =~= s0 + self.events());
        }
    }
}

impl NumericFor {
    /// Visit this numeric iteration: enter hook, keyword, the loop variable,
    /// its optional type slot, the bound expressions with their commas, the
    /// `do` token, block, end token, exit hook.
    #[verifier::rlimit(50)]
    pub fn visit<V: Visitor>(&self, visitor: &mut V)
        ensures
            final (visitor).seen() == old(visitor).seen() + self.events(),
        decreases self, 0int, 0int,
    {
        let ghost s0 = visitor.seen();
        visitor.visit_numeric_for(self);
        self.for_token.visit(visitor);
        self.index_variable.visit(visitor);
        visit_opt_type_specifier(&self.type_specifier, visitor);
        self.equal_token.visit(visitor);
        self.start.visit(visitor);
        self.start_end_comma.visit(visitor);
        self.end.visit(visitor);
        visit_opt_token(&self.end_step_comma, visitor);
        visit_opt_expression(&self.step, visitor);
        self.do_token.visit(visitor);
        self.block.visit(visitor);
        self.end_token.visit(visitor);
        visitor.visit_numeric_for_end(self);
        proof {
            assert(visitor.seen() =~= s0 + self.events());
        }
    }
}

impl Stmt {
    /// Visit this statement.
    pub fn visit<V: Visitor>(&self, visitor: &mut V)
        ensures
            final (visitor).seen() == old(visitor).seen() + self.events(),
        decreases self, 0int, 0int,
    {
        let ghost s0 = visitor.seen();
        match self {
            Stmt::LocalAssignment(local) => local.visit(visitor),
            Stmt::GenericFor(generic_for) => generic_for.visit(visitor),
            Stmt::NumericFor(numeric_for) => numeric_for.visit(visitor),
        }
        proof {
            assert(visitor.seen() =~= s0 + self.events());
        }
    }
}

/// Visit the statements of a block from statement `i` on.
pub fn visit_statements<V: Visitor>(statements: &Vec<Stmt>, i: usize, visitor: &mut V)
    ensures
        final (visitor).seen() == old(visitor).seen() + statements_ev(statements@, i as int),
    decreases statements, statements@.len() - i, 0int,
{
    let ghost s0 = visitor.seen();
    if i < statements.len() {
        statements[i].visit(visitor);
        visit_statements(statements, i + 1, visitor);
        proof {
            assert(visitor.seen() =~= s0 + statements_ev(statements@, i as int));
        }
    } else {
        proof {
            assert(visitor.seen() =~= s0 + statements_ev(statements@, i as int));
        }
    }
}

impl Block {
    /// Visit this block: its statements in order.
    pub fn visit<V: Visitor>(&self, visitor: &mut V)
        ensures
            final (visitor).seen() == old(visitor).seen() + self.events(),
        decreases self, 0int, 1int,
    {
        let ghost s0 = visitor.seen();
        visit_statements(&self.statements, 0, visitor);
        proof {
            assert(visitor.seen() =~= s0 + self.events());
        }
    }
}

} // verus!
