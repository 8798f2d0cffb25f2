//! The tree node model: the tagged-union node types whose traversal order is
//! irregular — nodes with surrounding delimiter tokens, nodes with
//! dialect-conditional optional fields, and nodes with per-element slots
//! zipped against a punctuated list — together with the spec-level event
//! sequence that a correct traversal of each node must produce.
use vstd::prelude::*;

use crate::punctuated::ContainedSpan;
use crate::punctuated::Pair;
use crate::punctuated::Punctuated;
use crate::token::Token;
use crate::token::TokenView;

verus! {

/// The node types that have enter/exit hooks in the visitor protocol.
pub enum NodeKind {
    Field,
    Expression,
    Index,
    FunctionArgs,
    FunctionBody,
    LocalAssignment,
    GenericFor,
    NumericFor,
}

/// One observable step of a traversal: an enter hook, a visited token, or an
/// exit hook. The full event sequence of a node pins which hooks fire, which
/// tokens are visited, and in what order.
pub enum VisitEvent {
    Enter(NodeKind),
    Token(TokenView),
    Exit(NodeKind),
}

/// One observable step of a rewrite: each hook call is recorded with the
/// value it was given and the value it returned. The trace a rewrite leaves
/// pins that every hook fired, in order, on the right value, and that the
/// result is composed from what the hooks handed back.
#[allow(inconsistent_fields)]
pub enum RewriteEvent {
    Token { given: TokenView, returned: TokenView },
    EnterField { given: Field, returned: Field },
    ExitField { given: Field, returned: Field },
    EnterExpression { given: Expression, returned: Expression },
    ExitExpression { given: Expression, returned: Expression },
    EnterIndex { given: Index, returned: Index },
    ExitIndex { given: Index, returned: Index },
    EnterFunctionArgs { given: FunctionArgs, returned: FunctionArgs },
    ExitFunctionArgs { given: FunctionArgs, returned: FunctionArgs },
    EnterFunctionBody { given: FunctionBody, returned: FunctionBody },
    ExitFunctionBody { given: FunctionBody, returned: FunctionBody },
    EnterLocalAssignment { given: LocalAssignment, returned: LocalAssignment },
    ExitLocalAssignment { given: LocalAssignment, returned: LocalAssignment },
    EnterGenericFor { given: GenericFor, returned: GenericFor },
    ExitGenericFor { given: GenericFor, returned: GenericFor },
    EnterNumericFor { given: NumericFor, returned: NumericFor },
    ExitNumericFor { given: NumericFor, returned: NumericFor },
}

/// The event sequence with a token map applied: every token event's view is
/// mapped, every hook event stays as it is. A rewriter whose node hooks are
/// the identity and whose token hook computes `f` turns a node with event
/// sequence `s` into one with event sequence `map_token_events(s, f)`.
pub open spec fn map_token_events(
    s: Seq<VisitEvent>,
    f: spec_fn(TokenView) -> TokenView,
) -> Seq<VisitEvent> {
    s.map_values(
        |e: VisitEvent|
            match e {
                VisitEvent::Token(t) => VisitEvent::Token(f(t)),
                VisitEvent::Enter(k) => VisitEvent::Enter(k),
                VisitEvent::Exit(k) => VisitEvent::Exit(k),
            },
    )
}

/// Whether a newer rewrite trace is the older one with records appended:
/// nothing already recorded is altered or dropped.
pub open spec fn trace_extends(older: Seq<RewriteEvent>, newer: Seq<RewriteEvent>) -> bool {
    &&& older.len() <= newer.len()
    &&& forall|i: int| 0 <= i < older.len() ==> older[i] == #[trigger] newer[i]
}

/// Whether two fields are the same variant of the tagged union.
pub open spec fn same_field_variant(a: Field, b: Field) -> bool {
    match a {
        Field::ExpressionKey { .. } => b is ExpressionKey,
        Field::NameKey { .. } => b is NameKey,
        Field::NoKey(_) => b is NoKey,
        Field::SetConstructor { .. } => b is SetConstructor,
    }
}

/// Whether two expressions are the same variant of the tagged union.
pub open spec fn same_expression_variant(a: Expression, b: Expression) -> bool {
    match a {
        Expression::BinaryOperator { .. } => b is BinaryOperator,
        Expression::Parentheses { .. } => b is Parentheses,
        Expression::UnaryOperator { .. } => b is UnaryOperator,
        Expression::Function { .. } => b is Function,
        Expression::FunctionCall(_) => b is FunctionCall,
        Expression::IfExpression(_) => b is IfExpression,
        Expression::InterpolatedString(_) => b is InterpolatedString,
        Expression::TableConstructor(_) => b is TableConstructor,
        Expression::TypeAssertion { .. } => b is TypeAssertion,
        Expression::Number(_) => b is Number,
        Expression::StringLiteral(_) => b is StringLiteral,
        Expression::Symbol(_) => b is Symbol,
        Expression::Var(_) => b is Var,
    }
}

/// Whether two indexes are the same variant of the tagged union.
pub open spec fn same_index_variant(a: Index, b: Index) -> bool {
    match a {
        Index::Brackets { .. } => b is Brackets,
        Index::Dot { .. } => b is Dot,
    }
}

/// Whether two call-argument nodes are the same variant of the tagged union.
pub open spec fn same_function_args_variant(a: FunctionArgs, b: FunctionArgs) -> bool {
    match a {
        FunctionArgs::Parentheses { .. } => b is Parentheses,
        FunctionArgs::StringLiteral(_) => b is StringLiteral,
        FunctionArgs::TableConstructor(_) => b is TableConstructor,
    }
}

/// A dialect type annotation slot: a punctuation token (such as a colon)
/// followed by the annotation's token.
pub struct TypeSpecifier {
    pub punctuation: Token,
    pub type_info: Token,
}

/// A dialect variable attribute: a name between angle-bracket tokens.
pub struct Attribute {
    pub brackets: ContainedSpan,
    pub name: Token,
}

/// A dialect type assertion appended to an expression: an assertion operator
/// token followed by the asserted type's token.
pub struct TypeAssertion {
    pub assertion_op: Token,
    pub cast_to: Token,
}

/// A dialect generic-parameter declaration: a punctuated list of names
/// between angle-bracket tokens.
pub struct GenericDeclaration {
    pub arrows: ContainedSpan,
    pub generics: Punctuated<Token>,
}

/// A field of a table constructor.
#[allow(inconsistent_fields)]
pub enum Field {
    /// `[key] = value`: the key is a delimited expression.
    ExpressionKey { brackets: ContainedSpan, key: Box<Expression>, equal: Token, value: Box<Expression> },
    /// `name = value`.
    NameKey { key: Token, equal: Token, value: Box<Expression> },
    /// A positional field with no key.
    NoKey(Box<Expression>),
    /// Dialect-only: `.name` inside a set constructor.
    SetConstructor { dot: Token, name: Token },
}

/// An expression node.
pub enum Expression {
    /// `lhs op rhs`.
    BinaryOperator { lhs: Box<Expression>, binop: Token, rhs: Box<Expression> },
    /// A parenthesized expression: the delimiters interleave around the content.
    Parentheses { contained: ContainedSpan, expression: Box<Expression> },
    /// `op expr`.
    UnaryOperator { unop: Token, expression: Box<Expression> },
    /// An anonymous function: its keyword token and its body.
    Function { function_token: Token, body: Box<FunctionBody> },
    /// A call of a function.
    FunctionCall(FunctionCall),
    /// Dialect-only: a conditional expression.
    IfExpression(Box<IfExpression>),
    /// Dialect-only: a string with an interpolated expression.
    InterpolatedString(Box<InterpolatedString>),
    /// A table constructor.
    TableConstructor(TableConstructor),
    /// Dialect-only: an expression with a type assertion.
    TypeAssertion { expression: Box<Expression>, type_assertion: TypeAssertion },
    /// A numeric literal token.
    Number(Token),
    /// A string literal token.
    StringLiteral(Token),
    /// A symbol token (such as a keyword literal).
    Symbol(Token),
    /// A variable reference.
    Var(Var),
}

/// An index into a value: `[expr]` or `.name`.
pub enum Index {
    /// `[expr]`: a delimited expression.
    Brackets { brackets: ContainedSpan, expression: Box<Expression> },
    /// `.name`.
    Dot { dot: Token, name: Token },
}

/// The arguments of a call.
pub enum FunctionArgs {
    /// `(a, b, c)`: a delimited punctuated list of expressions.
    Parentheses { parentheses: ContainedSpan, arguments: Punctuated<Expression> },
    /// A bare string literal used as the sole argument.
    StringLiteral(Token),
    /// A bare table constructor used as the sole argument.
    TableConstructor(TableConstructor),
}

/// A variable reference: a bare name, or a base name with an index.
pub enum Var {
    Name(Token),
    Indexed { base: Token, index: Index },
}

/// A call: a callee name followed by its arguments.
pub struct FunctionCall {
    pub prefix: Token,
    pub args: FunctionArgs,
}

/// A table constructor: fields between brace tokens.
pub struct TableConstructor {
    pub braces: ContainedSpan,
    pub fields: Punctuated<Field>,
}

/// Dialect-only: `if cond then a else b` as an expression.
pub struct IfExpression {
    pub if_token: Token,
    pub condition: Box<Expression>,
    pub then_token: Token,
    pub if_expression: Box<Expression>,
    pub else_token: Token,
    pub else_expression: Box<Expression>,
}

/// Dialect-only: a string with one interpolated expression between its
/// opening and closing segments.
pub struct InterpolatedString {
    pub start_string: Token,
    pub expression: Box<Expression>,
    pub last_string: Token,
}

/// The signature and body of a function: optional dialect generics, a
/// delimited parameter list whose per-parameter dialect type slots are
/// zipped against it, an optional dialect return type, a block, and the
/// terminating token.
pub struct FunctionBody {
    pub generics: Option<GenericDeclaration>,
    pub parameters_parentheses: ContainedSpan,
    pub parameters: Punctuated<Token>,
    pub type_specifiers: Vec<Option<TypeSpecifier>>,
    pub return_type: Option<TypeSpecifier>,
    pub block: Block,
    pub end_token: Token,
}

/// A local-binding statement: keyword, bound names with per-name dialect
/// attribute and type slots zipped in, an optional assignment token, and
/// the bound expressions.
pub struct LocalAssignment {
    pub local_token: Token,
    pub name_list: Punctuated<Token>,
    pub attributes: Vec<Option<Attribute>>,
    pub type_specifiers: Vec<Option<TypeSpecifier>>,
    pub equal_token: Option<Token>,
    pub expr_list: Punctuated<Expression>,
}

/// A generic-iteration statement: loop variables with per-name dialect type
/// slots, the iterated expressions, and the loop body.
pub struct GenericFor {
    pub for_token: Token,
    pub names: Punctuated<Token>,
    pub type_specifiers: Vec<Option<TypeSpecifier>>,
    pub in_token: Token,
    pub expr_list: Punctuated<Expression>,
    pub do_token: Token,
    pub block: Block,
    pub end_token: Token,
}

/// A numeric-iteration statement: one loop variable with an optional dialect
/// type slot, start/stop and optional step expressions, and the loop body.
pub struct NumericFor {
    pub for_token: Token,
    pub index_variable: Token,
    pub type_specifier: Option<TypeSpecifier>,
    pub equal_token: Token,
    pub start: Box<Expression>,
    pub start_end_comma: Token,
    pub end: Box<Expression>,
    pub end_step_comma: Option<Token>,
    pub step: Option<Box<Expression>>,
    pub do_token: Token,
    pub block: Block,
    pub end_token: Token,
}

/// A statement of a block.
pub enum Stmt {
    LocalAssignment(LocalAssignment),
    GenericFor(GenericFor),
    NumericFor(NumericFor),
}

/// A block: a sequence of statements.
pub struct Block {
    pub statements: Vec<Stmt>,
}

// ---------------------------------------------------------------------------
// The event model: the sequence of hook and token events that a correct
// traversal of each node produces, in source order.
// ---------------------------------------------------------------------------

/// The single event of visiting one token.
pub open spec fn tok_ev(t: Token) -> Seq<VisitEvent> {
    seq![VisitEvent::Token(t@)]
}

/// The events of an optional token: one event when present, none otherwise.
pub open spec fn opt_tok_ev(t: Option<Token>) -> Seq<VisitEvent> {
    match t {
        Some(t) => tok_ev(t),
        None => Seq::empty(),
    }
}

/// The events of a type specifier: its punctuation, then its annotation.
pub open spec fn type_specifier_ev(ts: TypeSpecifier) -> Seq<VisitEvent> {
    tok_ev(ts.punctuation) + tok_ev(ts.type_info)
}

/// The events of an optional type specifier slot.
pub open spec fn opt_type_specifier_ev(ts: Option<TypeSpecifier>) -> Seq<VisitEvent> {
    match ts {
        Some(ts) => type_specifier_ev(ts),
        None => Seq::empty(),
    }
}

/// The events of an attribute: open bracket, name, close bracket.
pub open spec fn attribute_ev(a: Attribute) -> Seq<VisitEvent> {
    tok_ev(a.brackets.open_token) + tok_ev(a.name) + tok_ev(a.brackets.close_token)
}

/// The events of an optional attribute slot.
pub open spec fn opt_attribute_ev(a: Option<Attribute>) -> Seq<VisitEvent> {
    match a {
        Some(a) => attribute_ev(a),
        None => Seq::empty(),
    }
}

/// The events of a type assertion: its operator, then the asserted type.
pub open spec fn type_assertion_ev(ta: TypeAssertion) -> Seq<VisitEvent> {
    tok_ev(ta.assertion_op) + tok_ev(ta.cast_to)
}

/// The events of a generic declaration: open arrow, the punctuated names,
/// close arrow.
pub open spec fn generic_declaration_ev(g: GenericDeclaration) -> Seq<VisitEvent> {
    tok_ev(g.arrows.open_token) + punctuated_token_ev(g.generics.pairs@, 0) + tok_ev(
        g.arrows.close_token,
    )
}

/// The events of an optional generic declaration.
pub open spec fn opt_generic_declaration_ev(g: Option<GenericDeclaration>) -> Seq<VisitEvent> {
    match g {
        Some(g) => generic_declaration_ev(g),
        None => Seq::empty(),
    }
}

/// The events of a pair's separator slot: its token when present.
pub open spec fn separator_ev(sep: Option<Token>) -> Seq<VisitEvent> {
    match sep {
        Some(t) => tok_ev(t),
        None => Seq::empty(),
    }
}

/// The events of the pairs of a punctuated token list from pair `i` on:
/// each value, then its separator if present, in sequence order.
pub open spec fn punctuated_token_ev(s: Seq<Pair<Token>>, i: int) -> Seq<VisitEvent>
    decreases s.len() - i,
{
    if 0 <= i < s.len() {
        tok_ev(s[i].value) + separator_ev(s[i].separator) + punctuated_token_ev(s, i + 1)
    } else {
        Seq::empty()
    }
}

/// The attribute slot zipped against list element `i`: treated as absent
/// beyond the end of the slot sequence, so a list zipped against no slots at
/// all walks exactly as one whose every slot is absent.
pub open spec fn attribute_slot_ev(attrs: Seq<Option<Attribute>>, i: int) -> Seq<VisitEvent> {
    if 0 <= i < attrs.len() {
        opt_attribute_ev(attrs[i])
    } else {
        Seq::empty()
    }
}

/// The type specifier slot zipped against list element `i`, absent beyond
/// the end of the slot sequence.
pub open spec fn type_specifier_slot_ev(types: Seq<Option<TypeSpecifier>>, i: int) -> Seq<
    VisitEvent,
> {
    if 0 <= i < types.len() {
        opt_type_specifier_ev(types[i])
    } else {
        Seq::empty()
    }
}

/// The events of a name list zipped against its per-name dialect slots,
/// from pair `i` on: for each pair, the name, its attribute slot, its type
/// specifier slot, then its separator. The zip's length is the name list's
/// length, whatever the slot sequences hold.
pub open spec fn zipped_names_ev(
    names: Seq<Pair<Token>>,
    attrs: Seq<Option<Attribute>>,
    types: Seq<Option<TypeSpecifier>>,
    i: int,
) -> Seq<VisitEvent>
    decreases names.len() - i,
{
    if 0 <= i < names.len() {
        tok_ev(names[i].value) + attribute_slot_ev(attrs, i) + type_specifier_slot_ev(types, i)
            + separator_ev(names[i].separator) + zipped_names_ev(names, attrs, types, i + 1)
    } else {
        Seq::empty()
    }
}

/// A slot sequence of absent slots zips exactly as no slot sequence at all:
/// the zipped traversal of a name list cannot tell an inactive dialect
/// feature from one whose every slot is empty.
pub proof fn lemma_zipped_names_ev_absent_attrs(
    names: Seq<Pair<Token>>,
    attrs: Seq<Option<Attribute>>,
    types: Seq<Option<TypeSpecifier>>,
    j: int,
)
    requires
        forall|k: int| 0 <= k < attrs.len() ==> (#[trigger] attrs[k]) is None,
    ensures
        zipped_names_ev(names, attrs, types, j) == zipped_names_ev(names, Seq::empty(), types, j),
    decreases names.len() - j,
{
    if 0 <= j < names.len() {
        assert(attribute_slot_ev(attrs, j) == attribute_slot_ev(Seq::empty(), j));
        lemma_zipped_names_ev_absent_attrs(names, attrs, types, j + 1);
    }
}

impl Field {
    /// The full event sequence of visiting this field.
    pub open spec fn events(self) -> Seq<VisitEvent>
        decreases self, 0int, 0int,
    {
        seq![VisitEvent::Enter(NodeKind::Field)] + match self {
            Field::ExpressionKey { brackets, key, equal, value } => {
                tok_ev(brackets.open_token) + key.events() + tok_ev(brackets.close_token) + tok_ev(
                    equal,
                ) + value.events()
            },
            Field::NameKey { key, equal, value } => {
                tok_ev(key) + tok_ev(equal) + value.events()
            },
            Field::NoKey(value) => value.events(),
            Field::SetConstructor { dot, name } => tok_ev(dot) + tok_ev(name),
        } + seq![VisitEvent::Exit(NodeKind::Field)]
    }
}

/// The events of the pairs of a punctuated field list from pair `i` on.
pub open spec fn punctuated_field_ev(s: Seq<Pair<Field>>, i: int) -> Seq<VisitEvent>
    decreases s, s.len() - i, 0int,
{
    if 0 <= i < s.len() {
        s[i].value.events() + separator_ev(s[i].separator) + punctuated_field_ev(s, i + 1)
    } else {
        Seq::empty()
    }
}

/// The events of the pairs of a punctuated expression list from pair `i` on.
pub open spec fn punctuated_expression_ev(s: Seq<Pair<Expression>>, i: int) -> Seq<VisitEvent>
    decreases s, s.len() - i, 0int,
{
    if 0 <= i < s.len() {
        s[i].value.events() + separator_ev(s[i].separator) + punctuated_expression_ev(s, i + 1)
    } else {
        Seq::empty()
    }
}

/// The events of an optional expression.
pub open spec fn opt_expression_ev(e: Option<Box<Expression>>) -> Seq<VisitEvent>
    decreases e, 0int, 1int,
{
    match e {
        Some(e) => e.events(),
        None => Seq::empty(),
    }
}

impl Expression {
    /// The full event sequence of visiting this expression.
    pub open spec fn events(self) -> Seq<VisitEvent>
        decreases self, 0int, 0int,
    {
        seq![VisitEvent::Enter(NodeKind::Expression)] + match self {
            Expression::BinaryOperator { lhs, binop, rhs } => {
                lhs.events() + tok_ev(binop) + rhs.events()
            },
            Expression::Parentheses { contained, expression } => {
                tok_ev(contained.open_token) + expression.events() + tok_ev(contained.close_token)
            },
            Expression::UnaryOperator { unop, expression } => tok_ev(unop) + expression.events(),
            Expression::Function { function_token, body } => tok_ev(function_token)
                + body.events(),
            Expression::FunctionCall(call) => call.events(),
            Expression::IfExpression(if_expression) => if_expression.events(),
            Expression::InterpolatedString(interpolated) => interpolated.events(),
            Expression::TableConstructor(table) => table.events(),
            Expression::TypeAssertion { expression, type_assertion } => expression.events()
                + type_assertion_ev(type_assertion),
            Expression::Number(token) => tok_ev(token),
            Expression::StringLiteral(token) => tok_ev(token),
            Expression::Symbol(token) => tok_ev(token),
            Expression::Var(var) => var.events(),
        } + seq![VisitEvent::Exit(NodeKind::Expression)]
    }
}

impl Index {
    /// The full event sequence of visiting this index.
    pub open spec fn events(self) -> Seq<VisitEvent>
        decreases self, 0int, 0int,
    {
        seq![VisitEvent::Enter(NodeKind::Index)] + match self {
            Index::Brackets { brackets, expression } => {
                tok_ev(brackets.open_token) + expression.events() + tok_ev(brackets.close_token)
            },
            Index::Dot { dot, name } => tok_ev(dot) + tok_ev(name),
        } + seq![VisitEvent::Exit(NodeKind::Index)]
    }
}

impl FunctionArgs {
    /// The full event sequence of visiting these call arguments.
    pub open spec fn events(self) -> Seq<VisitEvent>
        decreases self, 0int, 0int,
    {
        seq![VisitEvent::Enter(NodeKind::FunctionArgs)] + match self {
            FunctionArgs::Parentheses { parentheses, arguments } => {
                tok_ev(parentheses.open_token) + punctuated_expression_ev(arguments.pairs@, 0)
                    + tok_ev(parentheses.close_token)
            },
            FunctionArgs::StringLiteral(token) => tok_ev(token),
            FunctionArgs::TableConstructor(table) => table.events(),
        } + seq![VisitEvent::Exit(NodeKind::FunctionArgs)]
    }
}

impl Var {
    /// The event sequence of visiting this variable reference.
    pub open spec fn events(self) -> Seq<VisitEvent>
        decreases self, 0int, 0int,
    {
        match self {
            Var::Name(token) => tok_ev(token),
            Var::Indexed { base, index } => tok_ev(base) + index.events(),
        }
    }
}

impl FunctionCall {
    /// The event sequence of visiting this call.
    pub open spec fn events(self) -> Seq<VisitEvent>
        decreases self, 0int, 0int,
    {
        tok_ev(self.prefix) + self.args.events()
    }
}

impl TableConstructor {
    /// The event sequence of visiting this table constructor: open brace,
    /// the punctuated fields, close brace.
    pub open spec fn events(self) -> Seq<VisitEvent>
        decreases self, 0int, 0int,
    {
        tok_ev(self.braces.open_token) + punctuated_field_ev(self.fields.pairs@, 0) + tok_ev(
            self.braces.close_token,
        )
    }
}

impl IfExpression {
    /// The event sequence of visiting this conditional expression.
    pub open spec fn events(self) -> Seq<VisitEvent>
        decreases self, 0int, 0int,
    {
        tok_ev(self.if_token) + self.condition.events() + tok_ev(self.then_token)
            + self.if_expression.events() + tok_ev(self.else_token) + self.else_expression.events()
    }
}

impl InterpolatedString {
    /// The event sequence of visiting this interpolated string.
    pub open spec fn events(self) -> Seq<VisitEvent>
        decreases self, 0int, 0int,
    {
        tok_ev(self.start_string) + self.expression.events() + tok_ev(self.last_string)
    }
}

impl FunctionBody {
    /// Well-formedness: one dialect type slot per parameter.
    pub open spec fn wf(self) -> bool {
        self.type_specifiers@.len() == self.parameters.pairs@.len()
    }

    /// The full event sequence of visiting this function body: generics if
    /// present, open parenthesis, the parameters zipped with their type
    /// slots, close parenthesis, return type if present, block, end token.
    pub open spec fn events(self) -> Seq<VisitEvent>
        decreases self, 0int, 0int,
    {
        seq![VisitEvent::Enter(NodeKind::FunctionBody)] + opt_generic_declaration_ev(self.generics)
            + tok_ev(self.parameters_parentheses.open_token) + zipped_names_ev(
            self.parameters.pairs@,
            Seq::empty(),
            self.type_specifiers@,
            0,
        ) + tok_ev(self.parameters_parentheses.close_token) + opt_type_specifier_ev(
            self.return_type,
        ) + self.block.events() + tok_ev(self.end_token) + seq![
            VisitEvent::Exit(NodeKind::FunctionBody),
        ]
    }
}

impl LocalAssignment {
    /// Well-formedness: one dialect attribute slot and one dialect type slot
    /// per bound name.
    pub open spec fn wf(self) -> bool {
        &&& self.attributes@.len() == self.name_list.pairs@.len()
        &&& self.type_specifiers@.len() == self.name_list.pairs@.len()
    }

    /// The full event sequence of visiting this local binding: keyword, the
    /// names zipped with their attribute and type slots, the assignment
    /// token if present, the bound expressions.
    pub open spec fn events(self) -> Seq<VisitEvent>
        decreases self, 0int, 0int,
    {
        seq![VisitEvent::Enter(NodeKind::LocalAssignment)] + tok_ev(self.local_token)
            + zipped_names_ev(self.name_list.pairs@, self.attributes@, self.type_specifiers@, 0)
            + opt_tok_ev(self.equal_token) + punctuated_expression_ev(self.expr_list.pairs@, 0)
            + seq![VisitEvent::Exit(NodeKind::LocalAssignment)]
    }
}

impl GenericFor {
    /// Well-formedness: one dialect type slot per loop variable.
    pub open spec fn wf(self) -> bool {
        self.type_specifiers@.len() == self.names.pairs@.len()
    }

    /// The full event sequence of visiting this generic iteration.
    pub open spec fn events(self) -> Seq<VisitEvent>
        decreases self, 0int, 0int,
    {
        seq![VisitEvent::Enter(NodeKind::GenericFor)] + tok_ev(self.for_token) + zipped_names_ev(
            self.names.pairs@,
            Seq::empty(),
            self.type_specifiers@,
            0,
        ) + tok_ev(self.in_token) + punctuated_expression_ev(self.expr_list.pairs@, 0) + tok_ev(
            self.do_token,
        ) + self.block.events() + tok_ev(self.end_token) + seq![
            VisitEvent::Exit(NodeKind::GenericFor),
        ]
    }
}

impl NumericFor {
    /// The full event sequence of visiting this numeric iteration.
    pub open spec fn events(self) -> Seq<VisitEvent>
        decreases self, 0int, 0int,
    {
        seq![VisitEvent::Enter(NodeKind::NumericFor)] + tok_ev(self.for_token) + tok_ev(
            self.index_variable,
        ) + opt_type_specifier_ev(self.type_specifier) + tok_ev(self.equal_token)
            + self.start.events() + tok_ev(self.start_end_comma) + self.end.events() + opt_tok_ev(
            self.end_step_comma,
        ) + opt_expression_ev(self.step) + tok_ev(self.do_token) + self.block.events() + tok_ev(
            self.end_token,
        ) + seq![VisitEvent::Exit(NodeKind::NumericFor)]
    }
}

impl Stmt {
    /// The event sequence of visiting this statement.
    pub open spec fn events(self) -> Seq<VisitEvent>
        decreases self, 0int, 0int,
    {
        match self {
            Stmt::LocalAssignment(local) => local.events(),
            Stmt::GenericFor(generic_for) => generic_for.events(),
            Stmt::NumericFor(numeric_for) => numeric_for.events(),
        }
    }
}

/// The events of the statements of a block from statement `i` on.
pub open spec fn statements_ev(s: Seq<Stmt>, i: int) -> Seq<VisitEvent>
    decreases s, s.len() - i, 0int,
{
    if 0 <= i < s.len() {
        s[i].events() + statements_ev(s, i + 1)
    } else {
        Seq::empty()
    }
}

impl Block {
    /// The event sequence of visiting this block: its statements in order.
    pub open spec fn events(self) -> Seq<VisitEvent>
        decreases self, 0int, 1int,
    {
        statements_ev(self.statements@, 0)
    }
}

// ---------------------------------------------------------------------------
// The size model: a structural measure of each node, strictly larger than
// the measure of any of its children. A rewrite's descent walks the node an
// enter hook returned, so the descent's termination rests on enter hooks not
// growing their input; this measure is what that obligation and the
// traversal's own termination are stated over.
// ---------------------------------------------------------------------------

/// The measure of an optional expression.
pub open spec fn opt_expression_size(e: Option<Box<Expression>>) -> nat
    decreases e, 0int, 1int,
{
    match e {
        Some(e) => 1 + e.size(),
        None => 0,
    }
}

/// The measure of the pairs of a punctuated expression list from pair `i` on.
pub open spec fn punctuated_expression_size(s: Seq<Pair<Expression>>, i: int) -> nat
    decreases s, s.len() - i, 0int,
{
    if 0 <= i < s.len() {
        1 + s[i].value.size() + punctuated_expression_size(s, i + 1)
    } else {
        0
    }
}

/// The measure of the pairs of a punctuated field list from pair `i` on.
pub open spec fn punctuated_field_size(s: Seq<Pair<Field>>, i: int) -> nat
    decreases s, s.len() - i, 0int,
{
    if 0 <= i < s.len() {
        1 + s[i].value.size() + punctuated_field_size(s, i + 1)
    } else {
        0
    }
}

/// The measure of the statements of a block from statement `i` on.
pub open spec fn statements_size(s: Seq<Stmt>, i: int) -> nat
    decreases s, s.len() - i, 0int,
{
    if 0 <= i < s.len() {
        1 + s[i].size() + statements_size(s, i + 1)
    } else {
        0
    }
}

impl Field {
    /// The structural measure of this field.
    pub open spec fn size(self) -> nat
        decreases self, 0int, 0int,
    {
        1 + match self {
            Field::ExpressionKey { brackets, key, equal, value } => key.size() + value.size(),
            Field::NameKey { key, equal, value } => value.size(),
            Field::NoKey(value) => value.size(),
            Field::SetConstructor { dot, name } => 0,
        }
    }
}

impl Expression {
    /// The structural measure of this expression.
    pub open spec fn size(self) -> nat
        decreases self, 0int, 0int,
    {
        1 + match self {
            Expression::BinaryOperator { lhs, binop, rhs } => lhs.size() + rhs.size(),
            Expression::Parentheses { contained, expression } => expression.size(),
            Expression::UnaryOperator { unop, expression } => expression.size(),
            Expression::Function { function_token, body } => body.size(),
            Expression::FunctionCall(call) => call.size(),
            Expression::IfExpression(if_expression) => if_expression.size(),
            Expression::InterpolatedString(interpolated) => interpolated.size(),
            Expression::TableConstructor(table) => table.size(),
            Expression::TypeAssertion { expression, type_assertion } => expression.size(),
            Expression::Number(token) => 0,
            Expression::StringLiteral(token) => 0,
            Expression::Symbol(token) => 0,
            Expression::Var(var) => var.size(),
        }
    }
}

impl Index {
    /// The structural measure of this index.
    pub open spec fn size(self) -> nat
        decreases self, 0int, 0int,
    {
        1 + match self {
            Index::Brackets { brackets, expression } => expression.size(),
            Index::Dot { dot, name } => 0,
        }
    }
}

impl FunctionArgs {
    /// The structural measure of these call arguments.
    pub open spec fn size(self) -> nat
        decreases self, 0int, 0int,
    {
        1 + match self {
            FunctionArgs::Parentheses { parentheses, arguments } => punctuated_expression_size(
                arguments.pairs@,
                0,
            ),
            FunctionArgs::StringLiteral(token) => 0,
            FunctionArgs::TableConstructor(table) => table.size(),
        }
    }
}

impl Var {
    /// The structural measure of this variable reference.
    pub open spec fn size(self) -> nat
        decreases self, 0int, 0int,
    {
        1 + match self {
            Var::Name(token) => 0,
            Var::Indexed { base, index } => index.size(),
        }
    }
}

impl FunctionCall {
    /// The structural measure of this call.
    pub open spec fn size(self) -> nat
        decreases self, 0int, 0int,
    {
        1 + self.args.size()
    }
}

impl TableConstructor {
    /// The structural measure of this table constructor.
    pub open spec fn size(self) -> nat
        decreases self, 0int, 0int,
    {
        1 + punctuated_field_size(self.fields.pairs@, 0)
    }
}

impl IfExpression {
    /// The structural measure of this conditional expression.
    pub open spec fn size(self) -> nat
        decreases self, 0int, 0int,
    {
        1 + self.condition.size() + self.if_expression.size() + self.else_expression.size()
    }
}

impl InterpolatedString {
    /// The structural measure of this interpolated string.
    pub open spec fn size(self) -> nat
        decreases self, 0int, 0int,
    {
        1 + self.expression.size()
    }
}

impl FunctionBody {
    /// The structural measure of this function body.
    pub open spec fn size(self) -> nat
        decreases self, 0int, 0int,
    {
        1 + self.block.size()
    }
}

impl LocalAssignment {
    /// The structural measure of this local binding.
    pub open spec fn size(self) -> nat
        decreases self, 0int, 0int,
    {
        1 + punctuated_expression_size(self.expr_list.pairs@, 0)
    }
}

impl GenericFor {
    /// The structural measure of this generic iteration.
    pub open spec fn size(self) -> nat
        decreases self, 0int, 0int,
    {
        1 + punctuated_expression_size(self.expr_list.pairs@, 0) + self.block.size()
    }
}

impl NumericFor {
    /// The structural measure of this numeric iteration.
    pub open spec fn size(self) -> nat
        decreases self, 0int, 0int,
    {
        1 + self.start.size() + self.end.size() + opt_expression_size(self.step)
            + self.block.size()
    }
}

impl Stmt {
    /// The structural measure of this statement.
    pub open spec fn size(self) -> nat
        decreases self, 0int, 0int,
    {
        1 + match self {
            Stmt::LocalAssignment(local) => local.size(),
            Stmt::GenericFor(generic_for) => generic_for.size(),
            Stmt::NumericFor(numeric_for) => numeric_for.size(),
        }
    }
}

impl Block {
    /// The structural measure of this block.
    pub open spec fn size(self) -> nat
        decreases self, 0int, 1int,
    {
        1 + statements_size(self.statements@, 0)
    }
}

// ---------------------------------------------------------------------------
// From events to text: the tokens of an event sequence, and the printed
// source text they spell.
// ---------------------------------------------------------------------------

/// The tokens among a sequence of events, in order: hook events contribute
/// nothing.
pub open spec fn event_tokens(s: Seq<VisitEvent>) -> Seq<TokenView>
    decreases s.len(),
{
    if s.len() == 0 {
        Seq::empty()
    } else {
        event_tokens(s.drop_last()) + match s.last() {
            VisitEvent::Token(t) => seq![t],
            VisitEvent::Enter(_) => Seq::empty(),
            VisitEvent::Exit(_) => Seq::empty(),
        }
    }
}

/// The source text spelled by a sequence of tokens: every byte of every
/// token, leading trivia, text and trailing trivia alike, in order.
pub open spec fn tokens_text(s: Seq<TokenView>) -> Seq<u8>
    decreases s.len(),
{
    if s.len() == 0 {
        Seq::empty()
    } else {
        tokens_text(s.drop_last()) + s.last().full()
    }
}

/// The source-order token sequence of an event sequence's node, as text:
/// what printing the node must reproduce.
pub open spec fn events_text(s: Seq<VisitEvent>) -> Seq<u8> {
    tokens_text(event_tokens(s))
}

} // verus!
