//! Rewriting traversal: for every node type, `visit_mut` consumes the node,
//! invokes the enter hook, rebuilds the hook's result from recursively
//! rewritten children under the same variant tag, and hands the rebuilt node
//! to the exit hook. For every rewriter, the contract pins the protocol
//! through the rewriter's ghost trace — the enter hook fires first, on
//! exactly the input; the result is exactly what the exit hook returned for
//! the rebuilt node; the descent never changes a variant tag — and the
//! punctuated-list and zipped-slot rebuilds preserve pair count, separator
//! arity and slot presence. For a token-only rewriter — one whose published
//! `token_map` is `Some(f)` — the result's event sequence is the input's
//! with `f` applied to every token, so shape is preserved relative to the
//! input and untouched tokens stay byte-identical. For a rewriter whose
//! hooks are the identity, the result's event sequence — and so its printed
//! text — is the input's.
use vstd::prelude::*;

use crate::ast::attribute_ev;
use crate::ast::attribute_slot_ev;
use crate::ast::generic_declaration_ev;
use crate::ast::opt_attribute_ev;
use crate::ast::opt_expression_ev;
use crate::ast::opt_expression_size;
use crate::ast::opt_generic_declaration_ev;
use crate::ast::map_token_events;
use crate::ast::opt_tok_ev;
use crate::ast::opt_type_specifier_ev;
use crate::ast::punctuated_expression_ev;
use crate::ast::trace_extends;
use crate::ast::same_expression_variant;
use crate::ast::same_field_variant;
use crate::ast::same_function_args_variant;
use crate::ast::same_index_variant;
use crate::ast::RewriteEvent;
use crate::ast::punctuated_expression_size;
use crate::ast::punctuated_field_ev;
use crate::ast::punctuated_field_size;
use crate::ast::punctuated_token_ev;
use crate::ast::statements_ev;
use crate::ast::statements_size;
use crate::ast::type_assertion_ev;
use crate::ast::type_specifier_ev;
use crate::ast::type_specifier_slot_ev;
use crate::ast::zipped_names_ev;
use crate::ast::Attribute;
use crate::ast::Block;
use crate::ast::Expression;
use crate::ast::Field;
use crate::ast::FunctionArgs;
use crate::ast::FunctionBody;
use crate::ast::FunctionCall;
use crate::ast::GenericDeclaration;
use crate::ast::GenericFor;
use crate::ast::IfExpression;
use crate::ast::Index;
use crate::ast::InterpolatedString;
use crate::ast::LocalAssignment;
use crate::ast::NumericFor;
use crate::ast::Stmt;
use crate::ast::TableConstructor;
use crate::ast::TypeAssertion;
use crate::ast::TypeSpecifier;
use crate::ast::Var;
use crate::punctuated::at_most_one_unseparated;
use crate::punctuated::ContainedSpan;
use crate::punctuated::Pair;
use crate::punctuated::Punctuated;
use crate::token::Token;
use crate::visitor::VisitorMut;

verus! {

// ---------------------------------------------------------------------------
// Suffix lemmas: walking a list from pair `i` on is walking the list's
// suffix from its start. The rebuild recursions peel the first pair off and
// stitch it back on, and these lemmas carry the specs across that step.
// ---------------------------------------------------------------------------

proof fn lemma_punctuated_expression_ev_suffix(s: Seq<Pair<Expression>>, i: int)
    requires
        0 <= i <= s.len(),
    ensures
        punctuated_expression_ev(s, i) == punctuated_expression_ev(
            s.subrange(i, s.len() as int),
            0,
        ),
    decreases s.len() - i,
{
    let sub = s.subrange(i, s.len() as int);
    if i < s.len() {
        lemma_punctuated_expression_ev_suffix(s, i + 1);
        lemma_punctuated_expression_ev_suffix(sub, 1);
        assert(sub.subrange(1, sub.len() as int) =~= s.subrange(i + 1, s.len() as int));
        assert(sub[0] == s[i]);
    }
}

proof fn lemma_punctuated_expression_size_suffix(s: Seq<Pair<Expression>>, i: int)
    requires
        0 <= i <= s.len(),
    ensures
        punctuated_expression_size(s, i) == punctuated_expression_size(
            s.subrange(i, s.len() as int),
            0,
        ),
    decreases s.len() - i,
{
    let sub = s.subrange(i, s.len() as int);
    if i < s.len() {
        lemma_punctuated_expression_size_suffix(s, i + 1);
        lemma_punctuated_expression_size_suffix(sub, 1);
        assert(sub.subrange(1, sub.len() as int) =~= s.subrange(i + 1, s.len() as int));
        assert(sub[0] == s[i]);
    }
}

proof fn lemma_punctuated_field_ev_suffix(s: Seq<Pair<Field>>, i: int)
    requires
        0 <= i <= s.len(),
    ensures
        punctuated_field_ev(s, i) == punctuated_field_ev(s.subrange(i, s.len() as int), 0),
    decreases s.len() - i,
{
    let sub = s.subrange(i, s.len() as int);
    if i < s.len() {
        lemma_punctuated_field_ev_suffix(s, i + 1);
        lemma_punctuated_field_ev_suffix(sub, 1);
        assert(sub.subrange(1, sub.len() as int) =~= s.subrange(i + 1, s.len() as int));
        assert(sub[0] == s[i]);
    }
}

proof fn lemma_punctuated_field_size_suffix(s: Seq<Pair<Field>>, i: int)
    requires
        0 <= i <= s.len(),
    ensures
        punctuated_field_size(s, i) == punctuated_field_size(s.subrange(i, s.len() as int), 0),
    decreases s.len() - i,
{
    let sub = s.subrange(i, s.len() as int);
    if i < s.len() {
        lemma_punctuated_field_size_suffix(s, i + 1);
        lemma_punctuated_field_size_suffix(sub, 1);
        assert(sub.subrange(1, sub.len() as int) =~= s.subrange(i + 1, s.len() as int));
        assert(sub[0] == s[i]);
    }
}

proof fn lemma_punctuated_token_ev_suffix(s: Seq<Pair<Token>>, i: int)
    requires
        0 <= i <= s.len(),
    ensures
        punctuated_token_ev(s, i) == punctuated_token_ev(s.subrange(i, s.len() as int), 0),
    decreases s.len() - i,
{
    let sub = s.subrange(i, s.len() as int);
    if i < s.len() {
        lemma_punctuated_token_ev_suffix(s, i + 1);
        lemma_punctuated_token_ev_suffix(sub, 1);
        assert(sub.subrange(1, sub.len() as int) =~= s.subrange(i + 1, s.len() as int));
        assert(sub[0] == s[i]);
    }
}

proof fn lemma_statements_ev_suffix(s: Seq<Stmt>, i: int)
    requires
        0 <= i <= s.len(),
    ensures
        statements_ev(s, i) == statements_ev(s.subrange(i, s.len() as int), 0),
    decreases s.len() - i,
{
    let sub = s.subrange(i, s.len() as int);
    if i < s.len() {
        lemma_statements_ev_suffix(s, i + 1);
        lemma_statements_ev_suffix(sub, 1);
        assert(sub.subrange(1, sub.len() as int) =~= s.subrange(i + 1, s.len() as int));
        assert(sub[0] == s[i]);
    }
}

proof fn lemma_statements_size_suffix(s: Seq<Stmt>, i: int)
    requires
        0 <= i <= s.len(),
    ensures
        statements_size(s, i) == statements_size(s.subrange(i, s.len() as int), 0),
    decreases s.len() - i,
{
    let sub = s.subrange(i, s.len() as int);
    if i < s.len() {
        lemma_statements_size_suffix(s, i + 1);
        lemma_statements_size_suffix(sub, 1);
        assert(sub.subrange(1, sub.len() as int) =~= s.subrange(i + 1, s.len() as int));
        assert(sub[0] == s[i]);
    }
}

proof fn lemma_zipped_names_ev_shift(
    names: Seq<Pair<Token>>,
    attrs: Seq<Option<Attribute>>,
    types: Seq<Option<TypeSpecifier>>,
    j: int,
)
    requires
        names.len() > 0,
        0 <= j,
    ensures
        zipped_names_ev(names, attrs, types, j + 1) == zipped_names_ev(
            names.subrange(1, names.len() as int),
            (if attrs.len() > 0 {
                attrs.subrange(1, attrs.len() as int)
            } else {
                attrs
            }),
            (if types.len() > 0 {
                types.subrange(1, types.len() as int)
            } else {
                types
            }),
            j,
        ),
    decreases names.len() - j,
{
    let names2 = names.subrange(1, names.len() as int);
    let attrs2 = if attrs.len() > 0 {
        attrs.subrange(1, attrs.len() as int)
    } else {
        attrs
    };
    let types2 = if types.len() > 0 {
        types.subrange(1, types.len() as int)
    } else {
        types
    };
    if j < names2.len() {
        assert(names2[j] == names[j + 1]);
        assert(attribute_slot_ev(attrs2, j) == attribute_slot_ev(attrs, j + 1));
        assert(type_specifier_slot_ev(types2, j) == type_specifier_slot_ev(types, j + 1));
        lemma_zipped_names_ev_shift(names, attrs, types, j + 1);
    }
}

// ---------------------------------------------------------------------------
// Token-level rewriting: tokens, optional tokens, and the token-only
// auxiliary nodes of the dialect feature slots.
// ---------------------------------------------------------------------------

impl Token {
    /// Rewrite this token: hand it to the rewriter, wholesale.
    pub fn visit_mut<R: VisitorMut>(self, visitor: &mut R) -> (r: Token)
        ensures
            final (visitor).seen() == old(visitor).seen().push(
                RewriteEvent::Token { given: self@, returned: r@ },
            ),
            old(visitor).identity() ==> (final (visitor).identity() && r@ == self@),
            (old(visitor).token_map() matches Some(tmap) ==> (final (
            visitor).token_map() == old(visitor).token_map() && r@ == tmap(self@))),
    {
        visitor.visit_token(self)
    }
}

/// Rewrite an optional token. The slot's presence is preserved: a rewrite
/// must not introduce or remove a separator or an optional token.
pub fn rewrite_opt_token<R: VisitorMut>(token: Option<Token>, visitor: &mut R) -> (r: Option<
    Token,
>)
    ensures
        r is Some <==> token is Some,
        token is None ==> final (visitor).seen() == old(visitor).seen(),
        (token matches Some(t) ==> (r matches Some(t2) && final (visitor).seen() == old(
        visitor).seen().push(RewriteEvent::Token { given: t@, returned: t2@ }))),
        old(visitor).identity() ==> (final (visitor).identity() && opt_tok_ev(r) == opt_tok_ev(
            token,
        )),
        (old(visitor).token_map() matches Some(tmap) ==> (final (
        visitor).token_map() == old(visitor).token_map() && opt_tok_ev(r)
            == map_token_events(opt_tok_ev(token), tmap))),
{
    match token {
        Some(token) => Some(token.visit_mut(visitor)),
        None => None,
    }
}

impl TypeSpecifier {
    /// Rewrite this type specifier: punctuation, then annotation.
    pub fn visit_mut<R: VisitorMut>(self, visitor: &mut R) -> (r: TypeSpecifier)
        ensures
            final (visitor).seen() == old(visitor).seen().push(
                RewriteEvent::Token { given: self.punctuation@, returned: r.punctuation@ },
            ).push(RewriteEvent::Token { given: self.type_info@, returned: r.type_info@ }),
            old(visitor).identity() ==> (final (visitor).identity() && type_specifier_ev(r)
                == type_specifier_ev(self)),
            (old(visitor).token_map() matches Some(tmap) ==> (final (
            visitor).token_map() == old(visitor).token_map() && type_specifier_ev(r)
                == map_token_events(type_specifier_ev(self), tmap))),
    {
        let punctuation = self.punctuation.visit_mut(visitor);
        let type_info = self.type_info.visit_mut(visitor);
        TypeSpecifier { punctuation, type_info }
    }
}

/// Rewrite an optional type specifier slot, preserving its presence.
pub fn rewrite_opt_type_specifier<R: VisitorMut>(
    ts: Option<TypeSpecifier>,
    visitor: &mut R,
) -> (r: Option<TypeSpecifier>)
    ensures
        r is Some <==> ts is Some,
        ts is None ==> final (visitor).seen() == old(visitor).seen(),
        (ts matches Some(x) ==> (r matches Some(x2) && final (visitor).seen() == old(
        visitor).seen().push(
            RewriteEvent::Token { given: x.punctuation@, returned: x2.punctuation@ },
        ).push(RewriteEvent::Token { given: x.type_info@, returned: x2.type_info@ }))),
        old(visitor).identity() ==> (final (visitor).identity() && opt_type_specifier_ev(r)
            == opt_type_specifier_ev(ts)),
        (old(visitor).token_map() matches Some(tmap) ==> (final (
        visitor).token_map() == old(visitor).token_map() && opt_type_specifier_ev(r)
            == map_token_events(opt_type_specifier_ev(ts), tmap))),
{
    match ts {
        Some(ts) => Some(ts.visit_mut(visitor)),
        None => None,
    }
}

impl Attribute {
    /// Rewrite this attribute: open bracket, name, close bracket.
    pub fn visit_mut<R: VisitorMut>(self, visitor: &mut R) -> (r: Attribute)
        ensures
            final (visitor).seen() == old(visitor).seen().push(
                RewriteEvent::Token {
                    given: self.brackets.open_token@,
                    returned: r.brackets.open_token@,
                },
            ).push(RewriteEvent::Token { given: self.name@, returned: r.name@ }).push(
                RewriteEvent::Token {
                    given: self.brackets.close_token@,
                    returned: r.brackets.close_token@,
                },
            ),
            old(visitor).identity() ==> (final (visitor).identity() && attribute_ev(r)
                == attribute_ev(self)),
            (old(visitor).token_map() matches Some(tmap) ==> (final (
            visitor).token_map() == old(visitor).token_map() && attribute_ev(r)
                == map_token_events(attribute_ev(self), tmap))),
    {
        let open_token = self.brackets.open_token.visit_mut(visitor);
        let name = self.name.visit_mut(visitor);
        let close_token = self.brackets.close_token.visit_mut(visitor);
        Attribute { brackets: ContainedSpan { open_token, close_token }, name }
    }
}

/// Rewrite an optional attribute slot, preserving its presence.
pub fn rewrite_opt_attribute<R: VisitorMut>(attribute: Option<Attribute>, visitor: &mut R) -> (r:
    Option<Attribute>)
    ensures
        r is Some <==> attribute is Some,
        attribute is None ==> final (visitor).seen() == old(visitor).seen(),
        (attribute matches Some(x) ==> (r matches Some(x2) && final (visitor).seen() == old(
        visitor).seen().push(
            RewriteEvent::Token {
                given: x.brackets.open_token@,
                returned: x2.brackets.open_token@,
            },
        ).push(RewriteEvent::Token { given: x.name@, returned: x2.name@ }).push(
            RewriteEvent::Token {
                given: x.brackets.close_token@,
                returned: x2.brackets.close_token@,
            },
        ))),
        old(visitor).identity() ==> (final (visitor).identity() && opt_attribute_ev(r)
            == opt_attribute_ev(attribute)),
        (old(visitor).token_map() matches Some(tmap) ==> (final (
        visitor).token_map() == old(visitor).token_map() && opt_attribute_ev(r)
            == map_token_events(opt_attribute_ev(attribute), tmap))),
{
    match attribute {
        Some(attribute) => Some(attribute.visit_mut(visitor)),
        None => None,
    }
}

impl TypeAssertion {
    /// Rewrite this type assertion: operator, then asserted type.
    pub fn visit_mut<R: VisitorMut>(self, visitor: &mut R) -> (r: TypeAssertion)
        ensures
            final (visitor).seen() == old(visitor).seen().push(
                RewriteEvent::Token { given: self.assertion_op@, returned: r.assertion_op@ },
            ).push(RewriteEvent::Token { given: self.cast_to@, returned: r.cast_to@ }),
            old(visitor).identity() ==> (final (visitor).identity() && type_assertion_ev(r)
                == type_assertion_ev(self)),
            (old(visitor).token_map() matches Some(tmap) ==> (final (
            visitor).token_map() == old(visitor).token_map() && type_assertion_ev(r)
                == map_token_events(type_assertion_ev(self), tmap))),
    {
        let assertion_op = self.assertion_op.visit_mut(visitor);
        let cast_to = self.cast_to.visit_mut(visitor);
        TypeAssertion { assertion_op, cast_to }
    }
}

/// Rewrite the pairs of a punctuated token list: every value and every
/// separator independently replaced, pair count and separator arity kept.
pub fn rewrite_token_pairs<R: VisitorMut>(pairs: Vec<Pair<Token>>, visitor: &mut R) -> (r: Vec<
    Pair<Token>,
>)
    ensures
        trace_extends(old(visitor).seen(), final (visitor).seen()),
        r@.len() == pairs@.len(),
        forall|j: int|
            0 <= j < pairs@.len() ==> ((#[trigger] r@[j].separator) is Some <==> pairs@[j].separator
                is Some),
        at_most_one_unseparated(pairs@) ==> at_most_one_unseparated(r@),
        pairs@.len() > 0 ==> (final (visitor).seen()[old(visitor).seen().len() as int]
            matches RewriteEvent::Token { given, .. } && given == pairs@[0].value@),
        old(visitor).identity() ==> (final (visitor).identity() && punctuated_token_ev(r@, 0)
            == punctuated_token_ev(pairs@, 0)),
        (old(visitor).token_map() matches Some(tmap) ==> (final (
        visitor).token_map() == old(visitor).token_map() && punctuated_token_ev(r@, 0)
            == map_token_events(punctuated_token_ev(pairs@, 0), tmap))),
    decreases pairs@.len(),
{
    let ghost id0 = visitor.identity();
    let ghost tm0 = visitor.token_map();
    let mut rest = pairs;
    if rest.len() == 0 {
        return rest;
    }
    let first = rest.remove(0);
    proof {
        assert(rest@ =~= pairs@.subrange(1, pairs@.len() as int));
    }
    let value = first.value.visit_mut(visitor);
    let separator = rewrite_opt_token(first.separator, visitor);
    let tail = rewrite_token_pairs(rest, visitor);
    let ghost tailv = tail@;
    let mut result = tail;
    result.insert(0, Pair { value, separator });
    proof {
        assert(result@.subrange(1, result@.len() as int) =~= tailv);
        lemma_punctuated_token_ev_suffix(pairs@, 1);
        lemma_punctuated_token_ev_suffix(result@, 1);
        if tm0 is Some {
            assert(punctuated_token_ev(result@, 0) =~= map_token_events(punctuated_token_ev(pairs@, 0), tm0->0));
        }
    }
    result
}

impl GenericDeclaration {
    /// Rewrite this generic declaration: open arrow, names, close arrow.
    pub fn visit_mut<R: VisitorMut>(self, visitor: &mut R) -> (r: GenericDeclaration)
        ensures
            trace_extends(old(visitor).seen(), final (visitor).seen()),
            final (visitor).seen().len() >= old(visitor).seen().len() + 2,
            final (visitor).seen()[old(visitor).seen().len() as int] == (RewriteEvent::Token {
                given: self.arrows.open_token@,
                returned: r.arrows.open_token@,
            }),
            final (visitor).seen().last() == (RewriteEvent::Token {
                given: self.arrows.close_token@,
                returned: r.arrows.close_token@,
            }),
            r.generics.pairs@.len() == self.generics.pairs@.len(),
            old(visitor).identity() ==> (final (visitor).identity() && generic_declaration_ev(r)
                == generic_declaration_ev(self)),
            (old(visitor).token_map() matches Some(tmap) ==> (final (
            visitor).token_map() == old(visitor).token_map() && generic_declaration_ev(r)
                == map_token_events(generic_declaration_ev(self), tmap))),
    {
        let ghost t0 = visitor.seen();
        let open_token = self.arrows.open_token.visit_mut(visitor);
        let ghost t1 = visitor.seen();
        let generics = Punctuated { pairs: rewrite_token_pairs(self.generics.pairs, visitor) };
        let close_token = self.arrows.close_token.visit_mut(visitor);
        proof {
            assert(visitor.seen()[t0.len() as int] == t1[t0.len() as int]);
        }
        GenericDeclaration { arrows: ContainedSpan { open_token, close_token }, generics }
    }
}

/// Rewrite an optional generic declaration, preserving its presence.
pub fn rewrite_opt_generic_declaration<R: VisitorMut>(
    g: Option<GenericDeclaration>,
    visitor: &mut R,
) -> (r: Option<GenericDeclaration>)
    ensures
        trace_extends(old(visitor).seen(), final (visitor).seen()),
        r is Some <==> g is Some,
        g is None ==> final (visitor).seen() == old(visitor).seen(),
        (g matches Some(x) ==> (r matches Some(x2) && final (visitor).seen().len() >= old(
        visitor).seen().len() + 2 && final (visitor).seen()[old(visitor).seen().len() as int]
            == (RewriteEvent::Token {
            given: x.arrows.open_token@,
            returned: x2.arrows.open_token@,
        }) && final (visitor).seen().last() == (RewriteEvent::Token {
            given: x.arrows.close_token@,
            returned: x2.arrows.close_token@,
        }))),
        old(visitor).identity() ==> (final (visitor).identity() && opt_generic_declaration_ev(r)
            == opt_generic_declaration_ev(g)),
        (old(visitor).token_map() matches Some(tmap) ==> (final (
        visitor).token_map() == old(visitor).token_map() && opt_generic_declaration_ev(r)
            == map_token_events(opt_generic_declaration_ev(g), tmap))),
{
    match g {
        Some(g) => Some(g.visit_mut(visitor)),
        None => None,
    }
}

/// Rewrite a name list zipped against its per-name dialect slots: for each
/// pair the name, its attribute slot, its type slot, then its separator are
/// rewritten in source order, and the transformed names and slots are
/// re-zipped into lists of one slot per name — whatever lengths came in,
/// the lists handed back share the name list's length.
#[verifier::rlimit(60)]
pub fn rewrite_zipped_names<R: VisitorMut>(
    names: Vec<Pair<Token>>,
    attrs: Vec<Option<Attribute>>,
    types: Vec<Option<TypeSpecifier>>,
    visitor: &mut R,
) -> (r: (Vec<Pair<Token>>, Vec<Option<Attribute>>, Vec<Option<TypeSpecifier>>))
    ensures
        trace_extends(old(visitor).seen(), final (visitor).seen()),
        r.0@.len() == names@.len(),
        r.1@.len() == names@.len(),
        r.2@.len() == names@.len(),
        forall|j: int|
            0 <= j < names@.len() ==> ((#[trigger] r.0@[j].separator) is Some
                <==> names@[j].separator is Some),
        at_most_one_unseparated(names@) ==> at_most_one_unseparated(r.0@),
        names@.len() > 0 ==> (final (visitor).seen()[old(visitor).seen().len() as int]
            matches RewriteEvent::Token { given, .. } && given == names@[0].value@),
        forall|j: int|
            0 <= j < names@.len() ==> ((#[trigger] r.1@[j]) is Some <==> (j < attrs@.len()
                && attrs@[j] is Some)),
        forall|j: int|
            0 <= j < names@.len() ==> ((#[trigger] r.2@[j]) is Some <==> (j < types@.len()
                && types@[j] is Some)),
        attrs@.len() == 0 ==> (forall|j: int|
            0 <= j < names@.len() ==> (#[trigger] r.1@[j]) is None),
        old(visitor).identity() ==> (final (visitor).identity() && zipped_names_ev(
            r.0@,
            r.1@,
            r.2@,
            0,
        ) == zipped_names_ev(names@, attrs@, types@, 0)),
        (old(visitor).token_map() matches Some(tmap) ==> (final (
        visitor).token_map() == old(visitor).token_map() && zipped_names_ev(r.0@, r.1@, r.2@, 0)
            == map_token_events(zipped_names_ev(names@, attrs@, types@, 0), tmap))),
    decreases names@.len(),
{
    let ghost id0 = visitor.identity();
    let ghost tm0 = visitor.token_map();
    if names.len() == 0 {
        let empty_attrs: Vec<Option<Attribute>> = Vec::new();
        let empty_types: Vec<Option<TypeSpecifier>> = Vec::new();
        return (names, empty_attrs, empty_types);
    }
    let mut names_rest = names;
    let first = names_rest.remove(0);
    let mut attrs_rest = attrs;
    let first_attr: Option<Option<Attribute>> = if attrs_rest.len() > 0 {
        Some(attrs_rest.remove(0))
    } else {
        None
    };
    let mut types_rest = types;
    let first_type: Option<Option<TypeSpecifier>> = if types_rest.len() > 0 {
        Some(types_rest.remove(0))
    } else {
        None
    };
    let value = first.value.visit_mut(visitor);
    let new_attr: Option<Attribute> = match first_attr {
        Some(slot) => rewrite_opt_attribute(slot, visitor),
        None => None,
    };
    let new_type: Option<TypeSpecifier> = match first_type {
        Some(slot) => rewrite_opt_type_specifier(slot, visitor),
        None => None,
    };
    let separator = rewrite_opt_token(first.separator, visitor);
    let tail = rewrite_zipped_names(names_rest, attrs_rest, types_rest, visitor);
    let (names_out, attrs_out, types_out) = tail;
    let ghost names_tailv = names_out@;
    let ghost attrs_tailv = attrs_out@;
    let ghost types_tailv = types_out@;
    let mut names_out = names_out;
    let mut attrs_out = attrs_out;
    let mut types_out = types_out;
    names_out.insert(0, Pair { value, separator });
    attrs_out.insert(0, new_attr);
    types_out.insert(0, new_type);
    proof {
        assert(names_rest@ =~= names@.subrange(1, names@.len() as int));
        assert(names_out@.subrange(1, names_out@.len() as int) =~= names_tailv);
        assert(attrs_rest@ =~= (if attrs@.len() > 0 {
            attrs@.subrange(1, attrs@.len() as int)
        } else {
            attrs@
        }));
        assert(types_rest@ =~= (if types@.len() > 0 {
            types@.subrange(1, types@.len() as int)
        } else {
            types@
        }));
        lemma_zipped_names_ev_shift(names@, attrs@, types@, 0);
        assert(attrs_out@.subrange(1, attrs_out@.len() as int) =~= attrs_tailv);
        assert(types_out@.subrange(1, types_out@.len() as int) =~= types_tailv);
        lemma_zipped_names_ev_shift(names_out@, attrs_out@, types_out@, 0);
        if tm0 is Some {
            assert(zipped_names_ev(names_out@, attrs_out@, types_out@, 0) =~= map_token_events(
                zipped_names_ev(names@, attrs@, types@, 0),
                tm0->0,
            ));
        }
    }
    (names_out, attrs_out, types_out)
}

// ---------------------------------------------------------------------------
// Recursive rewriting of the tree nodes.
// ---------------------------------------------------------------------------

/// Rewrite the pairs of a punctuated expression list: every value and every
/// separator independently replaced, pair count and separator arity kept.
pub fn rewrite_expression_pairs<R: VisitorMut>(
    pairs: Vec<Pair<Expression>>,
    visitor: &mut R,
) -> (r: Vec<Pair<Expression>>)
    ensures
        trace_extends(old(visitor).seen(), final (visitor).seen()),
        r@.len() == pairs@.len(),
        forall|j: int|
            0 <= j < pairs@.len() ==> ((#[trigger] r@[j].separator) is Some <==> pairs@[j].separator
                is Some),
        at_most_one_unseparated(pairs@) ==> at_most_one_unseparated(r@),
        pairs@.len() > 0 ==> (final (visitor).seen()[old(visitor).seen().len() as int]
            matches RewriteEvent::EnterExpression { given, .. } && given == pairs@[0].value),
        old(visitor).identity() ==> (final (visitor).identity() && punctuated_expression_ev(r@, 0)
            == punctuated_expression_ev(pairs@, 0)),
        (old(visitor).token_map() matches Some(tmap) ==> (final (
        visitor).token_map() == old(visitor).token_map() && punctuated_expression_ev(r@, 0)
            == map_token_events(punctuated_expression_ev(pairs@, 0), tmap))),
    decreases punctuated_expression_size(pairs@, 0),
{
    let ghost id0 = visitor.identity();
    let ghost tm0 = visitor.token_map();
    let mut rest = pairs;
    if rest.len() == 0 {
        return rest;
    }
    let first = rest.remove(0);
    proof {
        assert(rest@ =~= pairs@.subrange(1, pairs@.len() as int));
        lemma_punctuated_expression_size_suffix(pairs@, 1);
    }
    let value = first.value.visit_mut(visitor);
    let separator = rewrite_opt_token(first.separator, visitor);
    let tail = rewrite_expression_pairs(rest, visitor);
    let ghost tailv = tail@;
    let mut result = tail;
    result.insert(0, Pair { value, separator });
    proof {
        assert(result@.subrange(1, result@.len() as int) =~= tailv);
        lemma_punctuated_expression_ev_suffix(pairs@, 1);
        lemma_punctuated_expression_ev_suffix(result@, 1);
        if tm0 is Some {
            assert(punctuated_expression_ev(result@, 0) =~= map_token_events(punctuated_expression_ev(pairs@, 0), tm0->0));
        }
    }
    result
}

/// Rewrite the pairs of a punctuated field list: every value and every
/// separator independently replaced, pair count and separator arity kept.
pub fn rewrite_field_pairs<R: VisitorMut>(pairs: Vec<Pair<Field>>, visitor: &mut R) -> (r: Vec<
    Pair<Field>,
>)
    ensures
        trace_extends(old(visitor).seen(), final (visitor).seen()),
        r@.len() == pairs@.len(),
        forall|j: int|
            0 <= j < pairs@.len() ==> ((#[trigger] r@[j].separator) is Some <==> pairs@[j].separator
                is Some),
        at_most_one_unseparated(pairs@) ==> at_most_one_unseparated(r@),
        pairs@.len() > 0 ==> (final (visitor).seen()[old(visitor).seen().len() as int]
            matches RewriteEvent::EnterField { given, .. } && given == pairs@[0].value),
        old(visitor).identity() ==> (final (visitor).identity() && punctuated_field_ev(r@, 0)
            == punctuated_field_ev(pairs@, 0)),
        (old(visitor).token_map() matches Some(tmap) ==> (final (
        visitor).token_map() == old(visitor).token_map() && punctuated_field_ev(r@, 0)
            == map_token_events(punctuated_field_ev(pairs@, 0), tmap))),
    decreases punctuated_field_size(pairs@, 0),
{
    let ghost id0 = visitor.identity();
    let ghost tm0 = visitor.token_map();
    let mut rest = pairs;
    if rest.len() == 0 {
        return rest;
    }
    let first = rest.remove(0);
    proof {
        assert(rest@ =~= pairs@.subrange(1, pairs@.len() as int));
        lemma_punctuated_field_size_suffix(pairs@, 1);
    }
    let value = first.value.visit_mut(visitor);
    let separator = rewrite_opt_token(first.separator, visitor);
    let tail = rewrite_field_pairs(rest, visitor);
    let ghost tailv = tail@;
    let mut result = tail;
    result.insert(0, Pair { value, separator });
    proof {
        assert(result@.subrange(1, result@.len() as int) =~= tailv);
        lemma_punctuated_field_ev_suffix(pairs@, 1);
        lemma_punctuated_field_ev_suffix(result@, 1);
        if tm0 is Some {
            assert(punctuated_field_ev(result@, 0) =~= map_token_events(punctuated_field_ev(pairs@, 0), tm0->0));
        }
    }
    result
}

/// Rewrite the statements of a block, one for one and in order.
pub fn rewrite_statements<R: VisitorMut>(statements: Vec<Stmt>, visitor: &mut R) -> (r: Vec<Stmt>)
    ensures
        trace_extends(old(visitor).seen(), final (visitor).seen()),
        r@.len() == statements@.len(),
        statements@.len() > 0 ==> final (visitor).seen().len() > old(visitor).seen().len(),
        old(visitor).identity() ==> (final (visitor).identity() && statements_ev(r@, 0)
            == statements_ev(statements@, 0)),
        (old(visitor).token_map() matches Some(tmap) ==> (final (
        visitor).token_map() == old(visitor).token_map() && statements_ev(r@, 0)
            == map_token_events(statements_ev(statements@, 0), tmap))),
    decreases statements_size(statements@, 0),
{
    let ghost id0 = visitor.identity();
    let ghost tm0 = visitor.token_map();
    let mut rest = statements;
    if rest.len() == 0 {
        return rest;
    }
    let first = rest.remove(0);
    proof {
        assert(rest@ =~= statements@.subrange(1, statements@.len() as int));
        lemma_statements_size_suffix(statements@, 1);
    }
    let new_first = first.visit_mut(visitor);
    let tail = rewrite_statements(rest, visitor);
    let ghost tailv = tail@;
    let mut result = tail;
    result.insert(0, new_first);
    proof {
        assert(result@.subrange(1, result@.len() as int) =~= tailv);
        lemma_statements_ev_suffix(statements@, 1);
        lemma_statements_ev_suffix(result@, 1);
        if tm0 is Some {
            assert(statements_ev(result@, 0) =~= map_token_events(statements_ev(statements@, 0), tm0->0));
        }
    }
    result
}

/// Rewrite an optional expression, preserving its presence.
pub fn rewrite_opt_expression<R: VisitorMut>(e: Option<Box<Expression>>, visitor: &mut R) -> (r:
    Option<Box<Expression>>)
    ensures
        trace_extends(old(visitor).seen(), final (visitor).seen()),
        r is Some <==> e is Some,
        e is None ==> final (visitor).seen() == old(visitor).seen(),
        (e matches Some(x) ==> (r matches Some(x2) && final (visitor).seen().len() >= old(
        visitor).seen().len() + 2 && (final (visitor).seen()[old(visitor).seen().len() as int]
            matches RewriteEvent::EnterExpression { given, .. } && given == *x) && (final (
        visitor).seen().last() matches RewriteEvent::ExitExpression { returned, .. } && returned
            == *x2))),
        old(visitor).identity() ==> (final (visitor).identity() && opt_expression_ev(r)
            == opt_expression_ev(e)),
        (old(visitor).token_map() matches Some(tmap) ==> (final (
        visitor).token_map() == old(visitor).token_map() && opt_expression_ev(r)
            == map_token_events(opt_expression_ev(e), tmap))),
    decreases opt_expression_size(e),
{
    match e {
        Some(e) => Some(Box::new((*e).visit_mut(visitor))),
        None => None,
    }
}

impl Field {
    /// Rewrite this field: enter hook, the matched variant's children in
    /// source order, exit hook.
    pub fn visit_mut<R: VisitorMut>(self, visitor: &mut R) -> (r: Field)
        ensures
            trace_extends(old(visitor).seen(), final (visitor).seen()),
            final (visitor).seen().len() >= old(visitor).seen().len() + 2,
            (final (visitor).seen()[old(visitor).seen().len() as int] matches
                RewriteEvent::EnterField { given, returned } && given == self && (final (
            visitor).seen().last() matches RewriteEvent::ExitField { given: rebuilt_node, returned: out }
                && out == r && (same_field_variant(returned, rebuilt_node)))),
            old(visitor).identity() ==> (final (visitor).identity() && r.events() == self.events()),
            (old(visitor).token_map() matches Some(tmap) ==> (final (
            visitor).token_map() == old(visitor).token_map() && r.events()
                == map_token_events(self.events(), tmap))),
            old(visitor).token_map() is Some ==> same_field_variant(self, r),
        decreases self.size(),
    {
        let ghost id0 = visitor.identity();
        let ghost tm0 = visitor.token_map();
        let ghost t0 = visitor.seen();
        let node = visitor.visit_field(self);
        let ghost t1 = visitor.seen();
        let rebuilt = match node {
            Field::ExpressionKey { brackets, key, equal, value } => {
                let open_token = brackets.open_token.visit_mut(visitor);
                let key = Box::new((*key).visit_mut(visitor));
                let close_token = brackets.close_token.visit_mut(visitor);
                let equal = equal.visit_mut(visitor);
                let value = Box::new((*value).visit_mut(visitor));
                let built = Field::ExpressionKey {
                    brackets: ContainedSpan { open_token, close_token },
                    key,
                    equal,
                    value,
                };
                proof {
                    assert(same_field_variant(node, built));
                    if id0 {
                        assert(built.events() == node.events());
                    }
                    if tm0 is Some {
                        assert(built.events() =~= map_token_events(node.events(), tm0->0));
                    }
                }
                built
            },
            Field::NameKey { key, equal, value } => {
                let key = key.visit_mut(visitor);
                let equal = equal.visit_mut(visitor);
                let value = Box::new((*value).visit_mut(visitor));
                let built = Field::NameKey { key, equal, value };
                proof {
                    assert(same_field_variant(node, built));
                    if id0 {
                        assert(built.events() == node.events());
                    }
                    if tm0 is Some {
                        assert(built.events() =~= map_token_events(node.events(), tm0->0));
                    }
                }
                built
            },
            Field::NoKey(value) => {
                let built = Field::NoKey(Box::new((*value).visit_mut(visitor)));
                proof {
                    assert(same_field_variant(node, built));
                    if id0 {
                        assert(built.events() == node.events());
                    }
                    if tm0 is Some {
                        assert(built.events() =~= map_token_events(node.events(), tm0->0));
                    }
                }
                built
            },
            Field::SetConstructor { dot, name } => {
                let dot = dot.visit_mut(visitor);
                let name = name.visit_mut(visitor);
                let built = Field::SetConstructor { dot, name };
                proof {
                    assert(same_field_variant(node, built));
                    if id0 {
                        assert(built.events() == node.events());
                    }
                    if tm0 is Some {
                        assert(built.events() =~= map_token_events(node.events(), tm0->0));
                    }
                }
                built
            },
        };
        let ghost t2 = visitor.seen();
        let r = visitor.visit_field_end(rebuilt);
        proof {
            assert(trace_extends(t1, t2));
            assert(trace_extends(t0, visitor.seen()));
            assert(visitor.seen()[t0.len() as int] == t1[t0.len() as int]);
        }
        r
    }
}

impl Expression {
    /// Rewrite this expression: enter hook, the matched variant's children
    /// in source order, exit hook.
    pub fn visit_mut<R: VisitorMut>(self, visitor: &mut R) -> (r: Expression)
        ensures
            trace_extends(old(visitor).seen(), final (visitor).seen()),
            final (visitor).seen().len() >= old(visitor).seen().len() + 2,
            (final (visitor).seen()[old(visitor).seen().len() as int] matches
                RewriteEvent::EnterExpression { given, returned } && given == self && (final (
            visitor).seen().last() matches RewriteEvent::ExitExpression { given: rebuilt_node, returned: out }
                && out == r && (same_expression_variant(returned, rebuilt_node)))),
            old(visitor).identity() ==> (final (visitor).identity() && r.events() == self.events()),
            (old(visitor).token_map() matches Some(tmap) ==> (final (
            visitor).token_map() == old(visitor).token_map() && r.events()
                == map_token_events(self.events(), tmap))),
            old(visitor).token_map() is Some ==> same_expression_variant(self, r),
        decreases self.size(),
    {
        let ghost id0 = visitor.identity();
        let ghost tm0 = visitor.token_map();
        let ghost t0 = visitor.seen();
        let node = visitor.visit_expression(self);
        let ghost t1 = visitor.seen();
        let rebuilt = match node {
            Expression::BinaryOperator { lhs, binop, rhs } => {
                let lhs = Box::new((*lhs).visit_mut(visitor));
                let binop = binop.visit_mut(visitor);
                let rhs = Box::new((*rhs).visit_mut(visitor));
                let built = Expression::BinaryOperator { lhs, binop, rhs };
                proof {
                    assert(same_expression_variant(node, built));
                    if id0 {
                        assert(built.events() == node.events());
                    }
                    if tm0 is Some {
                        assert(built.events() =~= map_token_events(node.events(), tm0->0));
                    }
                }
                built
            },
            Expression::Parentheses { contained, expression } => {
                let open_token = contained.open_token.visit_mut(visitor);
                let expression = Box::new((*expression).visit_mut(visitor));
                let close_token = contained.close_token.visit_mut(visitor);
                let built = Expression::Parentheses {
                    contained: ContainedSpan { open_token, close_token },
                    expression,
                };
                proof {
                    assert(same_expression_variant(node, built));
                    if id0 {
                        assert(built.events() == node.events());
                    }
                    if tm0 is Some {
                        assert(built.events() =~= map_token_events(node.events(), tm0->0));
                    }
                }
                built
            },
            Expression::UnaryOperator { unop, expression } => {
                let unop = unop.visit_mut(visitor);
                let expression = Box::new((*expression).visit_mut(visitor));
                let built = Expression::UnaryOperator { unop, expression };
                proof {
                    assert(same_expression_variant(node, built));
                    if id0 {
                        assert(built.events() == node.events());
                    }
                    if tm0 is Some {
                        assert(built.events() =~= map_token_events(node.events(), tm0->0));
                    }
                }
                built
            },
            Expression::Function { function_token, body } => {
                let function_token = function_token.visit_mut(visitor);
                let body = Box::new((*body).visit_mut(visitor));
                let built = Expression::Function { function_token, body };
                proof {
                    assert(same_expression_variant(node, built));
                    if id0 {
                        assert(built.events() == node.events());
                    }
                    if tm0 is Some {
                        assert(built.events() =~= map_token_events(node.events(), tm0->0));
                    }
                }
                built
            },
            Expression::FunctionCall(call) => {
                let built = Expression::FunctionCall(call.visit_mut(visitor));
                proof {
                    assert(same_expression_variant(node, built));
                    if id0 {
                        assert(built.events() == node.events());
                    }
                    if tm0 is Some {
                        assert(built.events() =~= map_token_events(node.events(), tm0->0));
                    }
                }
                built
            },
            Expression::IfExpression(if_expression) => {
                let built = Expression::IfExpression(Box::new((*if_expression).visit_mut(visitor)));
                proof {
                    assert(same_expression_variant(node, built));
                    if id0 {
                        assert(built.events() == node.events());
                    }
                    if tm0 is Some {
                        assert(built.events() =~= map_token_events(node.events(), tm0->0));
                    }
                }
                built
            },
            Expression::InterpolatedString(interpolated) => {
                let built = Expression::InterpolatedString(
                    Box::new((*interpolated).visit_mut(visitor)),
                );
                proof {
                    assert(same_expression_variant(node, built));
                    if id0 {
                        assert(built.events() == node.events());
                    }
                    if tm0 is Some {
                        assert(built.events() =~= map_token_events(node.events(), tm0->0));
                    }
                }
                built
            },
            Expression::TableConstructor(table) => {
                let built = Expression::TableConstructor(table.visit_mut(visitor));
                proof {
                    assert(same_expression_variant(node, built));
                    if id0 {
                        assert(built.events() == node.events());
                    }
                    if tm0 is Some {
                        assert(built.events() =~= map_token_events(node.events(), tm0->0));
                    }
                }
                built
            },
            Expression::TypeAssertion { expression, type_assertion } => {
                let expression = Box::new((*expression).visit_mut(visitor));
                let type_assertion = type_assertion.visit_mut(visitor);
                let built = Expression::TypeAssertion { expression, type_assertion };
                proof {
                    assert(same_expression_variant(node, built));
                    if id0 {
                        assert(built.events() == node.events());
                    }
                    if tm0 is Some {
                        assert(built.events() =~= map_token_events(node.events(), tm0->0));
                    }
                }
                built
            },
            Expression::Number(token) => {
                let built = Expression::Number(token.visit_mut(visitor));
                proof {
                    assert(same_expression_variant(node, built));
                    if id0 {
                        assert(built.events() == node.events());
                    }
                    if tm0 is Some {
                        assert(built.events() =~= map_token_events(node.events(), tm0->0));
                    }
                }
                built
            },
            Expression::StringLiteral(token) => {
                let built = Expression::StringLiteral(token.visit_mut(visitor));
                proof {
                    assert(same_expression_variant(node, built));
                    if id0 {
                        assert(built.events() == node.events());
                    }
                    if tm0 is Some {
                        assert(built.events() =~= map_token_events(node.events(), tm0->0));
                    }
                }
                built
            },
            Expression::Symbol(token) => {
                let built = Expression::Symbol(token.visit_mut(visitor));
                proof {
                    assert(same_expression_variant(node, built));
                    if id0 {
                        assert(built.events() == node.events());
                    }
                    if tm0 is Some {
                        assert(built.events() =~= map_token_events(node.events(), tm0->0));
                    }
                }
                built
            },
            Expression::Var(var) => {
                let built = Expression::Var(var.visit_mut(visitor));
                proof {
                    assert(same_expression_variant(node, built));
                    if id0 {
                        assert(built.events() == node.events());
                    }
                    if tm0 is Some {
                        assert(built.events() =~= map_token_events(node.events(), tm0->0));
                    }
                }
                built
            },
        };
        let ghost t2 = visitor.seen();
        let r = visitor.visit_expression_end(rebuilt);
        proof {
            assert(trace_extends(t1, t2));
            assert(trace_extends(t0, visitor.seen()));
            assert(visitor.seen()[t0.len() as int] == t1[t0.len() as int]);
        }
        r
    }
}

impl Index {
    /// Rewrite this index: enter hook, either the brackets around the
    /// indexing expression or the dot then the name, exit hook.
    pub fn visit_mut<R: VisitorMut>(self, visitor: &mut R) -> (r: Index)
        ensures
            trace_extends(old(visitor).seen(), final (visitor).seen()),
            final (visitor).seen().len() >= old(visitor).seen().len() + 2,
            (final (visitor).seen()[old(visitor).seen().len() as int] matches
                RewriteEvent::EnterIndex { given, returned } && given == self && (final (
            visitor).seen().last() matches RewriteEvent::ExitIndex { given: rebuilt_node, returned: out }
                && out == r && (same_index_variant(returned, rebuilt_node)))),
            old(visitor).identity() ==> (final (visitor).identity() && r.events() == self.events()),
            (old(visitor).token_map() matches Some(tmap) ==> (final (
            visitor).token_map() == old(visitor).token_map() && r.events()
                == map_token_events(self.events(), tmap))),
            old(visitor).token_map() is Some ==> same_index_variant(self, r),
        decreases self.size(),
    {
        let ghost id0 = visitor.identity();
        let ghost tm0 = visitor.token_map();
        let ghost t0 = visitor.seen();
        let node = visitor.visit_index(self);
        let ghost t1 = visitor.seen();
        let rebuilt = match node {
            Index::Brackets { brackets, expression } => {
                let open_token = brackets.open_token.visit_mut(visitor);
                let expression = Box::new((*expression).visit_mut(visitor));
                let close_token = brackets.close_token.visit_mut(visitor);
                let built = Index::Brackets {
                    brackets: ContainedSpan { open_token, close_token },
                    expression,
                };
                proof {
                    assert(same_index_variant(node, built));
                    if id0 {
                        assert(built.events() == node.events());
                    }
                    if tm0 is Some {
                        assert(built.events() =~= map_token_events(node.events(), tm0->0));
                    }
                }
                built
            },
            Index::Dot { dot, name } => {
                let dot = dot.visit_mut(visitor);
                let name = name.visit_mut(visitor);
                let built = Index::Dot { dot, name };
                proof {
                    assert(same_index_variant(node, built));
                    if id0 {
                        assert(built.events() == node.events());
                    }
                    if tm0 is Some {
                        assert(built.events() =~= map_token_events(node.events(), tm0->0));
                    }
                }
                built
            },
        };
        let ghost t2 = visitor.seen();
        let r = visitor.visit_index_end(rebuilt);
        proof {
            assert(trace_extends(t1, t2));
            assert(trace_extends(t0, visitor.seen()));
            assert(visitor.seen()[t0.len() as int] == t1[t0.len() as int]);
        }
        r
    }
}

impl FunctionArgs {
    /// Rewrite these call arguments: enter hook, the matched variant's
    /// children in source order, exit hook.
    pub fn visit_mut<R: VisitorMut>(self, visitor: &mut R) -> (r: FunctionArgs)
        ensures
            trace_extends(old(visitor).seen(), final (visitor).seen()),
            final (visitor).seen().len() >= old(visitor).seen().len() + 2,
            (final (visitor).seen()[old(visitor).seen().len() as int] matches
                RewriteEvent::EnterFunctionArgs { given, returned } && given == self && (final (
            visitor).seen().last() matches RewriteEvent::ExitFunctionArgs { given: rebuilt_node, returned: out }
                && out == r && (same_function_args_variant(returned, rebuilt_node)
                && (returned matches FunctionArgs::Parentheses { arguments: a_in, .. }
                ==> (rebuilt_node matches FunctionArgs::Parentheses { arguments: a_out, .. }
                && a_out.pairs@.len() == a_in.pairs@.len() && (forall|j: int| 0 <= j < a_in.pairs@.len() ==> ((#[trigger] a_out.pairs@[j].separator) is Some <==> a_in.pairs@[j].separator is Some))))))),
            old(visitor).identity() ==> (final (visitor).identity() && r.events() == self.events()),
            (old(visitor).token_map() matches Some(tmap) ==> (final (
            visitor).token_map() == old(visitor).token_map() && r.events()
                == map_token_events(self.events(), tmap))),
            old(visitor).token_map() is Some ==> (same_function_args_variant(self, r) && (self
                matches FunctionArgs::Parentheses { arguments: a_in, .. } ==> (r matches
            FunctionArgs::Parentheses { arguments: a_out, .. } && a_out.pairs@.len()
                == a_in.pairs@.len() && (forall|j: int|
                0 <= j < a_in.pairs@.len() ==> ((#[trigger] a_out.pairs@[j].separator) is Some
                    <==> a_in.pairs@[j].separator is Some))))),
        decreases self.size(),
    {
        let ghost id0 = visitor.identity();
        let ghost tm0 = visitor.token_map();
        let ghost t0 = visitor.seen();
        let node = visitor.visit_function_args(self);
        let ghost t1 = visitor.seen();
        let rebuilt = match node {
            FunctionArgs::Parentheses { parentheses, arguments } => {
                let open_token = parentheses.open_token.visit_mut(visitor);
                let arguments = Punctuated {
                    pairs: rewrite_expression_pairs(arguments.pairs, visitor),
                };
                let close_token = parentheses.close_token.visit_mut(visitor);
                let built = FunctionArgs::Parentheses {
                    parentheses: ContainedSpan { open_token, close_token },
                    arguments,
                };
                proof {
                    assert(same_function_args_variant(node, built));
                    if id0 {
                        assert(built.events() == node.events());
                    }
                    if tm0 is Some {
                        assert(built.events() =~= map_token_events(node.events(), tm0->0));
                    }
                }
                built
            },
            FunctionArgs::StringLiteral(token) => {
                let built = FunctionArgs::StringLiteral(token.visit_mut(visitor));
                proof {
                    assert(same_function_args_variant(node, built));
                    if id0 {
                        assert(built.events() == node.events());
                    }
                    if tm0 is Some {
                        assert(built.events() =~= map_token_events(node.events(), tm0->0));
                    }
                }
                built
            },
            FunctionArgs::TableConstructor(table) => {
                let built = FunctionArgs::TableConstructor(table.visit_mut(visitor));
                proof {
                    assert(same_function_args_variant(node, built));
                    if id0 {
                        assert(built.events() == node.events());
                    }
                    if tm0 is Some {
                        assert(built.events() =~= map_token_events(node.events(), tm0->0));
                    }
                }
                built
            },
        };
        let ghost t2 = visitor.seen();
        let r = visitor.visit_function_args_end(rebuilt);
        proof {
            assert(trace_extends(t1, t2));
            assert(trace_extends(t0, visitor.seen()));
            assert(visitor.seen()[t0.len() as int] == t1[t0.len() as int]);
        }
        r
    }
}

impl Var {
    /// Rewrite this variable reference.
    pub fn visit_mut<R: VisitorMut>(self, visitor: &mut R) -> (r: Var)
        ensures
            trace_extends(old(visitor).seen(), final (visitor).seen()),
            (self matches Var::Name(t) ==> (r matches Var::Name(t2) && final (visitor).seen()
                == old(visitor).seen().push(RewriteEvent::Token { given: t@, returned: t2@ }))),
            (self matches Var::Indexed { base, index } ==> (r matches Var::Indexed {
                base: base2,
                index: index2,
            } && final (visitor).seen()[old(visitor).seen().len() as int] == (RewriteEvent::Token {
                given: base@,
                returned: base2@,
            }) && (final (visitor).seen().last() matches RewriteEvent::ExitIndex {
                returned,
                ..
            } && returned == index2))),
            old(visitor).identity() ==> (final (visitor).identity() && r.events() == self.events()),
            (old(visitor).token_map() matches Some(tmap) ==> (final (
            visitor).token_map() == old(visitor).token_map() && r.events()
                == map_token_events(self.events(), tmap))),
        decreases self.size(),
    {
        match self {
            Var::Name(token) => Var::Name(token.visit_mut(visitor)),
            Var::Indexed { base, index } => {
                let ghost t0 = visitor.seen();
                let base = base.visit_mut(visitor);
                let ghost t1 = visitor.seen();
                let index = index.visit_mut(visitor);
                proof {
                    assert(visitor.seen()[t0.len() as int] == t1[t0.len() as int]);
                }
                Var::Indexed { base, index }
            },
        }
    }
}

impl FunctionCall {
    /// Rewrite this call: the callee, then its arguments.
    pub fn visit_mut<R: VisitorMut>(self, visitor: &mut R) -> (r: FunctionCall)
        ensures
            trace_extends(old(visitor).seen(), final (visitor).seen()),
            final (visitor).seen()[old(visitor).seen().len() as int] == (RewriteEvent::Token {
                given: self.prefix@,
                returned: r.prefix@,
            }),
            (final (visitor).seen().last() matches RewriteEvent::ExitFunctionArgs {
                returned,
                ..
            } && returned == r.args),
            old(visitor).identity() ==> (final (visitor).identity() && r.events() == self.events()),
            (old(visitor).token_map() matches Some(tmap) ==> (final (
            visitor).token_map() == old(visitor).token_map() && r.events()
                == map_token_events(self.events(), tmap))),
        decreases self.size(),
    {
        let ghost t0 = visitor.seen();
        let prefix = self.prefix.visit_mut(visitor);
        let ghost t1 = visitor.seen();
        let args = self.args.visit_mut(visitor);
        proof {
            assert(visitor.seen()[t0.len() as int] == t1[t0.len() as int]);
        }
        FunctionCall { prefix, args }
    }
}

impl TableConstructor {
    /// Rewrite this table constructor: open brace, fields, close brace.
    pub fn visit_mut<R: VisitorMut>(self, visitor: &mut R) -> (r: TableConstructor)
        ensures
            trace_extends(old(visitor).seen(), final (visitor).seen()),
            final (visitor).seen()[old(visitor).seen().len() as int] == (RewriteEvent::Token {
                given: self.braces.open_token@,
                returned: r.braces.open_token@,
            }),
            final (visitor).seen().last() == (RewriteEvent::Token {
                given: self.braces.close_token@,
                returned: r.braces.close_token@,
            }),
            r.fields.pairs@.len() == self.fields.pairs@.len(),
            forall|j: int|
                0 <= j < self.fields.pairs@.len() ==> ((#[trigger] r.fields.pairs@[j].separator)
                    is Some <==> self.fields.pairs@[j].separator is Some),
            old(visitor).identity() ==> (final (visitor).identity() && r.events() == self.events()),
            (old(visitor).token_map() matches Some(tmap) ==> (final (
            visitor).token_map() == old(visitor).token_map() && r.events()
                == map_token_events(self.events(), tmap))),
        decreases self.size(),
    {
        let ghost t0 = visitor.seen();
        let open_token = self.braces.open_token.visit_mut(visitor);
        let ghost t1 = visitor.seen();
        let fields = Punctuated { pairs: rewrite_field_pairs(self.fields.pairs, visitor) };
        let close_token = self.braces.close_token.visit_mut(visitor);
        proof {
            assert(visitor.seen()[t0.len() as int] == t1[t0.len() as int]);
        }
        TableConstructor { braces: ContainedSpan { open_token, close_token }, fields }
    }
}

impl IfExpression {
    /// Rewrite this conditional expression.
    pub fn visit_mut<R: VisitorMut>(self, visitor: &mut R) -> (r: IfExpression)
        ensures
            trace_extends(old(visitor).seen(), final (visitor).seen()),
            final (visitor).seen()[old(visitor).seen().len() as int] == (RewriteEvent::Token {
                given: self.if_token@,
                returned: r.if_token@,
            }),
            (final (visitor).seen().last() matches RewriteEvent::ExitExpression { .. }),
            old(visitor).identity() ==> (final (visitor).identity() && r.events() == self.events()),
            (old(visitor).token_map() matches Some(tmap) ==> (final (
            visitor).token_map() == old(visitor).token_map() && r.events()
                == map_token_events(self.events(), tmap))),
        decreases self.size(),
    {
        let ghost t0 = visitor.seen();
        let if_token = self.if_token.visit_mut(visitor);
        let ghost t1 = visitor.seen();
        let condition = Box::new((*self.condition).visit_mut(visitor));
        let then_token = self.then_token.visit_mut(visitor);
        let if_expression = Box::new((*self.if_expression).visit_mut(visitor));
        let else_token = self.else_token.visit_mut(visitor);
        let else_expression = Box::new((*self.else_expression).visit_mut(visitor));
        proof {
            assert(visitor.seen()[t0.len() as int] == t1[t0.len() as int]);
        }
        IfExpression {
            if_token,
            condition,
            then_token,
            if_expression,
            else_token,
            else_expression,
        }
    }
}

impl InterpolatedString {
    /// Rewrite this interpolated string.
    pub fn visit_mut<R: VisitorMut>(self, visitor: &mut R) -> (r: InterpolatedString)
        ensures
            trace_extends(old(visitor).seen(), final (visitor).seen()),
            final (visitor).seen()[old(visitor).seen().len() as int] == (RewriteEvent::Token {
                given: self.start_string@,
                returned: r.start_string@,
            }),
            final (visitor).seen().last() == (RewriteEvent::Token {
                given: self.last_string@,
                returned: r.last_string@,
            }),
            old(visitor).identity() ==> (final (visitor).identity() && r.events() == self.events()),
            (old(visitor).token_map() matches Some(tmap) ==> (final (
            visitor).token_map() == old(visitor).token_map() && r.events()
                == map_token_events(self.events(), tmap))),
        decreases self.size(),
    {
        let ghost t0 = visitor.seen();
        let start_string = self.start_string.visit_mut(visitor);
        let ghost t1 = visitor.seen();
        let expression = Box::new((*self.expression).visit_mut(visitor));
        let last_string = self.last_string.visit_mut(visitor);
        proof {
            assert(visitor.seen()[t0.len() as int] == t1[t0.len() as int]);
        }
        InterpolatedString { start_string, expression, last_string }
    }
}

impl FunctionBody {
    /// Rewrite this function body: enter hook; generics, open parenthesis,
    /// the parameters re-zipped with their transformed type slots, close
    /// parenthesis, return type, block, end token; exit hook. The result's
    /// zip shape is well formed whatever came in.
    #[verifier::rlimit(60)]
    pub fn visit_mut<R: VisitorMut>(self, visitor: &mut R) -> (r: FunctionBody)
        ensures
            trace_extends(old(visitor).seen(), final (visitor).seen()),
            final (visitor).seen().len() >= old(visitor).seen().len() + 2,
            (final (visitor).seen()[old(visitor).seen().len() as int] matches
                RewriteEvent::EnterFunctionBody { given, returned } && given == self && (final (
            visitor).seen().last() matches RewriteEvent::ExitFunctionBody { given: rebuilt_node, returned: out }
                && out == r && (rebuilt_node.parameters.pairs@.len() == returned.parameters.pairs@.len()
                && (forall|j: int| 0 <= j < returned.parameters.pairs@.len() ==> ((#[trigger] rebuilt_node.parameters.pairs@[j].separator) is Some <==> returned.parameters.pairs@[j].separator is Some))
                && rebuilt_node.type_specifiers@.len() == returned.parameters.pairs@.len()
                && (forall|j: int| 0 <= j < returned.parameters.pairs@.len()
                ==> ((#[trigger] rebuilt_node.type_specifiers@[j]) is Some
                <==> (j < returned.type_specifiers@.len() && returned.type_specifiers@[j] is Some)))
                && (rebuilt_node.generics is Some <==> returned.generics is Some)
                && (rebuilt_node.return_type is Some <==> returned.return_type is Some)
                && rebuilt_node.block.statements@.len() == returned.block.statements@.len()))),
            old(visitor).identity() ==> (final (visitor).identity() && r.events() == self.events()),
            (old(visitor).token_map() matches Some(tmap) ==> (final (
            visitor).token_map() == old(visitor).token_map() && r.events()
                == map_token_events(self.events(), tmap))),
            old(visitor).token_map() is Some ==> (r.parameters.pairs@.len()
                == self.parameters.pairs@.len() && (forall|j: int|
                0 <= j < self.parameters.pairs@.len() ==> ((
                #[trigger] r.parameters.pairs@[j].separator) is Some
                    <==> self.parameters.pairs@[j].separator is Some)) && (forall|j: int|
                0 <= j < self.parameters.pairs@.len() ==> ((#[trigger] r.type_specifiers@[j])
                    is Some <==> (j < self.type_specifiers@.len() && self.type_specifiers@[j]
                    is Some))) && (r.generics is Some <==> self.generics is Some) && (r.return_type
                is Some <==> self.return_type is Some) && r.block.statements@.len()
                == self.block.statements@.len()),
            r.wf(),
        decreases self.size(),
    {
        let ghost id0 = visitor.identity();
        let ghost tm0 = visitor.token_map();
        let ghost t0 = visitor.seen();
        let node = visitor.visit_function_body(self);
        let ghost t1 = visitor.seen();
        let FunctionBody {
            generics,
            parameters_parentheses,
            parameters,
            type_specifiers,
            return_type,
            block,
            end_token,
        } = node;
        let generics = rewrite_opt_generic_declaration(generics, visitor);
        let open_token = parameters_parentheses.open_token.visit_mut(visitor);
        let no_attributes: Vec<Option<Attribute>> = Vec::new();
        let (new_parameters, absent_attributes, new_type_specifiers) = rewrite_zipped_names(
            parameters.pairs,
            no_attributes,
            type_specifiers,
            visitor,
        );
        let _ = absent_attributes;
        let close_token = parameters_parentheses.close_token.visit_mut(visitor);
        let return_type = rewrite_opt_type_specifier(return_type, visitor);
        let block = block.visit_mut(visitor);
        let end_token = end_token.visit_mut(visitor);
        let rebuilt = FunctionBody {
            generics,
            parameters_parentheses: ContainedSpan { open_token, close_token },
            parameters: Punctuated { pairs: new_parameters },
            type_specifiers: new_type_specifiers,
            return_type,
            block,
            end_token,
        };
        proof {
            crate::ast::lemma_zipped_names_ev_absent_attrs(
                new_parameters@,
                absent_attributes@,
                new_type_specifiers@,
                0,
            );
            if id0 {
                assert(rebuilt.events() == node.events());
            }
            if tm0 is Some {
                assert(rebuilt.events() =~= map_token_events(node.events(), tm0->0));
            }
        }
        let ghost t2 = visitor.seen();
        let r = visitor.visit_function_body_end(rebuilt);
        proof {
            assert(trace_extends(t1, t2));
            assert(trace_extends(t0, visitor.seen()));
            assert(visitor.seen()[t0.len() as int] == t1[t0.len() as int]);
        }
        r
    }
}

impl LocalAssignment {
    /// Rewrite this local binding: enter hook; keyword, the names re-zipped
    /// with their transformed attribute and type slots, the assignment
    /// token, the bound expressions; exit hook. The result's zip shape is
    /// well formed whatever came in.
    pub fn visit_mut<R: VisitorMut>(self, visitor: &mut R) -> (r: LocalAssignment)
        ensures
            trace_extends(old(visitor).seen(), final (visitor).seen()),
            final (visitor).seen().len() >= old(visitor).seen().len() + 2,
            (final (visitor).seen()[old(visitor).seen().len() as int] matches
                RewriteEvent::EnterLocalAssignment { given, returned } && given == self && (final (
            visitor).seen().last() matches RewriteEvent::ExitLocalAssignment { given: rebuilt_node, returned: out }
                && out == r && (rebuilt_node.name_list.pairs@.len() == returned.name_list.pairs@.len()
                && (forall|j: int| 0 <= j < returned.name_list.pairs@.len() ==> ((#[trigger] rebuilt_node.name_list.pairs@[j].separator) is Some <==> returned.name_list.pairs@[j].separator is Some))
                && rebuilt_node.attributes@.len() == returned.name_list.pairs@.len()
                && rebuilt_node.type_specifiers@.len() == returned.name_list.pairs@.len()
                && (forall|j: int| 0 <= j < returned.name_list.pairs@.len()
                ==> ((#[trigger] rebuilt_node.attributes@[j]) is Some
                <==> (j < returned.attributes@.len() && returned.attributes@[j] is Some)))
                && (forall|j: int| 0 <= j < returned.name_list.pairs@.len()
                ==> ((#[trigger] rebuilt_node.type_specifiers@[j]) is Some
                <==> (j < returned.type_specifiers@.len() && returned.type_specifiers@[j] is Some)))
                && (rebuilt_node.equal_token is Some <==> returned.equal_token is Some)
                && rebuilt_node.expr_list.pairs@.len() == returned.expr_list.pairs@.len()
                && (forall|j: int| 0 <= j < returned.expr_list.pairs@.len() ==> ((#[trigger] rebuilt_node.expr_list.pairs@[j].separator) is Some <==> returned.expr_list.pairs@[j].separator is Some))))),
            old(visitor).identity() ==> (final (visitor).identity() && r.events() == self.events()),
            (old(visitor).token_map() matches Some(tmap) ==> (final (
            visitor).token_map() == old(visitor).token_map() && r.events()
                == map_token_events(self.events(), tmap))),
            old(visitor).token_map() is Some ==> (r.name_list.pairs@.len()
                == self.name_list.pairs@.len() && (forall|j: int|
                0 <= j < self.name_list.pairs@.len() ==> ((
                #[trigger] r.name_list.pairs@[j].separator) is Some
                    <==> self.name_list.pairs@[j].separator is Some)) && (forall|j: int|
                0 <= j < self.name_list.pairs@.len() ==> ((#[trigger] r.attributes@[j]) is Some
                    <==> (j < self.attributes@.len() && self.attributes@[j] is Some))) && (
            forall|j: int|
                0 <= j < self.name_list.pairs@.len() ==> ((#[trigger] r.type_specifiers@[j])
                    is Some <==> (j < self.type_specifiers@.len() && self.type_specifiers@[j]
                    is Some))) && (r.equal_token is Some <==> self.equal_token is Some)
                && r.expr_list.pairs@.len() == self.expr_list.pairs@.len()),
            r.wf(),
        decreases self.size(),
    {
        let ghost id0 = visitor.identity();
        let ghost tm0 = visitor.token_map();
        let ghost t0 = visitor.seen();
        let node = visitor.visit_local_assignment(self);
        let ghost t1 = visitor.seen();
        let LocalAssignment {
            local_token,
            name_list,
            attributes,
            type_specifiers,
            equal_token,
            expr_list,
        } = node;
        let local_token = local_token.visit_mut(visitor);
        let (new_names, new_attributes, new_type_specifiers) = rewrite_zipped_names(
            name_list.pairs,
            attributes,
            type_specifiers,
            visitor,
        );
        let equal_token = rewrite_opt_token(equal_token, visitor);
        let expr_list = Punctuated { pairs: rewrite_expression_pairs(expr_list.pairs, visitor) };
        let rebuilt = LocalAssignment {
            local_token,
            name_list: Punctuated { pairs: new_names },
            attributes: new_attributes,
            type_specifiers: new_type_specifiers,
            equal_token,
            expr_list,
        };
        proof {
            if id0 {
                assert(rebuilt.events() == node.events());
            }
            if tm0 is Some {
                assert(rebuilt.events() =~= map_token_events(node.events(), tm0->0));
            }
        }
        let ghost t2 = visitor.seen();
        let r = visitor.visit_local_assignment_end(rebuilt);
        proof {
            assert(trace_extends(t1, t2));
            assert(trace_extends(t0, visitor.seen()));
            assert(visitor.seen()[t0.len() as int] == t1[t0.len() as int]);
        }
        r
    }
}

impl GenericFor {
    /// Rewrite this generic iteration: enter hook; keyword, the loop
    /// variables re-zipped with their transformed type slots, the `in`
    /// token, the iterated expressions, the `do` token, block, end token;
    /// exit hook. The result's zip shape is well formed whatever came in.
    pub fn visit_mut<R: VisitorMut>(self, visitor: &mut R) -> (r: GenericFor)
        ensures
            trace_extends(old(visitor).seen(), final (visitor).seen()),
            final (visitor).seen().len() >= old(visitor).seen().len() + 2,
            (final (visitor).seen()[old(visitor).seen().len() as int] matches
                RewriteEvent::EnterGenericFor { given, returned } && given == self && (final (
            visitor).seen().last() matches RewriteEvent::ExitGenericFor { given: rebuilt_node, returned: out }
                && out == r && (rebuilt_node.names.pairs@.len() == returned.names.pairs@.len()
                && (forall|j: int| 0 <= j < returned.names.pairs@.len() ==> ((#[trigger] rebuilt_node.names.pairs@[j].separator) is Some <==> returned.names.pairs@[j].separator is Some))
                && rebuilt_node.type_specifiers@.len() == returned.names.pairs@.len()
                && (forall|j: int| 0 <= j < returned.names.pairs@.len()
                ==> ((#[trigger] rebuilt_node.type_specifiers@[j]) is Some
                <==> (j < returned.type_specifiers@.len() && returned.type_specifiers@[j] is Some)))
                && rebuilt_node.expr_list.pairs@.len() == returned.expr_list.pairs@.len()
                && (forall|j: int| 0 <= j < returned.expr_list.pairs@.len() ==> ((#[trigger] rebuilt_node.expr_list.pairs@[j].separator) is Some <==> returned.expr_list.pairs@[j].separator is Some))
                && rebuilt_node.block.statements@.len() == returned.block.statements@.len()))),
            old(visitor).identity() ==> (final (visitor).identity() && r.events() == self.events()),
            (old(visitor).token_map() matches Some(tmap) ==> (final (
            visitor).token_map() == old(visitor).token_map() && r.events()
                == map_token_events(self.events(), tmap))),
            old(visitor).token_map() is Some ==> (r.names.pairs@.len() == self.names.pairs@.len()
                && (forall|j: int|
                0 <= j < self.names.pairs@.len() ==> ((#[trigger] r.names.pairs@[j].separator)
                    is Some <==> self.names.pairs@[j].separator is Some)) && (forall|j: int|
                0 <= j < self.names.pairs@.len() ==> ((#[trigger] r.type_specifiers@[j]) is Some
                    <==> (j < self.type_specifiers@.len() && self.type_specifiers@[j] is Some)))
                && r.expr_list.pairs@.len() == self.expr_list.pairs@.len()
                && r.block.statements@.len() == self.block.statements@.len()),
            r.wf(),
        decreases self.size(),
    {
        let ghost id0 = visitor.identity();
        let ghost tm0 = visitor.token_map();
        let ghost t0 = visitor.seen();
        let node = visitor.visit_generic_for(self);
        let ghost t1 = visitor.seen();
        let GenericFor {
            for_token,
            names,
            type_specifiers,
            in_token,
            expr_list,
            do_token,
            block,
            end_token,
        } = node;
        let for_token = for_token.visit_mut(visitor);
        let no_attributes: Vec<Option<Attribute>> = Vec::new();
        let (new_names, absent_attributes, new_type_specifiers) = rewrite_zipped_names(
            names.pairs,
            no_attributes,
            type_specifiers,
            visitor,
        );
        let _ = absent_attributes;
        let in_token = in_token.visit_mut(visitor);
        let expr_list = Punctuated { pairs: rewrite_expression_pairs(expr_list.pairs, visitor) };
        let do_token = do_token.visit_mut(visitor);
        let block = block.visit_mut(visitor);
        let end_token = end_token.visit_mut(visitor);
        let rebuilt = GenericFor {
            for_token,
            names: Punctuated { pairs: new_names },
            type_specifiers: new_type_specifiers,
            in_token,
            expr_list,
            do_token,
            block,
            end_token,
        };
        proof {
            crate::ast::lemma_zipped_names_ev_absent_attrs(
                new_names@,
                absent_attributes@,
                new_type_specifiers@,
                0,
            );
            if id0 {
                assert(rebuilt.events() == node.events());
            }
            if tm0 is Some {
                assert(rebuilt.events() =~= map_token_events(node.events(), tm0->0));
            }
        }
        let ghost t2 = visitor.seen();
        let r = visitor.visit_generic_for_end(rebuilt);
        proof {
            assert(trace_extends(t1, t2));
            assert(trace_extends(t0, visitor.seen()));
            assert(visitor.seen()[t0.len() as int] == t1[t0.len() as int]);
        }
        r
    }
}

impl NumericFor {
    /// Rewrite this numeric iteration: enter hook; keyword, loop variable,
    /// optional type slot, the bound expressions with their commas, the
    /// `do` token, block, end token; exit hook.
    #[verifier::rlimit(60)]
    pub fn visit_mut<R: VisitorMut>(self, visitor: &mut R) -> (r: NumericFor)
        ensures
            trace_extends(old(visitor).seen(), final (visitor).seen()),
            final (visitor).seen().len() >= old(visitor).seen().len() + 2,
            (final (visitor).seen()[old(visitor).seen().len() as int] matches
                RewriteEvent::EnterNumericFor { given, returned } && given == self && (final (
            visitor).seen().last() matches RewriteEvent::ExitNumericFor { given: rebuilt_node, returned: out }
                && out == r && ((rebuilt_node.type_specifier is Some <==> returned.type_specifier is Some)
                && (rebuilt_node.end_step_comma is Some <==> returned.end_step_comma is Some)
                && (rebuilt_node.step is Some <==> returned.step is Some)
                && rebuilt_node.block.statements@.len() == returned.block.statements@.len()))),
            old(visitor).identity() ==> (final (visitor).identity() && r.events() == self.events()),
            (old(visitor).token_map() matches Some(tmap) ==> (final (
            visitor).token_map() == old(visitor).token_map() && r.events()
                == map_token_events(self.events(), tmap))),
            old(visitor).token_map() is Some ==> ((r.type_specifier is Some
                <==> self.type_specifier is Some) && (r.end_step_comma is Some
                <==> self.end_step_comma is Some) && (r.step is Some <==> self.step is Some)
                && r.block.statements@.len() == self.block.statements@.len()),
        decreases self.size(),
    {
        let ghost id0 = visitor.identity();
        let ghost tm0 = visitor.token_map();
        let ghost t0 = visitor.seen();
        let node = visitor.visit_numeric_for(self);
        let ghost t1 = visitor.seen();
        let NumericFor {
            for_token,
            index_variable,
            type_specifier,
            equal_token,
            start,
            start_end_comma,
            end,
            end_step_comma,
            step,
            do_token,
            block,
            end_token,
        } = node;
        let for_token = for_token.visit_mut(visitor);
        let index_variable = index_variable.visit_mut(visitor);
        let type_specifier = rewrite_opt_type_specifier(type_specifier, visitor);
        let equal_token = equal_token.visit_mut(visitor);
        let start = Box::new((*start).visit_mut(visitor));
        let start_end_comma = start_end_comma.visit_mut(visitor);
        let end = Box::new((*end).visit_mut(visitor));
        let end_step_comma = rewrite_opt_token(end_step_comma, visitor);
        let step = rewrite_opt_expression(step, visitor);
        let do_token = do_token.visit_mut(visitor);
        let block = block.visit_mut(visitor);
        let end_token = end_token.visit_mut(visitor);
        let rebuilt = NumericFor {
            for_token,
            index_variable,
            type_specifier,
            equal_token,
            start,
            start_end_comma,
            end,
            end_step_comma,
            step,
            do_token,
            block,
            end_token,
        };
        proof {
            if id0 {
                assert(rebuilt.events() == node.events());
            }
            if tm0 is Some {
                assert(rebuilt.events() =~= map_token_events(node.events(), tm0->0));
            }
        }
        let ghost t2 = visitor.seen();
        let r = visitor.visit_numeric_for_end(rebuilt);
        proof {
            assert(trace_extends(t1, t2));
            assert(trace_extends(t0, visitor.seen()));
            assert(visitor.seen()[t0.len() as int] == t1[t0.len() as int]);
        }
        r
    }
}

impl Stmt {
    /// Rewrite this statement.
    pub fn visit_mut<R: VisitorMut>(self, visitor: &mut R) -> (r: Stmt)
        ensures
            trace_extends(old(visitor).seen(), final (visitor).seen()),
            final (visitor).seen().len() >= old(visitor).seen().len() + 2,
            (self matches Stmt::LocalAssignment(local) ==> (r matches Stmt::LocalAssignment(out)
                && (final (visitor).seen()[old(visitor).seen().len() as int] matches
                RewriteEvent::EnterLocalAssignment { given, .. } && given == local) && (final (
            visitor).seen().last() matches RewriteEvent::ExitLocalAssignment { returned, .. }
                && returned == out))),
            (self matches Stmt::GenericFor(generic_for) ==> (r matches Stmt::GenericFor(out)
                && (final (visitor).seen()[old(visitor).seen().len() as int] matches
                RewriteEvent::EnterGenericFor { given, .. } && given == generic_for) && (final (
            visitor).seen().last() matches RewriteEvent::ExitGenericFor { returned, .. }
                && returned == out))),
            (self matches Stmt::NumericFor(numeric_for) ==> (r matches Stmt::NumericFor(out)
                && (final (visitor).seen()[old(visitor).seen().len() as int] matches
                RewriteEvent::EnterNumericFor { given, .. } && given == numeric_for) && (final (
            visitor).seen().last() matches RewriteEvent::ExitNumericFor { returned, .. }
                && returned == out))),
            old(visitor).identity() ==> (final (visitor).identity() && r.events() == self.events()),
            (old(visitor).token_map() matches Some(tmap) ==> (final (
            visitor).token_map() == old(visitor).token_map() && r.events()
                == map_token_events(self.events(), tmap))),
        decreases self.size(),
    {
        match self {
            Stmt::LocalAssignment(local) => Stmt::LocalAssignment(local.visit_mut(visitor)),
            Stmt::GenericFor(generic_for) => Stmt::GenericFor(generic_for.visit_mut(visitor)),
            Stmt::NumericFor(numeric_for) => Stmt::NumericFor(numeric_for.visit_mut(visitor)),
        }
    }
}

impl Block {
    /// Rewrite this block: its statements, one for one and in order.
    pub fn visit_mut<R: VisitorMut>(self, visitor: &mut R) -> (r: Block)
        ensures
            trace_extends(old(visitor).seen(), final (visitor).seen()),
            r.statements@.len() == self.statements@.len(),
            self.statements@.len() > 0 ==> final (visitor).seen().len() > old(
                visitor,
            ).seen().len(),
            old(visitor).identity() ==> (final (visitor).identity() && r.events() == self.events()),
            (old(visitor).token_map() matches Some(tmap) ==> (final (
            visitor).token_map() == old(visitor).token_map() && r.events()
                == map_token_events(self.events(), tmap))),
        decreases self.size(),
    {
        let statements = rewrite_statements(self.statements, visitor);
        Block { statements }
    }
}

} // verus!
