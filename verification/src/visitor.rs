//! The visitor and rewriter protocols: double-dispatch contracts — enter
//! hook, structural descent, exit hook — applied to every node.
use vstd::prelude::*;

use crate::ast::Expression;
use crate::ast::Field;
use crate::ast::FunctionArgs;
use crate::ast::FunctionBody;
use crate::ast::GenericFor;
use crate::ast::Index;
use crate::ast::LocalAssignment;
use crate::ast::NodeKind;
use crate::ast::NumericFor;
use crate::ast::RewriteEvent;
use crate::ast::VisitEvent;
use crate::token::Token;
use crate::token::TokenView;

verus! {

/// A read-only visitor. Its hooks may inspect but not alter the tree; its
/// observable protocol state is `seen()`, the ghost sequence of events it
/// has recorded so far. Each hook appends exactly its own event, so the
/// traversal's contract — that a visit appends exactly the node's event
/// sequence — pins which hooks fire, which tokens are visited, and their
/// order. An implementor carries a `Ghost` event log to back `seen()`.
pub trait Visitor: Sized {
    /// The events this visitor has recorded, in order.
    spec fn seen(&self) -> Seq<VisitEvent>;

    /// Called once for every token, in source order.
    fn visit_token(&mut self, token: &Token)
        ensures
            final (self).seen() == old(self).seen().push(VisitEvent::Token(token@)),
    ;

    /// Enter hook for a field node.
    fn visit_field(&mut self, node: &Field)
        ensures
            final (self).seen() == old(self).seen().push(VisitEvent::Enter(NodeKind::Field)),
    ;

    /// Exit hook for a field node.
    fn visit_field_end(&mut self, node: &Field)
        ensures
            final (self).seen() == old(self).seen().push(VisitEvent::Exit(NodeKind::Field)),
    ;

    /// Enter hook for an expression node.
    fn visit_expression(&mut self, node: &Expression)
        ensures
            final (self).seen() == old(self).seen().push(VisitEvent::Enter(NodeKind::Expression)),
    ;

    /// Exit hook for an expression node.
    fn visit_expression_end(&mut self, node: &Expression)
        ensures
            final (self).seen() == old(self).seen().push(VisitEvent::Exit(NodeKind::Expression)),
    ;

    /// Enter hook for an index node.
    fn visit_index(&mut self, node: &Index)
        ensures
            final (self).seen() == old(self).seen().push(VisitEvent::Enter(NodeKind::Index)),
    ;

    /// Exit hook for an index node.
    fn visit_index_end(&mut self, node: &Index)
        ensures
            final (self).seen() == old(self).seen().push(VisitEvent::Exit(NodeKind::Index)),
    ;

    /// Enter hook for a call-arguments node.
    fn visit_function_args(&mut self, node: &FunctionArgs)
        ensures
            final (self).seen() == old(self).seen().push(
                VisitEvent::Enter(NodeKind::FunctionArgs),
            ),
    ;

    /// Exit hook for a call-arguments node.
    fn visit_function_args_end(&mut self, node: &FunctionArgs)
        ensures
            final (self).seen() == old(self).seen().push(VisitEvent::Exit(NodeKind::FunctionArgs)),
    ;

    /// Enter hook for a function body node.
    fn visit_function_body(&mut self, node: &FunctionBody)
        ensures
            final (self).seen() == old(self).seen().push(
                VisitEvent::Enter(NodeKind::FunctionBody),
            ),
    ;

    /// Exit hook for a function body node.
    fn visit_function_body_end(&mut self, node: &FunctionBody)
        ensures
            final (self).seen() == old(self).seen().push(VisitEvent::Exit(NodeKind::FunctionBody)),
    ;

    /// Enter hook for a local-binding node.
    fn visit_local_assignment(&mut self, node: &LocalAssignment)
        ensures
            final (self).seen() == old(self).seen().push(
                VisitEvent::Enter(NodeKind::LocalAssignment),
            ),
    ;

    /// Exit hook for a local-binding node.
    fn visit_local_assignment_end(&mut self, node: &LocalAssignment)
        ensures
            final (self).seen() == old(self).seen().push(
                VisitEvent::Exit(NodeKind::LocalAssignment),
            ),
    ;

    /// Enter hook for a generic-iteration node.
    fn visit_generic_for(&mut self, node: &GenericFor)
        ensures
            final (self).seen() == old(self).seen().push(VisitEvent::Enter(NodeKind::GenericFor)),
    ;

    /// Exit hook for a generic-iteration node.
    fn visit_generic_for_end(&mut self, node: &GenericFor)
        ensures
            final (self).seen() == old(self).seen().push(VisitEvent::Exit(NodeKind::GenericFor)),
    ;

    /// Enter hook for a numeric-iteration node.
    fn visit_numeric_for(&mut self, node: &NumericFor)
        ensures
            final (self).seen() == old(self).seen().push(VisitEvent::Enter(NodeKind::NumericFor)),
    ;

    /// Exit hook for a numeric-iteration node.
    fn visit_numeric_for_end(&mut self, node: &NumericFor)
        ensures
            final (self).seen() == old(self).seen().push(VisitEvent::Exit(NodeKind::NumericFor)),
    ;
}

/// A transforming rewriter. Each hook takes the node by value and returns a
/// (possibly replaced) node of the same type; the descent rebuilds every
/// node from its transformed children. The rewriter's observable protocol
/// state is `seen()`, the ghost trace of hook calls it has answered so far:
/// each hook appends one record holding the value it was given and the value
/// it returned, so a rewrite's contract can say which hooks fired, in what
/// order, on what, and how the result is composed from what they handed
/// back. An implementor carries a `Ghost` trace to back `seen()`.
///
/// `identity()` marks a rewriter whose hooks leave their input's events —
/// and so its printed text — unchanged; for such a rewriter every rewrite is
/// contracted to be a no-op on the tree's event sequence. Hooks of the three
/// zipped-list node types also preserve the well-formed zip shape.
///
/// The descent recurses into whatever node an enter hook returned, so an
/// enter hook that grew its input without bound would let the rewrite run
/// forever. Each enter hook therefore promises not to increase the node's
/// structural measure; exit hooks carry no such bound, so a rewrite that
/// replaces a node with a larger one phrases the replacement in the exit
/// hook, where the descent is already done.
pub trait VisitorMut: Sized {
    /// The trace of hook calls this rewriter has answered, in order.
    spec fn seen(&self) -> Seq<RewriteEvent>;

    /// Whether this rewriter's hooks promise to change nothing.
    spec fn identity(&self) -> bool;

    /// A functional model of a token-only rewriter: when this is `Some(f)`,
    /// every node hook returns its argument unchanged and the token hook
    /// returns `f` of the token it was given, so a rewrite provably turns a
    /// node's event sequence `s` into `map_token_events(s, f)`. A rewriter
    /// that replaces nodes, or whose token hook is not a function of the
    /// token alone, publishes `None` and promises nothing here.
    spec fn token_map(&self) -> Option<spec_fn(TokenView) -> TokenView>;

    /// Rewrite one token. A token is replaced wholesale, never edited.
    fn visit_token(&mut self, token: Token) -> (r: Token)
        ensures
            final (self).seen() == old(self).seen().push(
                RewriteEvent::Token { given: token@, returned: r@ },
            ),
            old(self).identity() ==> (final (self).identity() && r@ == token@),
            (old(self).token_map() matches Some(f) ==> (final (self).token_map() == old(
            self).token_map() && r@ == f(token@))),
    ;

    /// Enter hook for a field node, recorded with its input and output.
    fn visit_field(&mut self, node: Field) -> (r: Field)
        ensures
            final (self).seen() == old(self).seen().push(
                RewriteEvent::EnterField { given: node, returned: r },
            ),
            old(self).identity() ==> (final (self).identity() && r.events() == node.events()),
            old(self).token_map() is Some ==> (final (self).token_map() == old(
                self,
            ).token_map() && r == node),
            r.size() <= node.size(),
    ;

    /// Exit hook for a field node, recorded with its input and output.
    fn visit_field_end(&mut self, node: Field) -> (r: Field)
        ensures
            final (self).seen() == old(self).seen().push(
                RewriteEvent::ExitField { given: node, returned: r },
            ),
            old(self).identity() ==> (final (self).identity() && r.events() == node.events()),
            old(self).token_map() is Some ==> (final (self).token_map() == old(
                self,
            ).token_map() && r == node),
    ;

    /// Enter hook for a expression node, recorded with its input and output.
    fn visit_expression(&mut self, node: Expression) -> (r: Expression)
        ensures
            final (self).seen() == old(self).seen().push(
                RewriteEvent::EnterExpression { given: node, returned: r },
            ),
            old(self).identity() ==> (final (self).identity() && r.events() == node.events()),
            old(self).token_map() is Some ==> (final (self).token_map() == old(
                self,
            ).token_map() && r == node),
            r.size() <= node.size(),
    ;

    /// Exit hook for a expression node, recorded with its input and output.
    fn visit_expression_end(&mut self, node: Expression) -> (r: Expression)
        ensures
            final (self).seen() == old(self).seen().push(
                RewriteEvent::ExitExpression { given: node, returned: r },
            ),
            old(self).identity() ==> (final (self).identity() && r.events() == node.events()),
            old(self).token_map() is Some ==> (final (self).token_map() == old(
                self,
            ).token_map() && r == node),
    ;

    /// Enter hook for a index node, recorded with its input and output.
    fn visit_index(&mut self, node: Index) -> (r: Index)
        ensures
            final (self).seen() == old(self).seen().push(
                RewriteEvent::EnterIndex { given: node, returned: r },
            ),
            old(self).identity() ==> (final (self).identity() && r.events() == node.events()),
            old(self).token_map() is Some ==> (final (self).token_map() == old(
                self,
            ).token_map() && r == node),
            r.size() <= node.size(),
    ;

    /// Exit hook for a index node, recorded with its input and output.
    fn visit_index_end(&mut self, node: Index) -> (r: Index)
        ensures
            final (self).seen() == old(self).seen().push(
                RewriteEvent::ExitIndex { given: node, returned: r },
            ),
            old(self).identity() ==> (final (self).identity() && r.events() == node.events()),
            old(self).token_map() is Some ==> (final (self).token_map() == old(
                self,
            ).token_map() && r == node),
    ;

    /// Enter hook for a function-args node, recorded with its input and output.
    fn visit_function_args(&mut self, node: FunctionArgs) -> (r: FunctionArgs)
        ensures
            final (self).seen() == old(self).seen().push(
                RewriteEvent::EnterFunctionArgs { given: node, returned: r },
            ),
            old(self).identity() ==> (final (self).identity() && r.events() == node.events()),
            old(self).token_map() is Some ==> (final (self).token_map() == old(
                self,
            ).token_map() && r == node),
            r.size() <= node.size(),
    ;

    /// Exit hook for a function-args node, recorded with its input and output.
    fn visit_function_args_end(&mut self, node: FunctionArgs) -> (r: FunctionArgs)
        ensures
            final (self).seen() == old(self).seen().push(
                RewriteEvent::ExitFunctionArgs { given: node, returned: r },
            ),
            old(self).identity() ==> (final (self).identity() && r.events() == node.events()),
            old(self).token_map() is Some ==> (final (self).token_map() == old(
                self,
            ).token_map() && r == node),
    ;

    /// Enter hook for a function-body node, recorded with its input and output.
    fn visit_function_body(&mut self, node: FunctionBody) -> (r: FunctionBody)
        ensures
            final (self).seen() == old(self).seen().push(
                RewriteEvent::EnterFunctionBody { given: node, returned: r },
            ),
            old(self).identity() ==> (final (self).identity() && r.events() == node.events()),
            old(self).token_map() is Some ==> (final (self).token_map() == old(
                self,
            ).token_map() && r == node),
            r.size() <= node.size(),
            node.wf() ==> r.wf(),
    ;

    /// Exit hook for a function-body node, recorded with its input and output.
    fn visit_function_body_end(&mut self, node: FunctionBody) -> (r: FunctionBody)
        ensures
            final (self).seen() == old(self).seen().push(
                RewriteEvent::ExitFunctionBody { given: node, returned: r },
            ),
            old(self).identity() ==> (final (self).identity() && r.events() == node.events()),
            old(self).token_map() is Some ==> (final (self).token_map() == old(
                self,
            ).token_map() && r == node),
            node.wf() ==> r.wf(),
    ;

    /// Enter hook for a local-assignment node, recorded with its input and output.
    fn visit_local_assignment(&mut self, node: LocalAssignment) -> (r: LocalAssignment)
        ensures
            final (self).seen() == old(self).seen().push(
                RewriteEvent::EnterLocalAssignment { given: node, returned: r },
            ),
            old(self).identity() ==> (final (self).identity() && r.events() == node.events()),
            old(self).token_map() is Some ==> (final (self).token_map() == old(
                self,
            ).token_map() && r == node),
            r.size() <= node.size(),
            node.wf() ==> r.wf(),
    ;

    /// Exit hook for a local-assignment node, recorded with its input and output.
    fn visit_local_assignment_end(&mut self, node: LocalAssignment) -> (r: LocalAssignment)
        ensures
            final (self).seen() == old(self).seen().push(
                RewriteEvent::ExitLocalAssignment { given: node, returned: r },
            ),
            old(self).identity() ==> (final (self).identity() && r.events() == node.events()),
            old(self).token_map() is Some ==> (final (self).token_map() == old(
                self,
            ).token_map() && r == node),
            node.wf() ==> r.wf(),
    ;

    /// Enter hook for a generic-for node, recorded with its input and output.
    fn visit_generic_for(&mut self, node: GenericFor) -> (r: GenericFor)
        ensures
            final (self).seen() == old(self).seen().push(
                RewriteEvent::EnterGenericFor { given: node, returned: r },
            ),
            old(self).identity() ==> (final (self).identity() && r.events() == node.events()),
            old(self).token_map() is Some ==> (final (self).token_map() == old(
                self,
            ).token_map() && r == node),
            r.size() <= node.size(),
            node.wf() ==> r.wf(),
    ;

    /// Exit hook for a generic-for node, recorded with its input and output.
    fn visit_generic_for_end(&mut self, node: GenericFor) -> (r: GenericFor)
        ensures
            final (self).seen() == old(self).seen().push(
                RewriteEvent::ExitGenericFor { given: node, returned: r },
            ),
            old(self).identity() ==> (final (self).identity() && r.events() == node.events()),
            old(self).token_map() is Some ==> (final (self).token_map() == old(
                self,
            ).token_map() && r == node),
            node.wf() ==> r.wf(),
    ;

    /// Enter hook for a numeric-for node, recorded with its input and output.
    fn visit_numeric_for(&mut self, node: NumericFor) -> (r: NumericFor)
        ensures
            final (self).seen() == old(self).seen().push(
                RewriteEvent::EnterNumericFor { given: node, returned: r },
            ),
            old(self).identity() ==> (final (self).identity() && r.events() == node.events()),
            old(self).token_map() is Some ==> (final (self).token_map() == old(
                self,
            ).token_map() && r == node),
            r.size() <= node.size(),
    ;

    /// Exit hook for a numeric-for node, recorded with its input and output.
    fn visit_numeric_for_end(&mut self, node: NumericFor) -> (r: NumericFor)
        ensures
            final (self).seen() == old(self).seen().push(
                RewriteEvent::ExitNumericFor { given: node, returned: r },
            ),
            old(self).identity() ==> (final (self).identity() && r.events() == node.events()),
            old(self).token_map() is Some ==> (final (self).token_map() == old(
                self,
            ).token_map() && r == node),
    ;
}

} // verus!
