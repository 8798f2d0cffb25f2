//! Concrete visitors and rewriters: a token collector that records every
//! visited token and can print them back — the round-trip witness — an
//! identity rewriter, and a rewriter that swaps the text of matching tokens
//! while leaving all trivia untouched.
use vstd::prelude::*;

use crate::ast::event_tokens;
use crate::ast::events_text;
use crate::ast::tokens_text;
use crate::ast::Expression;
use crate::ast::Field;
use crate::ast::FunctionArgs;
use crate::ast::FunctionBody;
use crate::ast::GenericFor;
use crate::ast::Index;
use crate::ast::LocalAssignment;
use crate::ast::NodeKind;
use crate::ast::NumericFor;
use crate::ast::RewriteEvent;
use crate::ast::VisitEvent;
use crate::token::Token;
use crate::token::TokenView;
use crate::visitor::Visitor;
use crate::visitor::VisitorMut;

verus! {

/// The views of a sequence of tokens, in order.
pub open spec fn token_views(s: Seq<Token>) -> Seq<TokenView> {
    s.map_values(|t: Token| t@)
}

proof fn lemma_event_tokens_push(s: Seq<VisitEvent>, e: VisitEvent)
    ensures
        event_tokens(s.push(e)) == event_tokens(s) + (match e {
            VisitEvent::Token(t) => seq![t],
            VisitEvent::Enter(_) => Seq::empty(),
            VisitEvent::Exit(_) => Seq::empty(),
        }),
{
    assert(s.push(e).drop_last() =~= s);
    assert(s.push(e).last() == e);
}

/// A read-only visitor that collects every token it is shown, in visit
/// order, together with the ghost event log that backs `seen()`. The
/// collected tokens are, provably, exactly the token events of the log.
pub struct TokenCollector {
    tokens: Vec<Token>,
    events: Ghost<Seq<VisitEvent>>,
}

impl TokenCollector {
    #[verifier::type_invariant]
    spec fn inv(self) -> bool {
        token_views(self.tokens@) == event_tokens(self.events@)
    }

    /// A collector that has seen nothing.
    pub fn new() -> (r: TokenCollector)
        ensures
            r.seen() == Seq::<VisitEvent>::empty(),
    {
        let tokens: Vec<Token> = Vec::new();
        proof {
            assert(token_views(tokens@) =~= event_tokens(Seq::empty()));
        }
        TokenCollector { tokens, events: Ghost(Seq::empty()) }
    }

    /// How many tokens have been collected.
    pub fn token_count(&self) -> (r: usize)
        ensures
            r == event_tokens(self.seen()).len(),
    {
        proof {
            use_type_invariant(&*self);
        }
        self.tokens.len()
    }

    /// The text span of each collected token, in visit order — the order in
    /// which the traversal reported the tokens.
    pub fn token_texts(&self) -> (r: Vec<Vec<u8>>)
        ensures
            r@.len() == event_tokens(self.seen()).len(),
            forall|i: int|
                0 <= i < r@.len() ==> (#[trigger] r@[i])@ == event_tokens(self.seen())[i].text,
    {
        proof {
            use_type_invariant(&*self);
        }
        let mut r: Vec<Vec<u8>> = Vec::new();
        let mut i: usize = 0;
        while i < self.tokens.len()
            invariant
                i <= self.tokens@.len(),
                token_views(self.tokens@) == event_tokens(self.events@),
                self.seen() == self.events@,
                r@.len() == i,
                forall|j: int|
                    0 <= j < i ==> (#[trigger] r@[j])@ == event_tokens(self.seen())[j].text,
            decreases self.tokens@.len() - i,
        {
            r.push(self.tokens[i].text.clone());
            i = i + 1;
        }
        r
    }

    /// Print what was collected: every byte of every token, leading trivia,
    /// text and trailing trivia alike, in visit order.
    pub fn printed(&self) -> (r: Vec<u8>)
        ensures
            r@ == events_text(self.seen()),
    {
        proof {
            use_type_invariant(&*self);
        }
        let mut out: Vec<u8> = Vec::new();
        let mut i: usize = 0;
        while i < self.tokens.len()
            invariant
                i <= self.tokens@.len(),
                token_views(self.tokens@) == event_tokens(self.events@),
                self.seen() == self.events@,
                out@ == tokens_text(token_views(self.tokens@).take(i as int)),
            decreases self.tokens@.len() - i,
        {
            let mut leading = self.tokens[i].leading.clone();
            out.append(&mut leading);
            let mut text = self.tokens[i].text.clone();
            out.append(&mut text);
            let mut trailing = self.tokens[i].trailing.clone();
            out.append(&mut trailing);
            proof {
                let tv = token_views(self.tokens@);
                assert(tv.take(i + 1).drop_last() =~= tv.take(i as int));
                assert(tv.take(i + 1).last() == tv[i as int]);
                assert(out@ =~= tokens_text(tv.take(i + 1)));
            }
            i = i + 1;
        }
        proof {
            let tv = token_views(self.tokens@);
            assert(tv.take(tv.len() as int) =~= tv);
        }
        out
    }
}

impl Visitor for TokenCollector {
    closed spec fn seen(&self) -> Seq<VisitEvent> {
        self.events@
    }

    fn visit_token(&mut self, token: &Token) {
        proof {
            use_type_invariant(&*self);
        }
        let mut taken = TokenCollector::new();
        std::mem::swap(&mut taken, self);
        let TokenCollector { mut tokens, events } = taken;
        tokens.push(token.clone());
        let ghost new_events = events@.push(VisitEvent::Token(token@));
        proof {
            lemma_event_tokens_push(events@, VisitEvent::Token(token@));
            assert(token_views(tokens@) =~= event_tokens(new_events));
        }
        *self = TokenCollector { tokens, events: Ghost(new_events) };
    }

    fn visit_field(&mut self, node: &Field) {
        self.record_hook(Ghost(VisitEvent::Enter(NodeKind::Field)));
    }

    fn visit_field_end(&mut self, node: &Field) {
        self.record_hook(Ghost(VisitEvent::Exit(NodeKind::Field)));
    }

    fn visit_expression(&mut self, node: &Expression) {
        self.record_hook(Ghost(VisitEvent::Enter(NodeKind::Expression)));
    }

    fn visit_expression_end(&mut self, node: &Expression) {
        self.record_hook(Ghost(VisitEvent::Exit(NodeKind::Expression)));
    }

    fn visit_index(&mut self, node: &Index) {
        self.record_hook(Ghost(VisitEvent::Enter(NodeKind::Index)));
    }

    fn visit_index_end(&mut self, node: &Index) {
        self.record_hook(Ghost(VisitEvent::Exit(NodeKind::Index)));
    }

    fn visit_function_args(&mut self, node: &FunctionArgs) {
        self.record_hook(Ghost(VisitEvent::Enter(NodeKind::FunctionArgs)));
    }

    fn visit_function_args_end(&mut self, node: &FunctionArgs) {
        self.record_hook(Ghost(VisitEvent::Exit(NodeKind::FunctionArgs)));
    }

    fn visit_function_body(&mut self, node: &FunctionBody) {
        self.record_hook(Ghost(VisitEvent::Enter(NodeKind::FunctionBody)));
    }

    fn visit_function_body_end(&mut self, node: &FunctionBody) {
        self.record_hook(Ghost(VisitEvent::Exit(NodeKind::FunctionBody)));
    }

    fn visit_local_assignment(&mut self, node: &LocalAssignment) {
        self.record_hook(Ghost(VisitEvent::Enter(NodeKind::LocalAssignment)));
    }

    fn visit_local_assignment_end(&mut self, node: &LocalAssignment) {
        self.record_hook(Ghost(VisitEvent::Exit(NodeKind::LocalAssignment)));
    }

    fn visit_generic_for(&mut self, node: &GenericFor) {
        self.record_hook(Ghost(VisitEvent::Enter(NodeKind::GenericFor)));
    }

    fn visit_generic_for_end(&mut self, node: &GenericFor) {
        self.record_hook(Ghost(VisitEvent::Exit(NodeKind::GenericFor)));
    }

    fn visit_numeric_for(&mut self, node: &NumericFor) {
        self.record_hook(Ghost(VisitEvent::Enter(NodeKind::NumericFor)));
    }

    fn visit_numeric_for_end(&mut self, node: &NumericFor) {
        self.record_hook(Ghost(VisitEvent::Exit(NodeKind::NumericFor)));
    }
}

impl TokenCollector {
    /// Record one hook event in the ghost log; hook events collect no token.
    fn record_hook(&mut self, event: Ghost<VisitEvent>)
        requires
            event@ is Enter || event@ is Exit,
        ensures
            final (self).seen() == old(self).seen().push(event@),
    {
        proof {
            use_type_invariant(&*self);
        }
        let ghost new_events = self.events@.push(event@);
        proof {
            lemma_event_tokens_push(self.events@, event@);
            assert(event_tokens(new_events) =~= event_tokens(self.events@));
        }
        self.events = Ghost(new_events);
    }
}

/// Print an expression: the bytes its traversal reports, which spell the
/// expression's full source text.
pub fn print_expression(e: &Expression) -> (r: Vec<u8>)
    ensures
        r@ == events_text(e.events()),
{
    let mut collector = TokenCollector::new();
    e.visit(&mut collector);
    collector.printed()
}

/// Print a local-binding statement: the bytes its traversal reports, which
/// spell the statement's full source text.
pub fn print_local_assignment(node: &LocalAssignment) -> (r: Vec<u8>)
    ensures
        r@ == events_text(node.events()),
{
    let mut collector = TokenCollector::new();
    node.visit(&mut collector);
    collector.printed()
}

/// The rewriter whose every hook returns its input unchanged: rewriting
/// with it is, provably, a no-op on any node's event sequence. Its ghost
/// trace records each hook call with input and output alike.
pub struct IdentityRewriter {
    trace: Ghost<Seq<RewriteEvent>>,
}

impl IdentityRewriter {
    /// An identity rewriter with an empty trace.
    pub fn new() -> (r: IdentityRewriter)
        ensures
            r.identity(),
            r.seen() == Seq::<RewriteEvent>::empty(),
    {
        IdentityRewriter { trace: Ghost(Seq::empty()) }
    }
}

impl VisitorMut for IdentityRewriter {
    closed spec fn seen(&self) -> Seq<RewriteEvent> {
        self.trace@
    }

    open spec fn identity(&self) -> bool {
        true
    }

    open spec fn token_map(&self) -> Option<spec_fn(TokenView) -> TokenView> {
        Some(|t: TokenView| t)
    }

    fn visit_token(&mut self, token: Token) -> (r: Token) {
        let r = token;
        self.trace = Ghost(
            self.trace@.push(RewriteEvent::Token { given: token@, returned: r@ }),
        );
        r
    }

    fn visit_field(&mut self, node: Field) -> (r: Field) {
        self.trace = Ghost(
            self.trace@.push(RewriteEvent::EnterField { given: node, returned: node }),
        );
        node
    }

    fn visit_field_end(&mut self, node: Field) -> (r: Field) {
        self.trace = Ghost(
            self.trace@.push(RewriteEvent::ExitField { given: node, returned: node }),
        );
        node
    }

    fn visit_expression(&mut self, node: Expression) -> (r: Expression) {
        self.trace = Ghost(
            self.trace@.push(RewriteEvent::EnterExpression { given: node, returned: node }),
        );
        node
    }

    fn visit_expression_end(&mut self, node: Expression) -> (r: Expression) {
        self.trace = Ghost(
            self.trace@.push(RewriteEvent::ExitExpression { given: node, returned: node }),
        );
        node
    }

    fn visit_index(&mut self, node: Index) -> (r: Index) {
        self.trace = Ghost(
            self.trace@.push(RewriteEvent::EnterIndex { given: node, returned: node }),
        );
        node
    }

    fn visit_index_end(&mut self, node: Index) -> (r: Index) {
        self.trace = Ghost(
            self.trace@.push(RewriteEvent::ExitIndex { given: node, returned: node }),
        );
        node
    }

    fn visit_function_args(&mut self, node: FunctionArgs) -> (r: FunctionArgs) {
        self.trace = Ghost(
            self.trace@.push(RewriteEvent::EnterFunctionArgs { given: node, returned: node }),
        );
        node
    }

    fn visit_function_args_end(&mut self, node: FunctionArgs) -> (r: FunctionArgs) {
        self.trace = Ghost(
            self.trace@.push(RewriteEvent::ExitFunctionArgs { given: node, returned: node }),
        );
        node
    }

    fn visit_function_body(&mut self, node: FunctionBody) -> (r: FunctionBody) {
        self.trace = Ghost(
            self.trace@.push(RewriteEvent::EnterFunctionBody { given: node, returned: node }),
        );
        node
    }

    fn visit_function_body_end(&mut self, node: FunctionBody) -> (r: FunctionBody) {
        self.trace = Ghost(
            self.trace@.push(RewriteEvent::ExitFunctionBody { given: node, returned: node }),
        );
        node
    }

    fn visit_local_assignment(&mut self, node: LocalAssignment) -> (r: LocalAssignment) {
        self.trace = Ghost(
            self.trace@.push(RewriteEvent::EnterLocalAssignment { given: node, returned: node }),
        );
        node
    }

    fn visit_local_assignment_end(&mut self, node: LocalAssignment) -> (r: LocalAssignment) {
        self.trace = Ghost(
            self.trace@.push(RewriteEvent::ExitLocalAssignment { given: node, returned: node }),
        );
        node
    }

    fn visit_generic_for(&mut self, node: GenericFor) -> (r: GenericFor) {
        self.trace = Ghost(
            self.trace@.push(RewriteEvent::EnterGenericFor { given: node, returned: node }),
        );
        node
    }

    fn visit_generic_for_end(&mut self, node: GenericFor) -> (r: GenericFor) {
        self.trace = Ghost(
            self.trace@.push(RewriteEvent::ExitGenericFor { given: node, returned: node }),
        );
        node
    }

    fn visit_numeric_for(&mut self, node: NumericFor) -> (r: NumericFor) {
        self.trace = Ghost(
            self.trace@.push(RewriteEvent::EnterNumericFor { given: node, returned: node }),
        );
        node
    }

    fn visit_numeric_for_end(&mut self, node: NumericFor) -> (r: NumericFor) {
        self.trace = Ghost(
            self.trace@.push(RewriteEvent::ExitNumericFor { given: node, returned: node }),
        );
        node
    }
}

/// Whether two byte strings hold the same bytes.
fn bytes_equal(a: &Vec<u8>, b: &Vec<u8>) -> (r: bool)
    ensures
        r == (a@ == b@),
{
    if a.len() != b.len() {
        return false;
    }
    let mut i: usize = 0;
    while i < a.len()
        invariant
            i <= a@.len(),
            a@.len() == b@.len(),
            forall|j: int| 0 <= j < i ==> a@[j] == b@[j],
        decreases a@.len() - i,
    {
        if a[i] != b[i] {
            return false;
        }
        i = i + 1;
    }
    proof {
        assert(a@ =~= b@);
    }
    true
}

/// Replace a token's text span when it equals `from`, leaving its leading
/// and trailing trivia untouched either way.
pub fn replace_token_text(token: Token, from: &Vec<u8>, to: &Vec<u8>) -> (r: Token)
    ensures
        r@.text == (if token@.text == from@ {
            to@
        } else {
            token@.text
        }),
        r@.leading == token@.leading,
        r@.trailing == token@.trailing,
{
    if bytes_equal(&token.text, from) {
        Token { leading: token.leading, text: to.clone(), trailing: token.trailing }
    } else {
        token
    }
}

/// A rewriter that replaces the text of every token whose text equals
/// `from` with `to`, leaving the token's leading and trailing trivia — and
/// every other token — untouched. Its ghost trace records each hook call.
pub struct TextReplacer {
    from: Vec<u8>,
    to: Vec<u8>,
    trace: Ghost<Seq<RewriteEvent>>,
}

impl TextReplacer {
    /// A rewriter replacing the text `from` with the text `to`.
    pub fn new(from: Vec<u8>, to: Vec<u8>) -> (r: TextReplacer)
        ensures
            r.from_text() == from@,
            r.to_text() == to@,
            r.seen() == Seq::<RewriteEvent>::empty(),
    {
        TextReplacer { from, to, trace: Ghost(Seq::empty()) }
    }

    /// The text span this rewriter replaces.
    pub closed spec fn from_text(&self) -> Seq<u8> {
        self.from@
    }

    /// The text span it writes in its place.
    pub closed spec fn to_text(&self) -> Seq<u8> {
        self.to@
    }
}

impl VisitorMut for TextReplacer {
    closed spec fn seen(&self) -> Seq<RewriteEvent> {
        self.trace@
    }

    open spec fn identity(&self) -> bool {
        false
    }

    open spec fn token_map(&self) -> Option<spec_fn(TokenView) -> TokenView> {
        Some(
            |t: TokenView| TokenView {
                leading: t.leading,
                text: (if t.text == self.from_text() {
                    self.to_text()
                } else {
                    t.text
                }),
                trailing: t.trailing,
            },
        )
    }

    fn visit_token(&mut self, token: Token) -> (r: Token)
        ensures
            r@.text == (if token@.text == old(self).from_text() {
                old(self).to_text()
            } else {
                token@.text
            }),
            r@.leading == token@.leading,
            r@.trailing == token@.trailing,
    {
        let ghost given = token@;
        let r = replace_token_text(token, &self.from, &self.to);
        self.trace = Ghost(
            self.trace@.push(RewriteEvent::Token { given, returned: r@ }),
        );
        r
    }

    fn visit_field(&mut self, node: Field) -> (r: Field) {
        self.trace = Ghost(
            self.trace@.push(RewriteEvent::EnterField { given: node, returned: node }),
        );
        node
    }

    fn visit_field_end(&mut self, node: Field) -> (r: Field) {
        self.trace = Ghost(
            self.trace@.push(RewriteEvent::ExitField { given: node, returned: node }),
        );
        node
    }

    fn visit_expression(&mut self, node: Expression) -> (r: Expression) {
        self.trace = Ghost(
            self.trace@.push(RewriteEvent::EnterExpression { given: node, returned: node }),
        );
        node
    }

    fn visit_expression_end(&mut self, node: Expression) -> (r: Expression) {
        self.trace = Ghost(
            self.trace@.push(RewriteEvent::ExitExpression { given: node, returned: node }),
        );
        node
    }

    fn visit_index(&mut self, node: Index) -> (r: Index) {
        self.trace = Ghost(
            self.trace@.push(RewriteEvent::EnterIndex { given: node, returned: node }),
        );
        node
    }

    fn visit_index_end(&mut self, node: Index) -> (r: Index) {
        self.trace = Ghost(
            self.trace@.push(RewriteEvent::ExitIndex { given: node, returned: node }),
        );
        node
    }

    fn visit_function_args(&mut self, node: FunctionArgs) -> (r: FunctionArgs) {
        self.trace = Ghost(
            self.trace@.push(RewriteEvent::EnterFunctionArgs { given: node, returned: node }),
        );
        node
    }

    fn visit_function_args_end(&mut self, node: FunctionArgs) -> (r: FunctionArgs) {
        self.trace = Ghost(
            self.trace@.push(RewriteEvent::ExitFunctionArgs { given: node, returned: node }),
        );
        node
    }

    fn visit_function_body(&mut self, node: FunctionBody) -> (r: FunctionBody) {
        self.trace = Ghost(
            self.trace@.push(RewriteEvent::EnterFunctionBody { given: node, returned: node }),
        );
        node
    }

    fn visit_function_body_end(&mut self, node: FunctionBody) -> (r: FunctionBody) {
        self.trace = Ghost(
            self.trace@.push(RewriteEvent::ExitFunctionBody { given: node, returned: node }),
        );
        node
    }

    fn visit_local_assignment(&mut self, node: LocalAssignment) -> (r: LocalAssignment) {
        self.trace = Ghost(
            self.trace@.push(RewriteEvent::EnterLocalAssignment { given: node, returned: node }),
        );
        node
    }

    fn visit_local_assignment_end(&mut self, node: LocalAssignment) -> (r: LocalAssignment) {
        self.trace = Ghost(
            self.trace@.push(RewriteEvent::ExitLocalAssignment { given: node, returned: node }),
        );
        node
    }

    fn visit_generic_for(&mut self, node: GenericFor) -> (r: GenericFor) {
        self.trace = Ghost(
            self.trace@.push(RewriteEvent::EnterGenericFor { given: node, returned: node }),
        );
        node
    }

    fn visit_generic_for_end(&mut self, node: GenericFor) -> (r: GenericFor) {
        self.trace = Ghost(
            self.trace@.push(RewriteEvent::ExitGenericFor { given: node, returned: node }),
        );
        node
    }

    fn visit_numeric_for(&mut self, node: NumericFor) -> (r: NumericFor) {
        self.trace = Ghost(
            self.trace@.push(RewriteEvent::EnterNumericFor { given: node, returned: node }),
        );
        node
    }

    fn visit_numeric_for_end(&mut self, node: NumericFor) -> (r: NumericFor) {
        self.trace = Ghost(
            self.trace@.push(RewriteEvent::ExitNumericFor { given: node, returned: node }),
        );
        node
    }
}

} // verus!
