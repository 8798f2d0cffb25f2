//! Lossless syntax-tree traversal: a visitor/rewriter framework over a tree
//! whose nodes retain every byte of the source text they were built from —
//! whitespace, comments and delimiters included — so that printing an
//! untouched tree reproduces its source exactly.
//!
//! The tree model covers the node shapes whose traversal order cannot be
//! derived structurally: nodes whose bracketing tokens interleave around
//! their content, nodes with dialect-conditional optional fields, and nodes
//! whose per-element dialect slots are zipped against a punctuated list.
//! Every node carries a spec-level event sequence — enter hook, each token
//! in source order, exit hook — and the traversal entry points are proved
//! to walk exactly that sequence: every token once, in order, with the
//! hooks around it. Rewriting rebuilds each node from its transformed
//! children; for an identity rewriter it provably changes nothing, and for
//! every rewriter it preserves pair counts, separator arity and the
//! one-slot-per-name zip shape.
pub mod ast;
pub mod collect;
pub mod laws;
pub mod punctuated;
pub mod rewrite;
pub mod token;
pub mod visit;
pub mod visitor;
