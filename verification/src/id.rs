//! Identifiers that tie a response to the request it answers.

use vstd::prelude::*;

verus! {

/// The identifier of a request, repeated in the response to it.
#[derive(Debug, Clone, PartialEq, Eq, Hash)]
pub enum ResponseId {
    /// A numeric identifier.
    Number(i32),
    /// A textual identifier.
    String(String),
    /// The `null` identifier. The protocol permits it, but a response carries
    /// it when the request it answers is unknown, so it never names a waiter.
    Null,
}

/// What a [`ResponseId`] stands for: identifiers are equal exactly when these
/// values are.
pub ghost enum IdView {
    Number(i32),
    String(Seq<char>),
    Null,
}

impl View for ResponseId {
    type V = IdView;

    open spec fn view(&self) -> IdView {
        match *self {
            ResponseId::Number(n) => IdView::Number(n),
            ResponseId::String(s) => IdView::String(s@),
            ResponseId::Null => IdView::Null,
        }
    }
}

impl ResponseId {
    /// Whether this is the `null` identifier.
    pub fn is_null(&self) -> (null: bool)
        ensures
            null == (self@ == IdView::Null),
    {
        match self {
            ResponseId::Null => true,
            _ => false,
        }
    }
}

} // verus!
