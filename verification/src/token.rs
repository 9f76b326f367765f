//! One-shot cooperative cancellation signal.

use vstd::prelude::*;

verus! {

/// A one-shot shutdown signal that belongs to a single generation.
#[derive(Debug, Clone, Copy, PartialEq, Eq, Structural)]
pub struct ShutdownToken {
    generation: u64,
    fired: bool,
}

/// The mathematical content of a [`ShutdownToken`].
pub struct TokenView {
    /// The generation the token was made for.
    pub generation: u64,
    /// Whether the token has been fired.
    pub fired: bool,
}

impl TokenView {
    /// A token for `generation` that has not been fired.
    pub open spec fn fresh(generation: u64) -> TokenView {
        TokenView { generation, fired: false }
    }

    /// The token after it was fired.
    pub open spec fn fire(self) -> TokenView {
        TokenView { generation: self.generation, fired: true }
    }
}

impl View for ShutdownToken {
    type V = TokenView;

    closed spec fn view(&self) -> TokenView {
        TokenView { generation: self.generation, fired: self.fired }
    }
}

impl ShutdownToken {
    /// A fresh token for `generation`.
    pub fn new(generation: u64) -> (token: ShutdownToken)
        ensures
            token@ == TokenView::fresh(generation),
    {
        ShutdownToken { generation, fired: false }
    }

    /// The generation this token was made for.
    pub fn generation(&self) -> (generation: u64)
        ensures
            generation == self@.generation,
    {
        self.generation
    }

    /// Whether the token has been fired.
    pub fn is_fired(&self) -> (fired: bool)
        ensures
            fired == self@.fired,
    {
        self.fired
    }

    /// Fires the token. This can be done at any time, whether or not a task watches
    /// the token, and any number of times: a fired token stays as it is.
    pub fn fire(&mut self)
        ensures
            final(self)@ == old(self)@.fire(),
    {
        self.fired = true;
    }
}

/// Firing a token twice is the same as firing it once.
pub proof fn law_fire_is_idempotent(token: TokenView)
    ensures
        token.fire().fire() == token.fire(),
        token.fire().fired,
        token.fire().generation == token.generation,
{
}

} // verus!
