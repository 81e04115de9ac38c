//! What the executor keeps between calls.

use crate::types::Addr;
use vstd::prelude::*;

verus! {

/// The wallet that the executor acts for.
#[derive(Debug, Clone, PartialEq, Eq)]
pub struct State {
    pub owner: Addr,
}

/// What a [`State`] stands for.
pub struct StateView {
    pub owner: Seq<char>,
}

impl View for State {
    type V = StateView;

    open spec fn view(&self) -> StateView {
        StateView { owner: self.owner@ }
    }
}

} // verus!
