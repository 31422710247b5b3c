//! The singleton persisted state of the contract.

use vstd::prelude::*;

verus! {

/// The one record the contract persists: the owner, recorded at instantiation
/// and immutable afterwards, and the reflectee, which the owner may replace.
#[derive(Clone, Debug, PartialEq)]
pub struct State {
    pub owner: String,
    pub reflectee: String,
}

/// Mathematical model of a [`State`].
#[verifier::ext_equal]
pub ghost struct StateView {
    pub owner: Seq<char>,
    pub reflectee: Seq<char>,
}

impl View for State {
    type V = StateView;

    open spec fn view(&self) -> StateView {
        StateView { owner: self.owner@, reflectee: self.reflectee@ }
    }
}

/// The model of the key-value store's single slot: `None` before
/// instantiation, `Some` afterwards.
pub open spec fn store_view(s: Option<State>) -> Option<StateView> {
    match s {
        Some(st) => Some(st@),
        None => None,
    }
}

} // verus!
