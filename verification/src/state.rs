//! The single persisted record and the store that holds it.

use vstd::prelude::*;
use crate::error::ContractError;

verus! {

/// The one persisted record: an owner identity and an 8-bit counter.
#[derive(Debug)]
pub struct State {
    /// The identity recorded at initialization; never changed afterwards.
    pub owner: String,
    /// The mutable payload.
    pub count: u8,
}

/// The mathematical value of a [`State`].
pub struct StateView {
    pub owner: Seq<char>,
    pub count: u8,
}

impl View for State {
    type V = StateView;

    open spec fn view(&self) -> StateView {
        StateView { owner: self.owner@, count: self.count }
    }
}

/// Holds at most one [`State`]: none before initialization, exactly one after.
///
/// This is the component's view of the host's single-key storage for the
/// duration of one invocation: the host hands the persisted record in, the
/// entry point loads and (for commands) saves it, and the host persists the
/// result.
#[derive(Debug)]
pub struct Store {
    state: Option<State>,
}

impl View for Store {
    type V = Option<StateView>;

    closed spec fn view(&self) -> Option<StateView> {
        match self.state {
            Option::Some(st) => Option::Some(st@),
            Option::None => Option::None,
        }
    }
}

impl Store {
    /// An empty store: nothing has been persisted yet.
    pub fn new() -> (s: Store)
        ensures
            s@ is None,
    {
        Store { state: None }
    }

    /// The persisted record, or `NotFound` if none exists.
    pub fn load(&self) -> (r: Result<&State, ContractError>)
        ensures
            (match self@ {
                Option::Some(st) => r matches Ok(state) && state@ == st,
                Option::None => r == Err::<&State, ContractError>(ContractError::NotFound),
            }),
    {
        match &self.state {
            Some(state) => Ok(state),
            None => Err(ContractError::NotFound),
        }
    }

    /// Persists `state`, overwriting any prior record.
    pub fn save(&mut self, state: State)
        ensures
            final(self)@ == Some(state@),
    {
        self.state = Some(state);
    }
}

} // verus!
