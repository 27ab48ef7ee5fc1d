//! The boundary messages of the four entry points.

use vstd::prelude::*;

verus! {

/// Parameters of the initialize entry point.
#[derive(Clone, Copy, Debug, PartialEq, Eq, Structural)]
pub struct InstantiateMsg {
    pub count: u8,
}

/// The commands the execute entry point dispatches on.
#[derive(Clone, Copy, Debug, PartialEq, Eq, Structural)]
pub enum ExecuteMsg {
    Increment {},
    SetCount { count: u8 },
}

/// The queries the query entry point dispatches on.
#[derive(Clone, Copy, Debug, PartialEq, Eq, Structural)]
pub enum QueryMsg {
    GetCount {},
}

/// Parameters of the migrate entry point (none).
#[derive(Clone, Copy, Debug, PartialEq, Eq, Structural)]
pub struct MigrateMsg {}

/// The typed payload a count query returns.
#[derive(Clone, Copy, Debug, PartialEq, Eq, Structural)]
pub struct CountResponse {
    pub count: u8,
}

} // verus!
