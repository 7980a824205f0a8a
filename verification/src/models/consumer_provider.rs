//! The two sides of a contract negotiation.

use vstd::prelude::*;

verus! {

/// The side the console's participant takes in a negotiation.
#[derive(Debug, Clone, Copy, PartialEq, Eq, Hash)]
pub enum ConsumerProvider {
    Consumer,
    Provider,
}

/// The name of a side.
pub open spec fn side_name(side: ConsumerProvider) -> Seq<char> {
    match side {
        ConsumerProvider::Consumer => "Consumer"@,
        ConsumerProvider::Provider => "Provider"@,
    }
}

impl ConsumerProvider {
    /// The name of the side, as the console prints it.
    pub fn name(&self) -> (res: String)
        ensures
            res@ == side_name(*self),
    {
        match self {
            ConsumerProvider::Consumer => "Consumer".to_string(),
            ConsumerProvider::Provider => "Provider".to_string(),
        }
    }
}

} // verus!
