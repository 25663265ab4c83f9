use vstd::prelude::*;

verus! {

/// Why an operation on the stored games failed.
#[derive(Clone, Copy, Debug, PartialEq, Eq, Structural)]
pub enum Error {
    /// The store failed: connection, read or write.
    StoreError,
    /// No game has the identifier, or the identifier is not one.
    NotFound,
}

/// The step of a request that failed, which the answer names.
#[derive(Clone, Copy, Debug, PartialEq, Eq, Structural)]
pub enum Failure {
    /// The store could not open the listing.
    FindFailed,
    /// The store could not read the listed games.
    ParseFailed,
    /// The store could not insert the game or read it back.
    CreateFailed,
    /// The store could not change the game or read it back.
    UpdateFailed,
    /// The store could not delete the game.
    DeleteFailed,
    /// No game has the identifier, or the identifier is not one.
    NotFound,
}

/// The kind of error of each failed step.
pub open spec fn kind_of(f: Failure) -> Error {
    match f {
        Failure::NotFound => Error::NotFound,
        _ => Error::StoreError,
    }
}

/// The text of the answer to each failed step.
pub open spec fn message_of(f: Failure) -> Seq<char> {
    match f {
        Failure::FindFailed => "Unable to find collection."@,
        Failure::ParseFailed => "Unable to parse collection."@,
        Failure::CreateFailed => "Unable to create game."@,
        Failure::UpdateFailed => "Unable to update game."@,
        Failure::DeleteFailed => "Unable to delete game."@,
        Failure::NotFound => "Game not found."@,
    }
}

impl Failure {
    /// The kind of error of this failure.
    pub fn kind(&self) -> (r: Error)
        ensures
            r == kind_of(*self),
    {
        match self {
            Failure::NotFound => Error::NotFound,
            _ => Error::StoreError,
        }
    }

    /// The text of the answer to this failure.
    pub fn message(&self) -> (r: &'static str)
        ensures
            r@ == message_of(*self),
    {
        match self {
            Failure::FindFailed => "Unable to find collection.",
            Failure::ParseFailed => "Unable to parse collection.",
            Failure::CreateFailed => "Unable to create game.",
            Failure::UpdateFailed => "Unable to update game.",
            Failure::DeleteFailed => "Unable to delete game.",
            Failure::NotFound => "Game not found.",
        }
    }
}

} // verus!
