use vstd::prelude::*;

verus! {

/// Why no icon could be had.
#[derive(Debug, Clone, Copy, PartialEq, Eq, Structural)]
pub enum Error {
    /// Retrieving the icon failed
    Failed,
    /// The path does not exist
    PathDoesNotExist,
    /// The desired icon size is null
    NullIconSize,
}

/// The text that describes an error.
pub open spec fn message_of(e: Error) -> Seq<char> {
    match e {
        Error::Failed => "Failed to get icon"@,
        Error::PathDoesNotExist => "Path does not exist"@,
        Error::NullIconSize => "Null icon size"@,
    }
}

impl Error {
    /// The text that describes this error.
    pub fn to_string(&self) -> (r: String)
        ensures
            r@ == message_of(*self),
    {
        match self {
            Error::Failed => "Failed to get icon".to_owned(),
            Error::PathDoesNotExist => "Path does not exist".to_owned(),
            Error::NullIconSize => "Null icon size".to_owned(),
        }
    }
}

} // verus!
