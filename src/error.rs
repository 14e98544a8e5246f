use vstd::prelude::*;

verus! {

/// The element type named by a downcast is not the one the buffer was built from.
#[derive(Copy, Clone, Debug, PartialEq, Eq, Structural)]
pub struct IncorrectTypeError;

/// The text that describes an `IncorrectTypeError`.
pub open spec fn incorrect_type_message() -> Seq<char> {
    "incorrect buffer type"@
}

impl IncorrectTypeError {
    /// A short description of the error.
    pub fn description(&self) -> (r: &'static str)
        ensures
            r@ == incorrect_type_message(),
    {
        proof {
            reveal_strlit("incorrect buffer type");
        }
        "incorrect buffer type"
    }

    /// The description as an owned string, for logging or for display.
    pub fn to_string(&self) -> (r: String)
        ensures
            r@ == incorrect_type_message(),
    {
        self.description().to_owned()
    }
}

} // verus!
