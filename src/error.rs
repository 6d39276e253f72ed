use vstd::prelude::*;

verus! {

/// The message given for a pool size that is not positive.
pub open spec fn invalid_size_message() -> Seq<char> {
    "Passed in invalid size, must be greater than 0"@
}

/// The reason a pool could not be created, as a readable message.
pub struct PoolCreationError {
    msg: String,
}

impl View for PoolCreationError {
    type V = Seq<char>;

    closed spec fn view(&self) -> Seq<char> {
        self.msg@
    }
}

impl PoolCreationError {
    /// An error carrying `msg`.
    pub fn new(msg: String) -> (r: PoolCreationError)
        ensures
            r@ == msg@,
    {
        PoolCreationError { msg }
    }

    /// The error for a pool size that is not positive.
    pub fn invalid_size() -> (r: PoolCreationError)
        ensures
            r@ == invalid_size_message(),
            r@.len() > 0,
    {
        proof {
            reveal_strlit("Passed in invalid size, must be greater than 0");
        }
        PoolCreationError { msg: String::from_str("Passed in invalid size, must be greater than 0") }
    }

    /// The message, as a new string.
    pub fn message(&self) -> (r: String)
        ensures
            r@ == self@,
    {
        self.msg.clone()
    }

    /// The readable rendering of the error: its message.
    pub fn to_string(&self) -> (r: String)
        ensures
            r@ == self@,
    {
        self.message()
    }
}

} // verus!
