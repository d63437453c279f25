use vstd::prelude::*;

verus! {

/// Every error that flattening metadata into key/value pairs can produce.
#[derive(Debug, Clone, PartialEq, Eq)]
pub enum Error {
    /// Catch-all error raised while serializing, where no more specific
    /// error applies. Derived `Serialize` impls raise it.
    CustomSerialization { message: String },
    /// A value was reached with no key to store it under: every value needs
    /// a non-empty key name.
    EmptySerializationKeyName { value_being_serialized: String },
    /// Two values were stored under the same key. `value_1` is the one met
    /// later, `value_2` the one met first.
    DuplicateSerializationKeys { key: String, value_1: String, value_2: String },
}

/// Shorthand for results whose error is [`Error`].
pub type Result<T> = core::result::Result<T, Error>;

impl Error {
    /// The catch-all error that carries `message`.
    pub fn custom(message: String) -> (r: Error)
        ensures
            r == (Error::CustomSerialization { message }),
    {
        Error::CustomSerialization { message }
    }
}

} // verus!
