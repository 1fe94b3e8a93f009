//! Errors of the SEO module.
use vstd::prelude::*;

verus! {

/// An error of the SEO module.
#[derive(Clone, Debug)]
pub enum SeoError {
    /// The input was rejected; the text says why.
    Validation(String),
    /// What the request names does not exist.
    NotFound(String),
}

impl SeoError {
    /// A validation error with the given message.
    pub fn validation(message: String) -> (r: SeoError)
        ensures
            r matches SeoError::Validation(m) && m@ == message@,
    {
        SeoError::Validation(message)
    }

    /// The text of the error.
    pub fn message(&self) -> (r: String)
        ensures
            r@ == match self {
                SeoError::Validation(m) => m@,
                SeoError::NotFound(m) => m@,
            },
    {
        match self {
            SeoError::Validation(m) => m.clone(),
            SeoError::NotFound(m) => m.clone(),
        }
    }
}

} // verus!
