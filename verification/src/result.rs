use vstd::prelude::*;

verus! {

/// Error raised while constructing ranges or other schema components from
/// Ion values: the input does not describe a valid schema fragment.
#[derive(Debug, Clone)]
pub enum IonSchemaError {
    InvalidSchema(String),
}

impl IonSchemaError {
    /// The human-readable description carried by the error.
    pub fn message(&self) -> (r: &String)
        ensures
            self matches IonSchemaError::InvalidSchema(m) && r@ == m@,
    {
        match self {
            IonSchemaError::InvalidSchema(m) => m,
        }
    }
}

pub type IonSchemaResult<T> = Result<T, IonSchemaError>;

/// Builds the usual failure value from a fixed description.
pub(crate) fn invalid_schema_error<T>(description: &str) -> (r: IonSchemaResult<T>)
    ensures
        r is Err,
{
    Err(IonSchemaError::InvalidSchema(description.to_owned()))
}

} // verus!
