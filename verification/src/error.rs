use vstd::prelude::*;

verus! {

/// Errors the pipeline reports, grouped by the stage that raises them.
#[derive(Debug, Clone, PartialEq, Eq)]
pub enum Error {
    /// Invalid or missing configuration; fatal at startup, before any
    /// pipeline state exists.
    ConfigError(String),
    /// Malformed event data (for example an update with neither a before
    /// nor an after image); fails the current batch.
    DataError(String),
    /// A processor step fault; treated like a data error for the batch.
    ProcessingError(String),
    /// A destination write or apply failure, including a timeout.
    SinkError(String),
}

impl Error {
    /// The human-readable description carried by the error.
    pub fn message(&self) -> (r: &String)
        ensures
            r@ == self.message_view(),
    {
        match self {
            Error::ConfigError(m) => m,
            Error::DataError(m) => m,
            Error::ProcessingError(m) => m,
            Error::SinkError(m) => m,
        }
    }

    /// The description as a sequence of characters.
    pub open spec fn message_view(&self) -> Seq<char> {
        match self {
            Error::ConfigError(m) => m@,
            Error::DataError(m) => m@,
            Error::ProcessingError(m) => m@,
            Error::SinkError(m) => m@,
        }
    }
}

} // verus!
