use vstd::prelude::*;

verus! {

/// Why a configuration source did not make it into the store.
#[derive(Debug, Clone, PartialEq)]
pub enum LoadError {
    /// The configuration text of `source` did not compile.
    Compile { source: String, cause: String },
    /// The file at `path` could not be read.
    FileRead { path: String, cause: String },
    /// The store could not be locked for writing within the retry budget.
    StoreLock,
}

/// The message of a load error, outer context first, then its cause.
pub open spec fn load_error_message(e: LoadError) -> Seq<char> {
    match e {
        LoadError::Compile { source, cause } => "Error compiling "@ + source@ + ": "@ + cause@,
        LoadError::FileRead { path, cause } => "Error reading file "@ + path@ + " content: "@
            + cause@,
        LoadError::StoreLock => "Can't acquire write lock on state"@,
    }
}

impl LoadError {
    /// The error chain as text: "context: cause".
    pub fn message(&self) -> (r: String)
        ensures
            r@ == load_error_message(*self),
    {
        match self {
            LoadError::Compile { source, cause } => {
                let mut r = String::from_str("Error compiling ");
                r.append(source.as_str());
                r.append(": ");
                r.append(cause.as_str());
                r
            },
            LoadError::FileRead { path, cause } => {
                let mut r = String::from_str("Error reading file ");
                r.append(path.as_str());
                r.append(" content: ");
                r.append(cause.as_str());
                r
            },
            LoadError::StoreLock => String::from_str("Can't acquire write lock on state"),
        }
    }
}

} // verus!
