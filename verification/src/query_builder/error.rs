//! Why a tree does not describe a statement.

use vstd::prelude::*;

verus! {

/// A failure found while a statement is put together. Nothing here comes from
/// a database: the tree itself lacks a part.
#[derive(Debug, PartialEq, Eq)]
pub enum ConstructionError {
    /// An UPDATE without a list of assignments.
    MissingUpdateParams,
    /// A DELETE without a WHERE chain.
    MissingDeleteCondition,
    /// A condition without a single literal value.
    EmptyValueList,
    /// The nested source of a SELECT failed; the failure of the nested
    /// statement is kept as it was.
    NestedCompilationFailed(Box<ConstructionError>),
}

/// What a composing function returned, with the text as a sequence of
/// characters.
pub open spec fn outcome(result: Result<String, ConstructionError>) -> Result<
    Seq<char>,
    ConstructionError,
> {
    match result {
        Ok(text) => Ok(text@),
        Err(e) => Err(e),
    }
}

impl Clone for ConstructionError {
    /// The same failure.
    fn clone(&self) -> (copy: Self)
        ensures
            copy == *self,
        decreases self,
    {
        match self {
            ConstructionError::MissingUpdateParams => ConstructionError::MissingUpdateParams,
            ConstructionError::MissingDeleteCondition => ConstructionError::MissingDeleteCondition,
            ConstructionError::EmptyValueList => ConstructionError::EmptyValueList,
            ConstructionError::NestedCompilationFailed(inner) => {
                ConstructionError::NestedCompilationFailed(Box::new((&**inner).clone()))
            },
        }
    }
}

impl ConstructionError {
    /// The failure at the bottom of a chain of nested failures.
    pub open spec fn innermost(self) -> ConstructionError
        decreases self,
    {
        match self {
            ConstructionError::NestedCompilationFailed(inner) => inner.innermost(),
            _ => self,
        }
    }

    /// How many statements lie between the outermost one and the one that
    /// failed.
    pub open spec fn level(self) -> nat
        decreases self,
    {
        match self {
            ConstructionError::NestedCompilationFailed(inner) => inner.level() + 1,
            _ => 0,
        }
    }

    /// The message, as a sequence of characters.
    pub open spec fn text(self) -> Seq<char>
        decreases self,
    {
        match self {
            ConstructionError::MissingUpdateParams => "Missing update param"@,
            ConstructionError::MissingDeleteCondition => "Missing delete condition"@,
            ConstructionError::EmptyValueList => "Empty value list in where condition"@,
            ConstructionError::NestedCompilationFailed(inner) => {
                "Error when creating select query: "@ + inner.text()
            },
        }
    }

    /// A message for the caller to report: what is missing, behind one
    /// prefix for each nested SELECT that the failure passed through.
    pub fn message(&self) -> (out: String)
        ensures
            out@ == self.text(),
        decreases self,
    {
        match self {
            ConstructionError::MissingUpdateParams => String::from_str("Missing update param"),
            ConstructionError::MissingDeleteCondition => String::from_str(
                "Missing delete condition",
            ),
            ConstructionError::EmptyValueList => String::from_str(
                "Empty value list in where condition",
            ),
            ConstructionError::NestedCompilationFailed(inner) => {
                let mut out = String::from_str("Error when creating select query: ");
                let rest = inner.message();
                out.append(rest.as_str());
                out
            },
        }
    }

    /// The failure that started a chain of nested failures.
    pub fn root_cause(&self) -> (cause: &ConstructionError)
        ensures
            *cause == self.innermost(),
            !(*cause is NestedCompilationFailed),
        decreases self,
    {
        match self {
            ConstructionError::NestedCompilationFailed(inner) => inner.root_cause(),
            _ => self,
        }
    }
}

} // verus!
