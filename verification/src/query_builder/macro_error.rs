//! The composer as a procedural macro calls it: a failure comes back as the
//! error type that macros report.

use vstd::prelude::*;
use crate::query_builder::error::ConstructionError;
use crate::query_builder::model::QueryComponent;

verus! {

/// Declares `syn::Error`, so that it can stand in a signature. Nothing of
/// its contents is visible to the proofs.
#[verifier::external_type_specification]
#[verifier::external_body]
pub struct ExSynError(syn::Error);

/// Calls `syn::Error::new` with `proc_macro2::Span::call_site()` as the span
/// and `message` as the message. Nothing is claimed of the value that comes
/// back: it is opaque here.
#[verifier::external_body]
fn error_at_call_site(message: &str) -> syn::Error {
    syn::Error::new(proc_macro2::Span::call_site(), message)
}

impl QueryComponent {
    /// Turns the tree into the text of one statement, as `build_to_string`
    /// does, and reports a failure at the call site of the running macro,
    /// with the message of the failure.
    pub fn build_for_macro(self) -> (result: Result<String, syn::Error>)
        ensures
            match result {
                Ok(text) => self@.sql() == Ok::<Seq<char>, ConstructionError>(text@),
                Err(_) => self@.sql() is Err,
            },
    {
        match self.build_to_string() {
            Ok(text) => Ok(text),
            Err(e) => {
                let message = e.message();
                Err(error_at_call_site(message.as_str()))
            },
        }
    }
}

} // verus!
