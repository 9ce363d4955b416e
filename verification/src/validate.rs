//! Validation of Substrait data.
//!
//! The wire format cannot express some requirements of Substrait data. This
//! module provides validated new types for the unvalidated records, which
//! once constructed are known to satisfy those requirements, together with
//! the validation context threaded through one validation pass.

use crate::validate::simple_extension_uri::{SimpleExtensionURI, SimpleExtensionURIError};
use vstd::prelude::*;

pub mod plan;
pub mod plan_relation;
pub mod relation;
pub mod root_relation;
pub mod simple_extension_uri;
pub mod validator;
pub mod version;

verus! {

/// A validation context: the mutable state threaded through one validation
/// pass. It holds the registry of extension anchors seen so far, each bound
/// to a URI.
pub trait Context {
    /// The anchors registered in this pass so far, each with the URI it is
    /// bound to.
    spec fn registry(&self) -> Map<u32, Seq<char>>;

    /// Registers a simple-extension URI under its anchor. Registration must
    /// fail for an anchor already registered in this pass, reporting it as a
    /// [`SimpleExtensionURIError::DuplicateAnchor`] that cites both the new
    /// URI and the one already bound to the anchor; a context whose policy
    /// rejects a URI may also fail with
    /// [`SimpleExtensionURIError::Unsupported`]. On success the registry
    /// grows by exactly the new binding; on failure it is unchanged.
    fn register_simple_extension_uri(
        &mut self,
        simple_extension_uri: &SimpleExtensionURI,
    ) -> (r: Result<(), SimpleExtensionURIError>)
        ensures
            r is Ok ==> !old(self).registry().contains_key(simple_extension_uri@.anchor)
                && final(self).registry() == old(self).registry().insert(
                simple_extension_uri@.anchor,
                simple_extension_uri@.uri,
            ),
            r is Err ==> final(self).registry() == old(self).registry(),
            old(self).registry().contains_key(simple_extension_uri@.anchor) ==> r is Err,
            match r {
                Ok(_) => true,
                Err(e) => match e {
                    SimpleExtensionURIError::InvalidURI(_, _) => false,
                    SimpleExtensionURIError::DuplicateAnchor { added, defined } => {
                        &&& old(self).registry().contains_key(simple_extension_uri@.anchor)
                        &&& added@ == simple_extension_uri@
                        &&& defined@ == old(self).registry()[simple_extension_uri@.anchor]
                    },
                    SimpleExtensionURIError::Unsupported { .. } => true,
                },
            },
    ;
}

/// A validation step: turns an unvalidated record into a validated value or
/// a structured error, registering what it validated in the context where
/// the data demands it. The validated type converts back to the unvalidated
/// representation; the conversion need not be byte-identical as long as the
/// meaning is kept.
pub trait Validate<C: Context>: Sized {
    /// The validated type.
    type Validated;

    /// The error type of this validation.
    type Error;

    /// Validates this record against the given context.
    fn validate(self, ctx: &mut C) -> Result<Self::Validated, Self::Error>;
}

} // verus!
