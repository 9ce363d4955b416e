//! A simple validation context.

use crate::validate::simple_extension_uri::{SimpleExtensionURI, SimpleExtensionURIError};
use crate::validate::Context;
use std::collections::HashMap;
use vstd::prelude::*;

verus! {

/// A simple validation context: it tracks registered extension anchors and
/// rejects a reused anchor, with no further policy.
pub struct Validator {
    simple_extensions: HashMap<u32, String>,
}

/// An error of the simple validation context itself. The context has no
/// errors of its own yet: no value of this type is ever produced.
#[derive(Debug, PartialEq)]
pub struct ValidatorError;

impl Validator {
    /// A fresh context with an empty registry.
    pub fn new() -> (v: Validator)
        ensures
            v.registry() == Map::<u32, Seq<char>>::empty(),
    {
        let v = Validator { simple_extensions: HashMap::new() };
        proof {
            broadcast use vstd::std_specs::hash::group_hash_axioms;

            assert(v.registry() =~= Map::<u32, Seq<char>>::empty());
        }
        v
    }
}

impl Context for Validator {
    /// The registered anchors: the view of the underlying map, with each
    /// URI as its character sequence.
    closed spec fn registry(&self) -> Map<u32, Seq<char>> {
        Map::new(
            |a: u32| self.simple_extensions@.contains_key(a),
            |a: u32| self.simple_extensions@[a]@,
        )
    }

    /// Registers the anchor unless it is already bound; this context
    /// supports every URI, so a fresh anchor always registers and the only
    /// error it returns is a duplicate anchor.
    fn register_simple_extension_uri(
        &mut self,
        simple_extension_uri: &SimpleExtensionURI,
    ) -> (r: Result<(), SimpleExtensionURIError>)
        ensures
            !old(self).registry().contains_key(simple_extension_uri@.anchor) ==> r is Ok,
            r matches Err(e) ==> e is DuplicateAnchor,
    {
        broadcast use vstd::std_specs::hash::group_hash_axioms;

        let anchor = simple_extension_uri.anchor();
        let existing = match self.simple_extensions.get(&anchor) {
            Some(e) => Some(e.clone()),
            None => None,
        };
        match existing {
            Some(defined) => Err(
                SimpleExtensionURIError::DuplicateAnchor {
                    added: Box::new(simple_extension_uri.clone()),
                    defined,
                },
            ),
            None => {
                self.simple_extensions.insert(anchor, simple_extension_uri.uri().clone());
                proof {
                    assert(self.registry() =~= old(self).registry().insert(
                        simple_extension_uri@.anchor,
                        simple_extension_uri@.uri,
                    ));
                }
                Ok(())
            },
        }
    }
}

} // verus!
