//! Validation of [`proto::SimpleExtensionUri`].

use crate::proto;
use crate::validate::{Context, Validate};
use vstd::prelude::*;

verus! {

/// A validated [`proto::SimpleExtensionUri`]: an anchor bound to a URI that
/// parsed as an absolute URI and was registered in the validation context.
#[derive(Debug, PartialEq)]
pub struct SimpleExtensionURI {
    uri: String,
    anchor: u32,
}

/// The mathematical value of a [`SimpleExtensionURI`].
pub struct UriAnchorV {
    /// The normalized URI, as a character sequence.
    pub uri: Seq<char>,
    /// The anchor the plan binds the URI to.
    pub anchor: u32,
}

impl View for SimpleExtensionURI {
    type V = UriAnchorV;

    closed spec fn view(&self) -> UriAnchorV {
        UriAnchorV { uri: self.uri@, anchor: self.anchor }
    }
}

impl Clone for SimpleExtensionURI {
    /// A copy with the same mathematical value.
    fn clone(&self) -> (r: Self)
        ensures
            r@ == self@,
    {
        SimpleExtensionURI { uri: self.uri.clone(), anchor: self.anchor }
    }
}

impl SimpleExtensionURI {
    /// The URI of this simple extension, normalized by parsing.
    pub fn uri(&self) -> (u: &String)
        ensures
            u@ == self@.uri,
    {
        &self.uri
    }

    /// The anchor value of this simple extension.
    pub fn anchor(&self) -> (a: u32)
        ensures
            a == self@.anchor,
    {
        self.anchor
    }

    /// The raw record this simple extension converts back to: the anchor
    /// with the normalized URI string.
    pub fn into_raw(self) -> (r: proto::SimpleExtensionUri)
        ensures
            r.extension_uri_anchor == self@.anchor,
            r.uri@ == self@.uri,
    {
        let SimpleExtensionURI { uri, anchor } = self;
        proto::SimpleExtensionUri { extension_uri_anchor: anchor, uri }
    }
}

/// Validation errors for [`proto::SimpleExtensionUri`].
#[derive(Debug, PartialEq)]
pub enum SimpleExtensionURIError {
    /// The string does not parse as an absolute URI; carries the original
    /// string and the parser's message.
    InvalidURI(String, String),
    /// The anchor is already bound in this validation pass.
    DuplicateAnchor {
        /// The simple extension URI that was added later.
        added: Box<SimpleExtensionURI>,
        /// The URI already bound to this anchor.
        defined: String,
    },
    /// The context's policy rejects this URI.
    Unsupported {
        /// The rejected simple extension URI.
        simple_extension_uri: Box<SimpleExtensionURI>,
        /// Why the context rejects it.
        reason: String,
    },
}

/// What parsing a string as an absolute URI yields: the normalized
/// serialization of the URI when the string parses, nothing otherwise. The
/// result depends on the string alone.
pub uninterp spec fn parse_url_spec(s: Seq<char>) -> Option<Seq<char>>;

/// Relies on `url::Url::parse` and `url::Url::as_str`: parsing a string
/// either yields a URL value, whose serialization is a function of the
/// string alone, or a parse error. Nothing is assumed about the error
/// message.
#[verifier::external_body]
fn parse_uri(s: &str) -> (r: Result<String, String>)
    ensures
        r is Ok <==> parse_url_spec(s@) is Some,
        r is Ok ==> r->Ok_0@ == parse_url_spec(s@)->Some_0,
{
    match url::Url::parse(s) {
        Ok(u) => Ok(u.as_str().to_string()),
        Err(e) => Err(e.to_string()),
    }
}

impl<C: Context> Validate<C> for proto::SimpleExtensionUri {
    type Validated = SimpleExtensionURI;

    type Error = SimpleExtensionURIError;

    /// Validates a declared extension source: the URI string must parse as
    /// an absolute URI, and the anchor must register in the context. On
    /// success the registry has grown by exactly this binding; on failure
    /// it is unchanged.
    fn validate(self, ctx: &mut C) -> (r: Result<Self::Validated, Self::Error>)
        ensures
            parse_url_spec(self.uri@) is None ==> (r matches Err(
                SimpleExtensionURIError::InvalidURI(u, _),
            ) && u@ == self.uri@),
            r matches Err(SimpleExtensionURIError::InvalidURI(u, _)) ==> {
                &&& parse_url_spec(self.uri@) is None
                &&& u@ == self.uri@
            },
            r is Ok ==> {
                &&& parse_url_spec(self.uri@) is Some
                &&& r->Ok_0@.anchor == self.extension_uri_anchor
                &&& r->Ok_0@.uri == parse_url_spec(self.uri@)->Some_0
                &&& !old(ctx).registry().contains_key(self.extension_uri_anchor)
                &&& final(ctx).registry() == old(ctx).registry().insert(
                    self.extension_uri_anchor,
                    parse_url_spec(self.uri@)->Some_0,
                )
            },
            r is Err ==> final(ctx).registry() == old(ctx).registry(),
            parse_url_spec(self.uri@) is Some && old(ctx).registry().contains_key(
                self.extension_uri_anchor,
            ) ==> r is Err,
            r matches Err(SimpleExtensionURIError::DuplicateAnchor { added, defined }) ==> {
                &&& old(ctx).registry().contains_key(self.extension_uri_anchor)
                &&& added@.anchor == self.extension_uri_anchor
                &&& added@.uri == parse_url_spec(self.uri@)->Some_0
                &&& defined@ == old(ctx).registry()[self.extension_uri_anchor]
            },
    {
        let proto::SimpleExtensionUri { extension_uri_anchor: anchor, uri } = self;
        let parsed = match parse_uri(uri.as_str()) {
            Ok(p) => p,
            Err(cause) => {
                return Err(SimpleExtensionURIError::InvalidURI(uri, cause));
            },
        };
        let simple_extension_uri = SimpleExtensionURI { uri: parsed, anchor };
        match ctx.register_simple_extension_uri(&simple_extension_uri) {
            Ok(_) => Ok(simple_extension_uri),
            Err(e) => Err(e),
        }
    }
}

} // verus!
