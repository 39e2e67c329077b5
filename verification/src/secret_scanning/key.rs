//! Public keys published by a reporting service.

use vstd::prelude::*;

verus! {

/// A public key published by a service that signs the reports it sends.
pub trait PublicKey {
    /// The identifier under which the service publishes the key.
    spec fn key_id(&self) -> Seq<char>;

    /// The key itself, in PEM form.
    spec fn key_text(&self) -> Seq<char>;

    /// Whether the service still signs with this key.
    spec fn key_is_current(&self) -> bool;

    fn id(&self) -> (r: &str)
        ensures
            r@ == self.key_id(),
    ;

    fn key(&self) -> (r: &str)
        ensures
            r@ == self.key_text(),
    ;

    fn is_current(&self) -> (r: bool)
        ensures
            r == self.key_is_current(),
    ;
}

/// A public key in the format that GitHub publishes (deps.dev uses the same one).
#[derive(Debug, Clone)]
pub struct GenericPublicKey {
    pub key_identifier: String,
    pub key: String,
    pub is_current: bool,
}

impl GenericPublicKey {
    pub fn new(key_identifier: String, key: String, is_current: bool) -> (r: Self)
        ensures
            r.key_identifier == key_identifier,
            r.key == key,
            r.is_current == is_current,
    {
        GenericPublicKey { key_identifier, key, is_current }
    }
}

impl PublicKey for GenericPublicKey {
    open spec fn key_id(&self) -> Seq<char> {
        self.key_identifier@
    }

    open spec fn key_text(&self) -> Seq<char> {
        self.key@
    }

    open spec fn key_is_current(&self) -> bool {
        self.is_current
    }

    fn id(&self) -> (r: &str) {
        self.key_identifier.as_str()
    }

    fn key(&self) -> (r: &str) {
        self.key.as_str()
    }

    fn is_current(&self) -> (r: bool) {
        self.is_current
    }
}

} // verus!
