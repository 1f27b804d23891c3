//! The trusted public keys.

use pgp::composed::Deserializable;
use vstd::prelude::*;
use vstd::slice::slice_to_vec;

verus! {

/// What `pgp` makes of an armored public key file: `None` where
/// `SignedPublicKey::from_armor_single` reads no key from it, else whether
/// `SignedPublicKey::verify_bindings` accepts the key it reads.
/// `verify_bindings` checks the signatures that the key carries on its user
/// ids, attributes and subkeys, and its direct and revocation signatures,
/// against the primary key.
pub uninterp spec fn key_bindings(armored: Seq<u8>) -> Option<bool>;

/// Reads an armored public key with `SignedPublicKey::from_armor_single` of
/// `pgp` and calls `SignedPublicKey::verify_bindings` on it. Both read
/// nothing but the bytes. The contract names the outcome [`key_bindings`]:
/// `None` where no key is read, else whether the bindings are accepted.
#[verifier::external_body]
fn check_key(armored: &[u8]) -> (checked: Option<bool>)
    ensures
        checked == key_bindings(armored@),
{
    let (key, _) = pgp::composed::SignedPublicKey::from_armor_single(armored).ok()?;
    Some(key.verify_bindings().is_ok())
}

/// Why a file is no trusted key.
#[derive(Clone, Copy, Debug, PartialEq, Eq, Structural)]
pub enum KeyError {
    /// The file holds no armored public key.
    Unreadable,
    /// The key does not carry valid bindings to itself.
    Inconsistent,
}

/// The first file that is no trusted key, and why.
#[derive(Clone, Copy, Debug, PartialEq, Eq, Structural)]
pub struct KeyringError {
    pub index: usize,
    pub cause: KeyError,
}

/// What an armored file is worth as a trusted key.
pub open spec fn key_verdict(armored: Seq<u8>) -> Result<(), KeyError> {
    match key_bindings(armored) {
        Some(held) => if held {
            Ok(())
        } else {
            Err(KeyError::Inconsistent)
        },
        None => Err(KeyError::Unreadable),
    }
}

/// Checks that an armored file holds a public key whose bindings hold.
pub fn check_trusted_key(armored: &[u8]) -> (verdict: Result<(), KeyError>)
    ensures
        verdict == key_verdict(armored@),
{
    match check_key(armored) {
        Some(held) => {
            if held {
                Ok(())
            } else {
                Err(KeyError::Inconsistent)
            }
        },
        None => Err(KeyError::Unreadable),
    }
}

/// A set of armored public keys, each of which has passed the check of its
/// own bindings.
pub struct Keyring {
    keys: Vec<Vec<u8>>,
}

impl View for Keyring {
    type V = Seq<Seq<u8>>;

    closed spec fn view(&self) -> Seq<Seq<u8>> {
        self.keys.deep_view()
    }
}

impl Keyring {
    #[verifier::type_invariant]
    spec fn consistent(&self) -> bool {
        forall|i: int|
            0 <= i < self.keys@.len() ==> key_verdict((#[trigger] self.keys@[i])@) is Ok
    }

    /// A keyring without keys.
    pub fn new() -> (keyring: Keyring)
        ensures
            keyring@ == Seq::<Seq<u8>>::empty(),
    {
        let keyring = Keyring { keys: Vec::new() };
        assert(keyring.keys.deep_view() =~= Seq::<Seq<u8>>::empty());
        keyring
    }

    /// Number of keys.
    pub fn len(&self) -> (count: usize)
        ensures
            count == self@.len(),
    {
        self.keys.len()
    }

    /// The key at `index`, as the armored file it was loaded from.
    pub fn key(&self, index: usize) -> (key: &[u8])
        requires
            index < self@.len(),
        ensures
            key@ == self@[index as int],
            key_verdict(key@) is Ok,
    {
        proof {
            use_type_invariant(self);
        }
        self.keys[index].as_slice()
    }
}

/// Builds a keyring from armored public key files, in their order. The first
/// file that is no key, or whose bindings do not hold, fails the whole load.
pub fn load_public_keys(files: &Vec<Vec<u8>>) -> (loaded: Result<Keyring, KeyringError>)
    ensures
        match loaded {
            Ok(keyring) => keyring@ == files.deep_view() && forall|i: int|
                0 <= i < files@.len() ==> key_verdict((#[trigger] files@[i])@) is Ok,
            Err(error) => error.index < files@.len() && key_verdict(files@[error.index as int]@)
                == Err::<(), KeyError>(error.cause) && forall|i: int|
                0 <= i < error.index ==> key_verdict((#[trigger] files@[i])@) is Ok,
        },
{
    let mut keys: Vec<Vec<u8>> = Vec::new();
    let mut index: usize = 0;
    while index < files.len()
        invariant
            index <= files@.len(),
            keys@.len() == index,
            forall|i: int| 0 <= i < index ==> (#[trigger] keys@[i])@ == files@[i]@,
            forall|i: int| 0 <= i < index ==> key_verdict((#[trigger] files@[i])@) is Ok,
        decreases files@.len() - index,
    {
        match check_trusted_key(files[index].as_slice()) {
            Ok(_) => {
                keys.push(slice_to_vec(files[index].as_slice()));
            },
            Err(cause) => {
                return Err(KeyringError { index, cause });
            },
        }
        index += 1;
    }
    assert(keys.deep_view() =~= files.deep_view());
    assert forall|i: int| 0 <= i < keys@.len() implies key_verdict((#[trigger] keys@[i])@)
        is Ok by {
        assert(key_verdict(files@[i]@) is Ok);
    }
    Ok(Keyring { keys })
}

} // verus!
