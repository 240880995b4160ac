//! Node public keys and their textual forms.

use vstd::prelude::*;

verus! {

/// What parsing `data` as a secp256k1 public key and writing the key back in its
/// compressed form gives; `None` where `data` encodes no point of the curve.
pub uninterp spec fn parsed_public_key(data: Seq<u8>) -> Option<Seq<u8>>;

/// The lower-case hexadecimal digit of `nibble`.
pub open spec fn hex_digit(nibble: int) -> char {
    if nibble < 10 {
        ('0' as int + nibble) as char
    } else {
        ('a' as int + nibble - 10) as char
    }
}

/// `bytes` written as two lower-case hexadecimal digits per byte, high digit first.
pub open spec fn lower_hex(bytes: Seq<u8>) -> Seq<char> {
    Seq::new(
        2 * bytes.len(),
        |i: int|
            if i % 2 == 0 {
                hex_digit(bytes[i / 2] as int / 16)
            } else {
                hex_digit(bytes[i / 2] as int % 16)
            },
    )
}

/// `text` has the shape of a public key in its debugging form: the library-internal
/// representation of the key, 64 bytes in hexadecimal, between `PublicKey(` and `)`.
pub open spec fn is_debug_text(text: Seq<char>) -> bool {
    exists|raw: Seq<u8>|
        raw.len() == 64 && text == "PublicKey("@ + #[trigger] lower_hex(raw) + ")"@
}

/// Calls `bitcoin::secp256k1::PublicKey::from_slice`, and `serialize` on the key that it
/// gives. The result is `parsed_public_key` of the data; the compressed form parses to
/// itself.
#[verifier::external_body]
fn parse_public_key(data: &[u8]) -> (parsed: Option<[u8; 33]>)
    ensures
        match parsed {
            Some(serialized) => {
                &&& parsed_public_key(data@) == Some(serialized@)
                &&& parsed_public_key(serialized@) == Some(serialized@)
            },
            None => parsed_public_key(data@) is None,
        },
{
    match bitcoin::secp256k1::PublicKey::from_slice(data) {
        Ok(key) => Some(key.serialize()),
        Err(_) => None,
    }
}

/// Calls the `Display` of `bitcoin::secp256k1::PublicKey`, which writes the compressed form
/// in lower-case hexadecimal.
#[verifier::external_body]
fn display_public_key(serialized: &[u8; 33]) -> (text: String)
    requires
        parsed_public_key(serialized@) == Some(serialized@),
    ensures
        text@ == lower_hex(serialized@),
{
    format!("{}", bitcoin::secp256k1::PublicKey::from_slice(serialized).unwrap())
}

/// Calls the `Debug` of `bitcoin::secp256k1::PublicKey`, which writes the 64 bytes that
/// libsecp256k1 keeps for the key. Their layout is left open between platforms and library
/// versions, so only the shape of the text is stated, not which bytes it shows.
#[verifier::external_body]
fn debug_public_key(serialized: &[u8; 33]) -> (text: String)
    requires
        parsed_public_key(serialized@) == Some(serialized@),
    ensures
        is_debug_text(text@),
{
    format!("{:?}", bitcoin::secp256k1::PublicKey::from_slice(serialized).unwrap())
}

/// The public key of a node, held in its compressed form.
#[derive(Clone, Copy, Debug, PartialEq, Eq)]
pub struct PublicKey {
    serialized: [u8; 33],
}

impl View for PublicKey {
    type V = Seq<u8>;

    closed spec fn view(&self) -> Seq<u8> {
        self.serialized@
    }
}

impl PublicKey {
    #[verifier::type_invariant]
    spec fn on_curve(self) -> bool {
        parsed_public_key(self.serialized@) == Some(self.serialized@)
    }

    /// `text` is what writing this key in its debugging form gave. The same key may be written
    /// differently on another platform or by another version of the library that writes it.
    pub closed spec fn shown_as(self, text: Seq<char>) -> bool {
        exists|key: &[u8; 33], shown: String|
            key@ == self@ && shown@ == text && #[trigger] call_ensures(
                debug_public_key,
                (key,),
                shown,
            )
    }

    /// What a key is shown as is what its own compressed form was written as.
    proof fn law_shown_as_its_own_bytes(self, text: Seq<char>)
        requires
            self.shown_as(text),
        ensures
            exists|key: &[u8; 33], shown: String|
                key@ == self.serialized@ && shown@ == text && #[trigger] call_ensures(
                    debug_public_key,
                    (key,),
                    shown,
                ),
    {
    }

    /// Reads a public key from its compressed, uncompressed or hybrid encoding. `None` where
    /// the bytes encode no point of the curve.
    pub fn from_slice(data: &[u8]) -> (key: Option<PublicKey>)
        ensures
            match key {
                Some(key) => parsed_public_key(data@) == Some(key@),
                None => parsed_public_key(data@) is None,
            },
    {
        match parse_public_key(data) {
            Some(serialized) => Some(PublicKey { serialized }),
            None => None,
        }
    }

    /// The compressed encoding of the key.
    pub fn serialize(&self) -> (serialized: [u8; 33])
        ensures
            serialized@ == self@,
            parsed_public_key(serialized@) == Some(self@),
    {
        proof {
            use_type_invariant(self);
        }
        self.serialized
    }

    /// The key in lower-case hexadecimal.
    pub fn display(&self) -> (text: String)
        ensures
            text@ == lower_hex(self@),
    {
        proof {
            use_type_invariant(self);
        }
        display_public_key(&self.serialized)
    }

    /// The key in its debugging form. Which internal bytes the text shows is not stated.
    pub fn debug(&self) -> (text: String)
        ensures
            is_debug_text(text@),
            self.shown_as(text@),
    {
        proof {
            use_type_invariant(self);
        }
        debug_public_key(&self.serialized)
    }
}

} // verus!
