//! Transaction signatures and the cache keys made from them.

use vstd::prelude::*;

verus! {

/// Number of bytes in a signature.
pub const SIGNATURE_BYTES: usize = 64;

/// The identifier of one transaction, as the host supplies it.
#[derive(Clone, Copy, Debug)]
pub struct Signature {
    pub bytes: [u8; 64],
}

impl View for Signature {
    type V = Seq<u8>;

    open spec fn view(&self) -> Seq<u8> {
        self.bytes@
    }
}

/// The bytes of the sentinel signature: every one of them zero.
pub open spec fn sentinel_bytes() -> Seq<u8> {
    Seq::new(SIGNATURE_BYTES as nat, |i: int| 0u8)
}

/// Whether `bytes` are those of the sentinel signature.
pub open spec fn is_sentinel(bytes: Seq<u8>) -> bool {
    bytes == sentinel_bytes()
}

impl Default for Signature {
    /// The sentinel: the signature of a transaction that has no identity.
    fn default() -> (signature: Signature)
        ensures
            signature@ == sentinel_bytes(),
    {
        let signature = Signature { bytes: [0u8;64] };
        assert(signature@ =~= sentinel_bytes());
        signature
    }
}

/// Tells the sentinel from the signatures that name a transaction.
pub fn is_signature_empty(signature: &Signature) -> (empty: bool)
    ensures
        empty == is_sentinel(signature@),
{
    let mut i: usize = 0;
    while i < SIGNATURE_BYTES
        invariant
            i <= SIGNATURE_BYTES,
            forall|j: int| 0 <= j < i ==> signature@[j] == 0u8,
        decreases SIGNATURE_BYTES - i,
    {
        if signature.bytes[i] != 0 {
            assert(sentinel_bytes()[i as int] == 0u8);
            return false;
        }
        i += 1;
    }
    assert(signature@ =~= sentinel_bytes());
    true
}

/// The text under which a signature is filed in the cache, as a function
/// of the signature's bytes.
pub uninterp spec fn signature_text(bytes: Seq<u8>) -> Seq<char>;

/// Renders a signature as text through `Signature`'s `Display` of
/// `solana_sdk`, which writes the base-58 form of the 64 bytes. The
/// contract claims only that the text is the one that those bytes always
/// give; nothing here was proved of the encoding.
#[verifier::external_body]
pub(crate) fn render_signature(signature: &Signature) -> (text: String)
    ensures
        text@ == signature_text(signature@),
{
    solana_sdk::signature::Signature::from(signature.bytes).to_string()
}

} // verus!
