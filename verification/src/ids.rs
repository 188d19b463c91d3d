use vstd::prelude::*;

verus! {

/// A 32-byte account address: the identity of an owner, a buyer, the pooled
/// vault, or the program itself. Addresses are opaque to the engine; it only
/// compares them byte for byte. The view of an address is its byte sequence.
#[derive(Clone, Copy, Debug)]
pub struct AccountId {
    pub bytes: [u8; 32],
}

impl View for AccountId {
    type V = Seq<u8>;

    open spec fn view(&self) -> Seq<u8> {
        self.bytes@
    }
}

impl AccountId {
    pub fn new(bytes: [u8; 32]) -> (r: AccountId)
        ensures
            r@ == bytes@,
    {
        AccountId { bytes }
    }
}

impl PartialEq for AccountId {
    fn eq(&self, other: &AccountId) -> (r: bool) {
        let mut i: usize = 0;
        while i < 32
            invariant
                0 <= i <= 32,
                forall|j: int| 0 <= j < i ==> self.bytes@[j] == other.bytes@[j],
            decreases 32 - i,
        {
            if self.bytes[i] != other.bytes[i] {
                return false;
            }
            i = i + 1;
        }
        proof {
            assert(self.bytes@ =~= other.bytes@);
        }
        true
    }
}

impl vstd::std_specs::cmp::PartialEqSpecImpl for AccountId {
    open spec fn obeys_eq_spec() -> bool {
        true
    }

    open spec fn eq_spec(&self, other: &AccountId) -> bool {
        self.bytes@ == other.bytes@
    }
}

impl Eq for AccountId {}

/// What program-derived-address search returns for the fixed vault seed, an
/// owner and a program: either the vault address bound to that owner under
/// that program, or nothing in the statistically improbable event that no
/// bump seed yields a valid address. The result is a function of the two
/// addresses alone.
pub uninterp spec fn vault_address_of(owner: Seq<u8>, program: Seq<u8>) -> Option<Seq<u8>>;

/// Relies on `Pubkey::try_find_program_address` from anchor_lang's prelude
/// (solana-address), called with the seed `b"vault"` and the owner's bytes:
/// the search is deterministic, so the outcome depends on the owner and the
/// program id alone.
#[verifier::external_body]
pub(crate) fn derive_vault_address(owner: &AccountId, program_id: &AccountId) -> (r: Option<
    AccountId,
>)
    ensures
        r is None <==> vault_address_of(owner@, program_id@) is None,
        r matches Some(a) ==> vault_address_of(owner@, program_id@) == Some(a@),
{
    let owner_pk = anchor_lang::prelude::Pubkey::new_from_array(owner.bytes);
    let program_pk = anchor_lang::prelude::Pubkey::new_from_array(program_id.bytes);
    let found = anchor_lang::prelude::Pubkey::try_find_program_address(
        &[b"vault", owner_pk.as_ref()],
        &program_pk,
    );
    found.map(|pair: (anchor_lang::prelude::Pubkey, u8)| AccountId { bytes: pair.0.to_bytes() })
}

} // verus!
