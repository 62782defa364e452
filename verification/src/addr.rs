use vstd::prelude::*;

verus! {

/// A 32-byte ledger address. Principals, asset identifiers and record
/// addresses are all values of this type; the protocol reads them only as
/// plain bytes.
#[derive(Clone, Copy)]
pub struct Address {
    pub bytes: [u8; 32],
}

impl View for Address {
    type V = Seq<u8>;

    open spec fn view(&self) -> Seq<u8> {
        self.bytes@
    }
}

/// Byte-for-byte equality of two addresses.
pub fn addr_eq(a: &Address, b: &Address) -> (r: bool)
    ensures
        r == (a@ == b@),
{
    let mut i: usize = 0;
    while i < 32
        invariant
            0 <= i <= 32,
            forall|j: int| 0 <= j < i ==> a@[j] == b@[j],
        decreases 32 - i,
    {
        if a.bytes[i] != b.bytes[i] {
            assert(a@[i as int] != b@[i as int]);
            return false;
        }
        i = i + 1;
    }
    assert(a@ =~= b@);
    true
}

/// The address derived from a seed and an offset under a given program
/// identity, where such an address exists. The derivation is a pure function
/// of its inputs; its value is left unspecified here.
pub uninterp spec fn derived_address(seed: Seq<u8>, bump: u8, program: Seq<u8>) -> Option<Seq<u8>>;

/// Relies on anchor_lang's `Pubkey::create_program_address`: the derived
/// address is a function of the seeds and the program identity alone, and the
/// call fails exactly where no valid derived address exists for this offset.
#[verifier::external_body]
pub(crate) fn derive_address(seed: &Address, bump: u8, program: &Address) -> (r: Option<Address>)
    ensures
        match r {
            Some(a) => derived_address(seed@, bump, program@) == Some(a@),
            None => derived_address(seed@, bump, program@) is None,
        },
{
    let program_id = anchor_lang::prelude::Pubkey::new_from_array(program.bytes);
    let derived = anchor_lang::prelude::Pubkey::create_program_address(
        &[&seed.bytes, &[bump]],
        &program_id,
    );
    match derived {
        Ok(p) => Some(Address { bytes: p.to_bytes() }),
        Err(_) => None,
    }
}

/// True exactly when `(seed, bump)` derives `expected` under `program`.
pub fn check_derived(seed: &Address, bump: u8, program: &Address, expected: &Address) -> (r: bool)
    ensures
        r == (derived_address(seed@, bump, program@) == Some(expected@)),
{
    match derive_address(seed, bump, program) {
        Some(a) => addr_eq(&a, expected),
        None => false,
    }
}

} // verus!
