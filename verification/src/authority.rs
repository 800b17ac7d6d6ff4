//! The program's derived authority: a keyless address computed from one fixed
//! seed and the program's own id. The same address serves as mint authority
//! and freeze authority, and every privileged instruction checks a supplied
//! account against it.

use vstd::prelude::*;

verus! {

/// A 32-byte account address, the plain form in which authorities are stored
/// and compared.
pub struct Address {
    pub bytes: Vec<u8>,
}

impl View for Address {
    type V = Seq<u8>;

    open spec fn view(&self) -> Seq<u8> {
        self.bytes@
    }
}

/// The fixed seed, the bytes of `mint_authority`, from which the program's
/// signing address is derived.
pub open spec fn mint_authority_seed() -> Seq<u8> {
    seq![
        109u8, 105u8, 110u8, 116u8, 95u8, 97u8, 117u8, 116u8, 104u8, 111u8, 114u8, 105u8, 116u8,
        121u8,
    ]
}

/// The program's declared id, as 32 plain bytes.
pub open spec fn minter_program_id() -> Seq<u8> {
    seq![
        70u8, 52u8, 36u8, 176u8, 180u8, 69u8, 202u8, 25u8, 109u8, 148u8, 113u8, 232u8, 204u8,
        60u8, 130u8, 239u8, 48u8, 161u8, 69u8, 58u8, 191u8, 240u8, 38u8, 45u8, 254u8, 125u8,
        22u8, 176u8, 103u8, 216u8, 107u8, 105u8,
    ]
}

/// What `Pubkey::try_find_program_address` returns for one seed and one
/// program id: the derived address with its bump byte, or nothing when no
/// bump yields a valid derived address; a function of the two arguments
/// alone.
pub uninterp spec fn pda_of(seed: Seq<u8>, program_id: Seq<u8>) -> Option<(Seq<u8>, u8)>;

/// The derivation for this program's fixed seed and id.
pub open spec fn derived_authority() -> Option<(Seq<u8>, u8)> {
    pda_of(mint_authority_seed(), minter_program_id())
}

/// The address every instruction expects as mint and freeze authority: the
/// address component of the derivation for the fixed seed.
pub open spec fn mint_authority_address() -> Seq<u8> {
    match derived_authority() {
        Some(p) => p.0,
        None => Seq::empty(),
    }
}

/// The seed bytes in executable form.
pub fn mint_authority_seed_bytes() -> (r: Vec<u8>)
    ensures
        r@ == mint_authority_seed(),
{
    let mut v: Vec<u8> = Vec::new();
    v.push(109);
    v.push(105);
    v.push(110);
    v.push(116);
    v.push(95);
    v.push(97);
    v.push(117);
    v.push(116);
    v.push(104);
    v.push(111);
    v.push(114);
    v.push(105);
    v.push(116);
    v.push(121);
    assert(v@ =~= mint_authority_seed());
    v
}

/// The program id in executable form.
pub fn program_id() -> (r: Address)
    ensures
        r@ == minter_program_id(),
{
    let mut v: Vec<u8> = Vec::new();
    v.push(70);
    v.push(52);
    v.push(36);
    v.push(176);
    v.push(180);
    v.push(69);
    v.push(202);
    v.push(25);
    v.push(109);
    v.push(148);
    v.push(113);
    v.push(232);
    v.push(204);
    v.push(60);
    v.push(130);
    v.push(239);
    v.push(48);
    v.push(161);
    v.push(69);
    v.push(58);
    v.push(191);
    v.push(240);
    v.push(38);
    v.push(45);
    v.push(254);
    v.push(125);
    v.push(22);
    v.push(176);
    v.push(103);
    v.push(216);
    v.push(107);
    v.push(105);
    assert(v@ =~= minter_program_id());
    Address { bytes: v }
}

/// Relies on `solana_program::pubkey::Pubkey::try_find_program_address`: for
/// a given seed list and program id it returns the first valid derived
/// address, searching bump bytes downward from 255, or `None` when no bump
/// yields one; the result depends on the arguments alone, and an address is
/// 32 bytes.
#[verifier::external_body]
fn find_derived_address(seed: &Vec<u8>, program_id: &Vec<u8>) -> (r: Option<(Vec<u8>, u8)>)
    requires
        program_id@.len() == 32,
    ensures
        (match r {
            Some(p) => pda_of(seed@, program_id@) == Some((p.0@, p.1)) && p.0@.len() == 32,
            None => pda_of(seed@, program_id@) is None,
        }),
{
    let mut pid_bytes = [0u8; 32];
    pid_bytes.copy_from_slice(program_id.as_slice());
    let pid = solana_program::pubkey::Pubkey::new_from_array(pid_bytes);
    match solana_program::pubkey::Pubkey::try_find_program_address(&[seed.as_slice()], &pid) {
        Some((addr, bump)) => Some((addr.to_bytes().to_vec(), bump)),
        None => None,
    }
}

/// Re-derives the program's authority address from the fixed seed, together
/// with its bump byte.
pub fn derive_mint_authority() -> (r: Option<(Address, u8)>)
    ensures
        (match r {
            Some(p) => derived_authority() == Some((p.0@, p.1)) && p.0@
                == mint_authority_address(),
            None => derived_authority() is None,
        }),
{
    let seed = mint_authority_seed_bytes();
    let pid = program_id();
    match find_derived_address(&seed, &pid.bytes) {
        Some((bytes, bump)) => Some((Address { bytes }, bump)),
        None => None,
    }
}

/// Byte-for-byte equality of two addresses.
pub fn address_eq(a: &Address, b: &Address) -> (r: bool)
    ensures
        r == (a@ == b@),
{
    if a.bytes.len() != b.bytes.len() {
        return false;
    }
    let mut i: usize = 0;
    while i < a.bytes.len()
        invariant
            i <= a.bytes@.len(),
            a.bytes@.len() == b.bytes@.len(),
            forall|j: int| 0 <= j < i ==> a.bytes@[j] == b.bytes@[j],
        decreases a.bytes@.len() - i,
    {
        if a.bytes[i] != b.bytes[i] {
            assert(a@[i as int] != b@[i as int]);
            return false;
        }
        i = i + 1;
    }
    assert(a@ =~= b@);
    true
}

/// A copy of an address with the same bytes.
pub fn copy_address(a: &Address) -> (r: Address)
    ensures
        r@ == a@,
{
    let mut bytes: Vec<u8> = Vec::new();
    let mut i: usize = 0;
    while i < a.bytes.len()
        invariant
            i <= a.bytes@.len(),
            bytes@.len() == i,
            forall|j: int| 0 <= j < i ==> bytes@[j] == a.bytes@[j],
        decreases a.bytes@.len() - i,
    {
        bytes.push(a.bytes[i]);
        i = i + 1;
    }
    assert(bytes@ =~= a@);
    Address { bytes }
}

} // verus!
