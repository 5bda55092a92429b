//! Instructions for the mining program, as plain values, and the calls that
//! build them.

use vstd::prelude::*;
use solana_program::pubkey::Pubkey;

verus! {

/// The address of the mining program.
pub const ORE_PROGRAM_ID: [u8; 32] = [
    12, 0, 218, 56, 141, 104, 231, 117, 177, 181, 197, 109, 1, 141, 62, 76,
    214, 134, 116, 12, 241, 199, 17, 129, 167, 81, 49, 80, 203, 81, 31, 217,
];

/// The address of the program that does nothing, to which the
/// authorization is addressed.
pub const NOOP_PROGRAM_ID: [u8; 32] = [
    11, 188, 15, 182, 203, 29, 221, 28, 227, 242, 242, 171, 26, 14, 188, 177,
    157, 107, 138, 3, 18, 82, 116, 20, 91, 31, 128, 139, 185, 154, 240, 91,
];

/// The first byte of the data of a mining instruction.
pub const MINE_TAG: u8 = 2;

/// The only byte of the data of a reset instruction.
pub const RESET_TAG: u8 = 4;

/// An account that an instruction names, and how it uses it.
#[derive(Clone, Copy, Debug, PartialEq, Eq)]
pub struct AccountMeta {
    pub pubkey: [u8; 32],
    pub is_signer: bool,
    pub is_writable: bool,
}

/// An account of an instruction as mathematical values.
pub struct AccountMetaView {
    pub pubkey: Seq<u8>,
    pub is_signer: bool,
    pub is_writable: bool,
}

impl View for AccountMeta {
    type V = AccountMetaView;

    open spec fn view(&self) -> AccountMetaView {
        AccountMetaView {
            pubkey: self.pubkey@,
            is_signer: self.is_signer,
            is_writable: self.is_writable,
        }
    }
}

/// An instruction: the program it is for, the accounts it names and its
/// data.
#[derive(Clone, Debug, PartialEq, Eq)]
pub struct Instruction {
    pub program_id: [u8; 32],
    pub accounts: Vec<AccountMeta>,
    pub data: Vec<u8>,
}

/// An instruction as mathematical values.
pub struct InstructionView {
    pub program_id: Seq<u8>,
    pub accounts: Seq<AccountMetaView>,
    pub data: Seq<u8>,
}

impl View for Instruction {
    type V = InstructionView;

    open spec fn view(&self) -> InstructionView {
        InstructionView {
            program_id: self.program_id@,
            accounts: self.accounts@.map_values(|meta: AccountMeta| meta@),
            data: self.data@,
        }
    }
}

/// An account that is written to, and signs or not.
pub open spec fn writable(pubkey: Seq<u8>, is_signer: bool) -> AccountMetaView {
    AccountMetaView { pubkey, is_signer, is_writable: true }
}

/// The authorization for a proof account: an instruction for the program
/// that does nothing, without accounts, whose data is the account's address.
pub open spec fn auth_view(proof: Seq<u8>) -> InstructionView {
    InstructionView { program_id: NOOP_PROGRAM_ID@, accounts: Seq::empty(), data: proof }
}

/// Whether an instruction is an authorization.
pub open spec fn is_auth(ix: InstructionView) -> bool {
    ix.program_id == NOOP_PROGRAM_ID@
}

/// Whether an instruction asks the mining program for a reset.
pub open spec fn is_reset(ix: InstructionView) -> bool {
    ix.program_id == ORE_PROGRAM_ID@ && ix.data == seq![RESET_TAG]
}

/// Whether an instruction submits a proof of work to the mining program.
pub open spec fn is_mine(ix: InstructionView) -> bool {
    ix.program_id == ORE_PROGRAM_ID@ && ix.data.len() == 25 && ix.data[0] == MINE_TAG
}

/// Whether an instruction is a reset that `signer` asks for: it is for the
/// mining program, its data is the reset tag alone, and the first of its 14
/// accounts is the signer, who signs and is written to.
pub open spec fn reset_signed_by(ix: InstructionView, signer: Seq<u8>) -> bool {
    &&& ix.program_id == ORE_PROGRAM_ID@
    &&& ix.data == seq![RESET_TAG]
    &&& ix.accounts.len() == 14
    &&& ix.accounts[0] == writable(signer, true)
}

/// Whether an instruction submits the proof of work `digest` and `nonce`: it
/// is for the mining program, and its data is the mining tag, the digest and
/// the nonce. Of its 6 accounts the first is the signer, who signs, the
/// second the bus and the fourth the proof account of the authority; the
/// three are written to.
pub open spec fn mine_carries(
    ix: InstructionView,
    signer: Seq<u8>,
    authority: Seq<u8>,
    bus: Seq<u8>,
    digest: Seq<u8>,
    nonce: Seq<u8>,
) -> bool {
    &&& ix.program_id == ORE_PROGRAM_ID@
    &&& ix.data == seq![MINE_TAG] + digest + nonce
    &&& ix.accounts.len() == 6
    &&& ix.accounts[0] == writable(signer, true)
    &&& ix.accounts[1] == writable(bus, false)
    &&& proof_address(authority) matches Some(proof) && ix.accounts[3] == writable(proof, false)
}

/// An address that was derived or not, as a view.
pub open spec fn address_view(address: Option<[u8; 32]>) -> Option<Seq<u8>> {
    match address {
        Some(bytes) => Some(bytes@),
        None => None,
    }
}

/// The address of the proof account of an authority: what
/// `Pubkey::try_find_program_address` derives from the seed `proof`, the
/// authority's address and the address of the mining program, or `None` if
/// there is no such address.
pub uninterp spec fn proof_address(authority: Seq<u8>) -> Option<Seq<u8>>;

/// The instruction that `ore_api::instruction::reset` builds for a signer.
pub uninterp spec fn ore_reset(signer: Seq<u8>) -> InstructionView;

/// The instruction that `ore_api::instruction::mine` builds: `signer` pays,
/// `authority` owns the proof account, `bus` is the account that rewards
/// come from, `digest` and `nonce` are the proof of work.
pub uninterp spec fn ore_mine(
    signer: Seq<u8>,
    authority: Seq<u8>,
    bus: Seq<u8>,
    digest: Seq<u8>,
    nonce: Seq<u8>,
) -> InstructionView;

/// `Pubkey::try_find_program_address` searches for an address that the
/// mining program owns and that is derived from the seed `proof` and the
/// authority. It returns the address with the bump that led to it, of which
/// the address is kept, or nothing. What it finds depends on the authority
/// alone.
#[verifier::external_body]
pub(crate) fn find_proof_address(authority: &[u8; 32]) -> (address: Option<[u8; 32]>)
    ensures
        address_view(address) == proof_address(authority@),
{
    Pubkey::try_find_program_address(&[ore_api::consts::PROOF, authority.as_slice()], &ore_api::ID)
        .map(|found| found.0.to_bytes())
}

/// `ore_api::instruction::auth` builds the authorization for a proof
/// account: an instruction for the program that does nothing, without
/// accounts, with the account's address as its data.
#[verifier::external_body]
pub(crate) fn auth_instruction(proof: &[u8; 32]) -> (ix: Instruction)
    ensures
        ix@ == auth_view(proof@),
{
    let ix = ore_api::instruction::auth(Pubkey::new_from_array(*proof));
    Instruction {
        program_id: ix.program_id.to_bytes(),
        accounts: ix.accounts.iter().map(|meta| AccountMeta {
            pubkey: meta.pubkey.to_bytes(),
            is_signer: meta.is_signer,
            is_writable: meta.is_writable,
        }).collect(),
        data: ix.data,
    }
}

/// `ore_api::instruction::reset` builds the instruction that asks the mining
/// program for a reset. It is for the mining program, its data is the one
/// byte `RESET_TAG`, and the first of its 14 accounts is the signer, who
/// signs and is written to. The other accounts are fixed addresses of the
/// program.
#[verifier::external_body]
pub(crate) fn reset_instruction(signer: &[u8; 32]) -> (ix: Instruction)
    ensures
        ix@ == ore_reset(signer@),
        reset_signed_by(ix@, signer@),
{
    let ix = ore_api::instruction::reset(Pubkey::new_from_array(*signer));
    Instruction {
        program_id: ix.program_id.to_bytes(),
        accounts: ix.accounts.iter().map(|meta| AccountMeta {
            pubkey: meta.pubkey.to_bytes(),
            is_signer: meta.is_signer,
            is_writable: meta.is_writable,
        }).collect(),
        data: ix.data,
    }
}

/// `ore_api::instruction::mine` builds the instruction that submits a proof
/// of work. It is for the mining program; its data is the byte `MINE_TAG`,
/// the digest and the nonce. Of its 6 accounts the first is the signer, who
/// signs, the second the bus and the fourth the proof account of the
/// authority; the three are written to. The call derives the address of the
/// proof account and panics where there is none, so an authority without
/// one is not admitted.
#[verifier::external_body]
pub(crate) fn mine_instruction(
    signer: &[u8; 32],
    authority: &[u8; 32],
    bus: &[u8; 32],
    digest: &[u8; 16],
    nonce: &[u8; 8],
) -> (ix: Instruction)
    requires
        proof_address(authority@) is Some,
    ensures
        ix@ == ore_mine(signer@, authority@, bus@, digest@, nonce@),
        mine_carries(ix@, signer@, authority@, bus@, digest@, nonce@),
{
    let ix = ore_api::instruction::mine(
        Pubkey::new_from_array(*signer),
        Pubkey::new_from_array(*authority),
        Pubkey::new_from_array(*bus),
        drillx::Solution::new(*digest, *nonce),
    );
    Instruction {
        program_id: ix.program_id.to_bytes(),
        accounts: ix.accounts.iter().map(|meta| AccountMeta {
            pubkey: meta.pubkey.to_bytes(),
            is_signer: meta.is_signer,
            is_writable: meta.is_writable,
        }).collect(),
        data: ix.data,
    }
}

/// The address of the proof account of an authority, or `None` where none
/// can be derived.
pub fn proof_pubkey(authority: &[u8; 32]) -> (address: Option<[u8; 32]>)
    ensures
        address_view(address) == proof_address(authority@),
{
    find_proof_address(authority)
}

/// The authorization of a proof account is an authorization, a reset that
/// a signer asks for is a reset, and an instruction that carries a proof of
/// work is a mining instruction.
pub proof fn lemma_kinds_of_built(
    ix: InstructionView,
    proof: Seq<u8>,
    signer: Seq<u8>,
    authority: Seq<u8>,
    bus: Seq<u8>,
    digest: Seq<u8>,
    nonce: Seq<u8>,
)
    requires
        digest.len() == 16,
        nonce.len() == 8,
    ensures
        ix == auth_view(proof) ==> is_auth(ix),
        reset_signed_by(ix, signer) ==> is_reset(ix),
        mine_carries(ix, signer, authority, bus, digest, nonce) ==> is_mine(ix),
{
}

/// No instruction is of two kinds.
pub proof fn lemma_kinds_differ(ix: InstructionView)
    ensures
        !(is_auth(ix) && is_reset(ix)),
        !(is_auth(ix) && is_mine(ix)),
        !(is_reset(ix) && is_mine(ix)),
{
    if is_auth(ix) && ix.program_id == ORE_PROGRAM_ID@ {
        assert(NOOP_PROGRAM_ID@[0] == ORE_PROGRAM_ID@[0]);
        assert(NOOP_PROGRAM_ID[0] == 11);
        assert(ORE_PROGRAM_ID[0] == 12);
    }
    if is_reset(ix) {
        assert(ix.data.len() == 1);
    }
}

} // verus!
