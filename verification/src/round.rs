//! A round of mining: the instructions that submit a solution, and the
//! compute budget they are sent with.

use vstd::prelude::*;
use crate::instruction::{
    auth_instruction, auth_view, find_proof_address, is_auth, is_mine, is_reset,
    lemma_kinds_differ, lemma_kinds_of_built, mine_carries, mine_instruction, ore_mine, ore_reset,
    proof_address, reset_instruction, reset_signed_by, Instruction, InstructionView,
};
use crate::nonce::{le_bytes, nonce_bytes};
use crate::solution::{Solution, SolutionView};
use rand::Rng;

verus! {

/// The compute budget of a round without a reset.
pub const BASE_COMPUTE_BUDGET: u32 = 500_000;

/// What a reset adds to the compute budget of a round.
pub const RESET_COMPUTE_BUDGET: u32 = 100_000;

/// Of this many rounds in which a reset is due, one attempts it.
pub const RESET_ODDS: u32 = 100;

/// `rand::Rng::gen_range`, on the generator of the current thread
/// (`rand::thread_rng`), draws a number from zero up to, and not including,
/// the bound. It panics on an empty range, so the bound is above zero.
#[verifier::external_body]
pub(crate) fn random_below(bound: u32) -> (draw: u32)
    requires
        bound > 0,
    ensures
        draw < bound,
{
    rand::thread_rng().gen_range(0..bound)
}

/// What is submitted in a round.
#[derive(Clone, Debug, PartialEq, Eq)]
pub struct Round {
    /// The instructions, in the order in which they run.
    pub instructions: Vec<Instruction>,
    /// The compute units that the instructions may use.
    pub compute_budget: u32,
}

/// A round as mathematical values.
pub struct RoundView {
    pub instructions: Seq<InstructionView>,
    pub compute_budget: nat,
}

impl View for Round {
    type V = RoundView;

    open spec fn view(&self) -> RoundView {
        RoundView {
            instructions: self.instructions@.map_values(|ix: Instruction| ix@),
            compute_budget: self.compute_budget as nat,
        }
    }
}

/// Whether a round attempts a reset: a reset is due, and the draw is the one
/// in `RESET_ODDS` that stands for an attempt.
pub open spec fn reset_gate(reset_due: bool, draw: u32) -> bool {
    reset_due && draw == 0
}

/// The compute budget of a round with or without a reset.
pub open spec fn budget_of(with_reset: bool) -> nat {
    if with_reset {
        600_000
    } else {
        500_000
    }
}

/// The round made of an authorization, a reset or none, and a mining
/// instruction, in that order.
pub open spec fn round_of(
    auth: InstructionView,
    reset: Option<InstructionView>,
    mine: InstructionView,
) -> RoundView {
    match reset {
        Some(reset) => RoundView { instructions: seq![auth, reset, mine], compute_budget: 600_000 },
        None => RoundView { instructions: seq![auth, mine], compute_budget: 500_000 },
    }
}

/// The round in which `signer` submits `solution` with rewards from `bus`:
/// the authorization of the signer's proof account, the reset if one is
/// attempted, and the mining instruction, which the signer pays for and
/// benefits from.
pub open spec fn planned_round(
    signer: Seq<u8>,
    bus: Seq<u8>,
    solution: SolutionView,
    with_reset: bool,
) -> RoundView {
    round_of(
        auth_view(proof_address(signer).unwrap()),
        if with_reset {
            Some(ore_reset(signer))
        } else {
            None
        },
        ore_mine(signer, signer, bus, solution.hash.d, le_bytes(solution.nonce)),
    )
}

/// Whether one of the instructions is a reset.
pub open spec fn has_reset(instructions: Seq<InstructionView>) -> bool {
    exists|i: int| 0 <= i < instructions.len() && is_reset(#[trigger] instructions[i])
}

/// Whether the instructions are those of a round in which `signer` submits
/// `solution` with rewards from `bus`: the first, and no other, is the
/// authorization of the signer's proof account; the last, and no other,
/// is a mining instruction, which carries the solution and names the signer
/// as the one who pays and the one who benefits; and what stands between
/// them, if anything, is one reset that the signer asks for.
pub open spec fn well_ordered(
    instructions: Seq<InstructionView>,
    signer: Seq<u8>,
    bus: Seq<u8>,
    solution: SolutionView,
) -> bool {
    &&& 2 <= instructions.len() <= 3
    &&& proof_address(signer) matches Some(proof) && instructions.first() == auth_view(proof)
    &&& mine_carries(
        instructions.last(),
        signer,
        signer,
        bus,
        solution.hash.d,
        le_bytes(solution.nonce),
    )
    &&& instructions.len() == 3 ==> reset_signed_by(instructions[1], signer)
    &&& forall|i: int|
        0 <= i < instructions.len() ==> (is_auth(#[trigger] instructions[i]) <==> i == 0)
    &&& forall|i: int|
        0 <= i < instructions.len() ==> (is_mine(#[trigger] instructions[i]) <==> i
            == instructions.len() - 1)
    &&& forall|i: int|
        0 <= i < instructions.len() ==> (is_reset(#[trigger] instructions[i]) <==> 0 < i
            < instructions.len() - 1)
}

/// A reset, if there is one, as a view.
pub open spec fn reset_view(reset: Option<Instruction>) -> Option<InstructionView> {
    match reset {
        Some(ix) => Some(ix@),
        None => None,
    }
}

/// Decides whether a round attempts a reset.
pub fn reset_gate_open(reset_due: bool, draw: u32) -> (open: bool)
    ensures
        open == reset_gate(reset_due, draw),
{
    reset_due && draw == 0
}

/// Puts a round together: the authorization first, the mining instruction
/// last, the reset between them if there is one. The compute budget is
/// raised for a reset.
pub fn assemble_round(auth: Instruction, reset: Option<Instruction>, mine: Instruction) -> (round:
    Round)
    ensures
        round@ == round_of(auth@, reset_view(reset), mine@),
{
    let mut instructions: Vec<Instruction> = Vec::new();
    let mut compute_budget = BASE_COMPUTE_BUDGET;
    instructions.push(auth);
    match reset {
        Some(ix) => {
            compute_budget = compute_budget + RESET_COMPUTE_BUDGET;
            instructions.push(ix);
        },
        None => {},
    }
    instructions.push(mine);
    let round = Round { instructions, compute_budget };
    assert(round@.instructions =~= round_of(auth@, reset_view(reset), mine@).instructions);
    round
}

/// Builds the round in which `signer` submits `solution`, with a reset or
/// without one.
fn round_for(signer: &[u8; 32], bus: &[u8; 32], solution: &Solution, with_reset: bool) -> (round:
    Option<Round>)
    ensures
        round is Some <==> proof_address(signer@) is Some,
        round matches Some(r) ==> {
            &&& r@ == planned_round(signer@, bus@, solution@, with_reset)
            &&& r@.compute_budget == budget_of(with_reset)
            &&& has_reset(r@.instructions) <==> with_reset
            &&& well_ordered(r@.instructions, signer@, bus@, solution@)
        },
{
    let proof = match find_proof_address(signer) {
        Some(proof) => proof,
        None => {
            return None;
        },
    };
    let auth = auth_instruction(&proof);
    let reset = if with_reset {
        Some(reset_instruction(signer))
    } else {
        None
    };
    let nonce = nonce_bytes(solution.nonce);
    let mine = mine_instruction(signer, signer, bus, &solution.hash.d, &nonce);
    let round = assemble_round(auth, reset, mine);
    proof {
        let ixs = round@.instructions;
        let digest = solution@.hash.d;
        lemma_kinds_of_built(auth@, proof@, signer@, signer@, bus@, digest, nonce@);
        lemma_kinds_of_built(mine@, proof@, signer@, signer@, bus@, digest, nonce@);
        assert forall|i: int| 0 <= i < ixs.len() implies (is_auth(#[trigger] ixs[i]) <==> i == 0)
            && (is_mine(ixs[i]) <==> i == ixs.len() - 1) && (is_reset(ixs[i]) <==> 0 < i
            < ixs.len() - 1) by {
            lemma_kinds_differ(ixs[i]);
            if 0 < i < ixs.len() - 1 {
                lemma_kinds_of_built(ixs[i], proof@, signer@, signer@, bus@, digest, nonce@);
            }
        }
        if with_reset {
            assert(is_reset(ixs[1]));
        }
    }
    Some(round)
}

/// Builds the round in which `signer` submits `solution`, for a given draw.
/// There is a round if and only if the signer has a proof account address.
/// It holds a reset, and has the higher compute budget, exactly when a reset
/// is due and the draw is zero. The authorization comes first and the mining
/// instruction last in any case, and there is one of each.
pub fn build_round_with_draw(
    signer: &[u8; 32],
    bus: &[u8; 32],
    solution: &Solution,
    reset_due: bool,
    draw: u32,
) -> (round: Option<Round>)
    ensures
        round is Some <==> proof_address(signer@) is Some,
        round matches Some(r) ==> {
            &&& r@ == planned_round(signer@, bus@, solution@, reset_gate(reset_due, draw))
            &&& r@.compute_budget == budget_of(reset_gate(reset_due, draw))
            &&& has_reset(r@.instructions) <==> reset_gate(reset_due, draw)
            &&& well_ordered(r@.instructions, signer@, bus@, solution@)
        },
{
    round_for(signer, bus, solution, reset_gate_open(reset_due, draw))
}

/// Builds the round in which `signer` submits `solution`. Where a reset is
/// due, a number below `RESET_ODDS` is drawn at random, and the round
/// attempts the reset if it is zero. Where none is due, nothing is drawn and
/// the round holds no reset.
pub fn build_round(signer: &[u8; 32], bus: &[u8; 32], solution: &Solution, reset_due: bool) -> (round:
    Option<Round>)
    ensures
        round is Some <==> proof_address(signer@) is Some,
        round matches Some(r) ==> {
            &&& r@ == planned_round(signer@, bus@, solution@, has_reset(r@.instructions))
            &&& r@.compute_budget == budget_of(has_reset(r@.instructions))
            &&& has_reset(r@.instructions) ==> reset_due
            &&& well_ordered(r@.instructions, signer@, bus@, solution@)
        },
{
    let with_reset = reset_due && reset_gate_open(reset_due, random_below(RESET_ODDS));
    round_for(signer, bus, solution, with_reset)
}

} // verus!
