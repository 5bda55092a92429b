use ore_miner::instruction::{proof_pubkey, AccountMeta, Instruction, NOOP_PROGRAM_ID, ORE_PROGRAM_ID};
use ore_miner::round::{assemble_round, build_round, build_round_with_draw, reset_gate_open, Round};
use ore_miner::solution::Solution;
use solana_program::pubkey::Pubkey;

fn signer() -> [u8; 32] {
    let mut bytes = [0u8; 32];
    for (i, byte) in bytes.iter_mut().enumerate() {
        *byte = 3 * (i as u8) + 1;
    }
    bytes
}

fn bus() -> [u8; 32] {
    ore_api::consts::BUS_ADDRESSES[3].to_bytes()
}

fn solution() -> Solution {
    let mut d = [0u8; 16];
    for (i, byte) in d.iter_mut().enumerate() {
        *byte = 200 - (i as u8);
    }
    Solution { nonce: 0x1122_3344_5566_7788, difficulty: 21, hash: ore_miner::hash::Hash { d, h: [9u8; 32] } }
}

fn plain(ix: solana_program::instruction::Instruction) -> Instruction {
    Instruction {
        program_id: ix.program_id.to_bytes(),
        accounts: ix
            .accounts
            .iter()
            .map(|meta| AccountMeta {
                pubkey: meta.pubkey.to_bytes(),
                is_signer: meta.is_signer,
                is_writable: meta.is_writable,
            })
            .collect(),
        data: ix.data,
    }
}

fn expected_auth() -> Instruction {
    let signer = Pubkey::new_from_array(signer());
    let proof = Pubkey::find_program_address(&[b"proof", signer.as_ref()], &ore_api::ID).0;
    plain(ore_api::instruction::auth(proof))
}

fn expected_reset() -> Instruction {
    plain(ore_api::instruction::reset(Pubkey::new_from_array(signer())))
}

fn expected_mine() -> Instruction {
    let signer = Pubkey::new_from_array(signer());
    let solution = solution();
    plain(ore_api::instruction::mine(
        signer,
        signer,
        Pubkey::new_from_array(bus()),
        drillx::Solution::new(solution.hash.d, solution.nonce.to_le_bytes()),
    ))
}

#[test]
fn program_ids_are_those_of_the_programs() {
    assert_eq!(ORE_PROGRAM_ID, ore_api::ID.to_bytes());
    assert_eq!(NOOP_PROGRAM_ID, ore_api::consts::NOOP_PROGRAM_ID.to_bytes());
}

#[test]
fn proof_pubkey_is_the_derived_address() {
    let signer = Pubkey::new_from_array(signer());
    let expected = Pubkey::find_program_address(&[ore_api::consts::PROOF, signer.as_ref()], &ore_api::ID).0;
    assert_eq!(proof_pubkey(&signer.to_bytes()), Some(expected.to_bytes()));
    assert_ne!(proof_pubkey(&signer.to_bytes()), Some(signer.to_bytes()));
}

#[test]
fn gate_opens_only_for_a_due_reset_and_draw_zero() {
    assert!(reset_gate_open(true, 0));
    assert!(!reset_gate_open(true, 1));
    assert!(!reset_gate_open(true, 99));
    assert!(!reset_gate_open(false, 0));
    assert!(!reset_gate_open(false, 57));
}

#[test]
fn round_with_reset() {
    let round = build_round_with_draw(&signer(), &bus(), &solution(), true, 0).unwrap();
    assert_eq!(round.compute_budget, 600_000);
    assert_eq!(round.instructions, vec![expected_auth(), expected_reset(), expected_mine()]);
}

#[test]
fn round_without_reset_when_the_draw_is_not_zero() {
    for draw in [1u32, 2, 50, 99] {
        let round = build_round_with_draw(&signer(), &bus(), &solution(), true, draw).unwrap();
        assert_eq!(round.compute_budget, 500_000);
        assert_eq!(round.instructions, vec![expected_auth(), expected_mine()]);
    }
}

#[test]
fn round_without_reset_when_none_is_due() {
    for draw in [0u32, 1, 99] {
        let round = build_round_with_draw(&signer(), &bus(), &solution(), false, draw).unwrap();
        assert_eq!(round.compute_budget, 500_000);
        assert_eq!(round.instructions, vec![expected_auth(), expected_mine()]);
    }
}

#[test]
fn auth_is_first_and_mine_is_last() {
    for (reset_due, draw) in [(true, 0u32), (true, 7), (false, 0), (false, 7)] {
        let round = build_round_with_draw(&signer(), &bus(), &solution(), reset_due, draw).unwrap();
        assert_eq!(round.instructions.first(), Some(&expected_auth()));
        assert_eq!(round.instructions.last(), Some(&expected_mine()));
    }
}

#[test]
fn mine_instruction_carries_the_solution() {
    let round = build_round_with_draw(&signer(), &bus(), &solution(), false, 0).unwrap();
    let mine = round.instructions.last().unwrap();
    let solution = solution();
    assert_eq!(mine.program_id, ORE_PROGRAM_ID);
    assert_eq!(mine.data.len(), 25);
    assert_eq!(mine.data[0], 2);
    assert_eq!(mine.data[1..17], solution.hash.d);
    assert_eq!(mine.data[17..25], [0x88, 0x77, 0x66, 0x55, 0x44, 0x33, 0x22, 0x11]);
    assert_eq!(mine.accounts.len(), 6);
    assert_eq!(mine.accounts[0], AccountMeta { pubkey: signer(), is_signer: true, is_writable: true });
    assert_eq!(mine.accounts[1], AccountMeta { pubkey: bus(), is_signer: false, is_writable: true });
    assert_eq!(
        mine.accounts[3],
        AccountMeta { pubkey: proof_pubkey(&signer()).unwrap(), is_signer: false, is_writable: true }
    );
}

#[test]
fn auth_instruction_names_the_proof_account() {
    let round = build_round_with_draw(&signer(), &bus(), &solution(), false, 0).unwrap();
    let auth = &round.instructions[0];
    assert_eq!(auth.program_id, NOOP_PROGRAM_ID);
    assert!(auth.accounts.is_empty());
    assert_eq!(auth.data, proof_pubkey(&signer()).unwrap().to_vec());
}

#[test]
fn reset_instruction_is_signed_by_the_signer() {
    let round = build_round_with_draw(&signer(), &bus(), &solution(), true, 0).unwrap();
    let reset = &round.instructions[1];
    assert_eq!(reset.program_id, ORE_PROGRAM_ID);
    assert_eq!(reset.data, vec![4u8]);
    assert_eq!(reset.accounts.len(), 14);
    assert_eq!(reset.accounts[0], AccountMeta { pubkey: signer(), is_signer: true, is_writable: true });
}

#[test]
fn random_round_never_resets_when_none_is_due() {
    for _ in 0..300 {
        let round = build_round(&signer(), &bus(), &solution(), false).unwrap();
        assert_eq!(round.compute_budget, 500_000);
        assert_eq!(round.instructions, vec![expected_auth(), expected_mine()]);
    }
}

#[test]
fn random_round_is_one_of_the_two() {
    let with_reset = Round {
        instructions: vec![expected_auth(), expected_reset(), expected_mine()],
        compute_budget: 600_000,
    };
    let without = Round { instructions: vec![expected_auth(), expected_mine()], compute_budget: 500_000 };
    for _ in 0..300 {
        let round = build_round(&signer(), &bus(), &solution(), true).unwrap();
        assert!(round == with_reset || round == without);
    }
}

#[test]
fn assemble_round_orders_the_instructions() {
    let auth = expected_auth();
    let reset = expected_reset();
    let mine = expected_mine();
    let round = assemble_round(auth.clone(), Some(reset.clone()), mine.clone());
    assert_eq!(round, Round { instructions: vec![auth.clone(), reset, mine.clone()], compute_budget: 600_000 });
    let round = assemble_round(auth.clone(), None, mine.clone());
    assert_eq!(round, Round { instructions: vec![auth, mine], compute_budget: 500_000 });
}

#[test]
fn random_round_attempts_a_reset_now_and_then() {
    let mut resets = 0;
    for _ in 0..2_000 {
        let round = build_round(&signer(), &bus(), &solution(), true).unwrap();
        if round.instructions.len() == 3 {
            assert_eq!(round.compute_budget, 600_000);
            resets += 1;
        } else {
            assert_eq!(round.compute_budget, 500_000);
        }
    }
    assert!(resets >= 1);
    assert!(resets <= 200);
}
