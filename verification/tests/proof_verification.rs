use aero::address::Address;
use aero::zk::inputs::{extract_public_inputs, extract_u32_from_field, extract_u64_from_field, read_field, validate_public_inputs};
use aero::zk::keys::{compute_vk_hash, get_vk, set_vk, validate_vk};
use aero::zk::honk::{verify_and_check_nullifier, verify_proof};
use aero::zk::types::{Error, ProofData, PublicInputs, VerificationKey, VerifierState};
use aero::zk::{verify, VerifierContract};

fn admin() -> Address {
    let mut strkey = [b'B'; 56];
    strkey[0] = b'G';
    Address { strkey }
}

fn deploy_verifier(admin: &Address, vk_hash: [u8; 32]) -> VerifierState {
    let mut env = VerifierState::new();
    let num_inputs: u32 = 8;
    VerifierContract::init(&mut env, admin, vk_hash, num_inputs).unwrap();
    env
}

fn public_inputs(loan_amount: i128, ltv: u32, int_bps: u32) -> [u8; 256] {
    let mut public_inputs_bytes = [0u8; 256];
    for i in 0..16 {
        public_inputs_bytes[32 + i] = ((loan_amount >> (i * 8)) & 0xFF) as u8;
    }
    for i in 0..4 {
        public_inputs_bytes[128 + i] = ((ltv >> (i * 8)) & 0xFF) as u8;
    }
    for i in 0..4 {
        public_inputs_bytes[160 + i] = ((int_bps >> (i * 8)) & 0xFF) as u8;
    }
    public_inputs_bytes
}

#[test]
fn test_init_and_get_vk() {
    let vk_hash = [0xAB; 32];
    let env = deploy_verifier(&admin(), vk_hash);

    let vk: VerificationKey = VerifierContract::get_vk(&env).unwrap();

    assert_eq!(vk.vk_hash, vk_hash);
    assert_eq!(vk.proof_system, 0);
    assert_eq!(vk.curve, 1);
    assert_eq!(vk.num_public_inputs, 8);
    assert_eq!(VerifierContract::get_admin(&env), Ok(admin()));
}

#[test]
fn test_test_double_init_fails() {
    let vk_hash = [0xCD; 32];
    let mut env = deploy_verifier(&admin(), vk_hash);

    let num_inputs: u32 = 8;
    let result = VerifierContract::init(&mut env, &admin(), vk_hash, num_inputs);
    assert!(result.is_err());
    assert_eq!(result, Err(Error::AlreadyInitialized));
}

#[test]
fn test_verify_public_input_extraction() {
    let mut env = deploy_verifier(&admin(), [0xEF; 32]);

    let mut public_inputs_bytes = [0u8; 256];
    for i in 0..32 {
        public_inputs_bytes[i] = 0x11u8;
    }
    let loan_amount: i128 = 5_000_000_000i128;
    for i in 0..16 {
        public_inputs_bytes[32 + i] = ((loan_amount >> (i * 8)) & 0xFF) as u8;
    }
    for i in 0..32 {
        public_inputs_bytes[64 + i] = 0x22u8;
    }
    for i in 0..32 {
        public_inputs_bytes[96 + i] = 0x33u8;
    }
    let ltv: u32 = 8000;
    for i in 0..4 {
        public_inputs_bytes[128 + i] = ((ltv >> (i * 8)) & 0xFF) as u8;
    }
    let int_bps: u32 = 500;
    for i in 0..4 {
        public_inputs_bytes[160 + i] = ((int_bps >> (i * 8)) & 0xFF) as u8;
    }

    let proof_bytes = [0xAA; 128];
    let vk_bytes = [0xEF; 32];

    let result: PublicInputs =
        VerifierContract::verify(&mut env, &proof_bytes, &public_inputs_bytes, &vk_bytes).unwrap();

    assert_eq!(result.loan_amount, 5_000_000_000i128);
    assert_eq!(result.ltv_bps, 8000);
    assert_eq!(result.interest_bps, 500);
    for i in 0..32 {
        assert_eq!(result.nullifier[i], 0x33u8);
    }
    assert_eq!(result.invoice_hash, [0x11; 32]);
    assert_eq!(result.provider_response_hash, [0x22; 32]);
}

#[test]
fn test_nullifier_double_spend_prevention() {
    let mut env = deploy_verifier(&admin(), [0xFE; 32]);
    let public_bytes = public_inputs(1_000_000, 8000, 500);
    let proof_bytes = [0xBB; 128];
    let vk_bytes = [0xFE; 32];

    let _result1 = VerifierContract::verify(&mut env, &proof_bytes, &public_bytes, &vk_bytes).unwrap();

    let result2 = VerifierContract::verify(&mut env, &proof_bytes, &public_bytes, &vk_bytes);
    assert!(result2.is_err());
    assert_eq!(result2, Err(Error::NullifierAlreadyVerified));
}

#[test]
fn test_invalid_proof_format_rejected() {
    let mut env = deploy_verifier(&admin(), [0xDA; 32]);

    let short_public_bytes = [0u8; 64];
    let proof_bytes = [0xCC; 128];
    let vk_bytes = [0xDA; 32];

    let result = VerifierContract::verify(&mut env, &proof_bytes, &short_public_bytes, &vk_bytes);
    assert!(result.is_err());
    assert_eq!(result, Err(Error::InvalidProofFormat));
}

#[test]
fn test_verify_without_nullifier() {
    let env = deploy_verifier(&admin(), [0xAF; 32]);
    let public_bytes = public_inputs(1_000_000, 8000, 500);
    let proof_bytes = [0xDD; 128];
    let vk_bytes = [0xAF; 32];

    let result = VerifierContract::verify_without_nullifier(&env, &proof_bytes, &public_bytes, &vk_bytes).unwrap();
    assert_eq!(result.loan_amount, 1_000_000i128);

    let result2 = VerifierContract::verify_without_nullifier(&env, &proof_bytes, &public_bytes, &vk_bytes).unwrap();
    assert_eq!(result2.loan_amount, 1_000_000i128);
}

#[test]
fn test_test_not_initialized_fails() {
    let mut env = VerifierState::new();

    let proof_bytes = [0xEE; 128];
    let public_bytes = [0u8; 256];
    let vk_bytes = [0xEE; 32];

    let result = VerifierContract::verify(&mut env, &proof_bytes, &public_bytes, &vk_bytes);
    assert!(result.is_err());
    assert_eq!(result, Err(Error::NotInitialized));
    assert_eq!(
        VerifierContract::verify_without_nullifier(&env, &proof_bytes, &public_bytes, &vk_bytes),
        Err(Error::NotInitialized)
    );
    assert_eq!(VerifierContract::get_vk(&env), Err(Error::VkNotSet));
    assert_eq!(VerifierContract::get_admin(&env), Err(Error::NotInitialized));
}

// --- Further cases ---

#[test]
fn vk_mismatch_is_refused() {
    let env = deploy_verifier(&admin(), [0x01; 32]);
    let public_bytes = public_inputs(1_000_000, 8000, 500);
    assert_eq!(
        VerifierContract::verify_without_nullifier(&env, &[], &public_bytes, &[0x02; 32]),
        Err(Error::InvalidVkHash)
    );
    // only the first 32 bytes of the VK count
    let mut vk = vec![0x01u8; 32];
    vk.extend_from_slice(&[0xFF; 100]);
    assert!(VerifierContract::verify_without_nullifier(&env, &[], &public_bytes, &vk).is_ok());
}

#[test]
fn vk_hash_is_a_zero_padded_prefix() {
    let h = compute_vk_hash(&[5, 6]);
    let mut expected = [0u8; 32];
    expected[0] = 5;
    expected[1] = 6;
    assert_eq!(h, expected);
    let long: Vec<u8> = (0..50u8).collect();
    assert_eq!(&compute_vk_hash(&long)[..], &long[..32]);
}

#[test]
fn keys_store_and_check() {
    let mut env = VerifierState::new();
    assert_eq!(get_vk(&env), Err(Error::VkNotSet));
    assert_eq!(validate_vk(&env, &[0; 32]), Err(Error::VkNotSet));
    assert_eq!(set_vk(&mut env, [9; 32], 8), Ok(()));
    assert_eq!(
        get_vk(&env),
        Ok(VerificationKey { vk_hash: [9; 32], curve: 1, num_public_inputs: 8, proof_system: 0 })
    );
    assert_eq!(validate_vk(&env, &[9; 32]), Ok(()));
    assert_eq!(validate_vk(&env, &[8; 32]), Err(Error::InvalidVkHash));
}

#[test]
fn field_readers() {
    let mut bytes = [0u8; 70];
    for i in 0..70 {
        bytes[i] = i as u8;
    }
    let f1 = read_field(&bytes, 1);
    for i in 0..32 {
        assert_eq!(f1[i], (32 + i) as u8);
    }
    // past the end reads as zero
    let f2 = read_field(&bytes, 2);
    assert_eq!(f2[5], 69);
    assert_eq!(f2[6], 0);
    assert_eq!(f2[31], 0);

    let mut field = [0xFFu8; 32];
    field[0] = 0x78;
    field[1] = 0x56;
    field[2] = 0x34;
    field[3] = 0x12;
    assert_eq!(extract_u32_from_field(&field), 0x1234_5678);
    // only the first 8 bytes count, so the upper bytes cannot inflate the amount
    assert_eq!(extract_u64_from_field(&field), 0xFFFF_FFFF_1234_5678i128);
    assert_eq!(extract_u64_from_field(&[0xFF; 32]), u64::MAX as i128);
}

#[test]
fn amounts_above_u64_are_truncated() {
    // the circuit outputs a u64; a larger 16-byte value loses its upper bytes
    let bytes = public_inputs((1i128 << 64) + 7, 8000, 500);
    assert_eq!(extract_public_inputs(&bytes).unwrap().loan_amount, 7);
}

#[test]
fn validation_errors() {
    let ok = extract_public_inputs(&public_inputs(1, 1, 10_000)).unwrap();
    assert_eq!(validate_public_inputs(&ok), Ok(()));
    for (amount, ltv, int_bps) in [(0, 8000, 500), (1, 0, 500), (1, 10_001, 500), (1, 8000, 0), (1, 8000, 10_001)] {
        let pi = extract_public_inputs(&public_inputs(amount, ltv, int_bps)).unwrap();
        assert_eq!(validate_public_inputs(&pi), Err(Error::PublicInputMismatch));
    }
    assert_eq!(extract_public_inputs(&[0u8; 257]), Err(Error::InvalidProofFormat));
}

#[test]
fn combined_proof_verification() {
    let mut env = VerifierState::new();
    let mut combined = vec![0xAAu8; 10];
    combined.extend_from_slice(&public_inputs(500, 8000, 500));
    let pi = verify(&mut env, &combined, &[0u8; 32]).unwrap();
    assert_eq!(pi.loan_amount, 500);
    assert_eq!(env.verified_nullifiers.len(), 1);
    assert_eq!(verify(&mut env, &combined, &[0u8; 32]), Err(Error::NullifierAlreadyVerified));
    assert_eq!(verify(&mut env, &combined[..255], &[0u8; 32]), Err(Error::InvalidProofFormat));
    assert_eq!(env.verified_nullifiers.len(), 1);
}

#[test]
fn honk_checks() {
    let mut env = VerifierState::new();
    set_vk(&mut env, [3; 32], 8).unwrap();
    let proof = ProofData { proof_bytes: vec![1, 2, 3], public_inputs_bytes: public_inputs(42, 8000, 500).to_vec() };
    assert_eq!(verify_proof(&env, &proof, &[3; 32]).unwrap().loan_amount, 42);
    assert_eq!(verify_and_check_nullifier(&mut env, &proof, &[3; 32]).unwrap().loan_amount, 42);
    assert_eq!(verify_and_check_nullifier(&mut env, &proof, &[3; 32]), Err(Error::NullifierAlreadyVerified));
}
