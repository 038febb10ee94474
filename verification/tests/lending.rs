use aero::address::Address;
use aero::contract::AeroContract;
use aero::loan;
use aero::mock_usdc::{MockUsdc, TokenState};
use aero::pool;
use aero::state::ContractState;
use aero::types::{Asset, Error, LoanStatus, PoolPosition, PoolStats};

// --- Test Helpers ---

/// A distinct address for each tag.
fn addr(tag: u8) -> Address {
    let mut strkey = [b'A'; 56];
    strkey[0] = b'G';
    strkey[55] = b'A' + (tag % 26);
    strkey[54] = b'A' + (tag / 26 % 26);
    Address { strkey }
}

fn contract_addr(tag: u8) -> Address {
    let mut a = addr(tag);
    a.strkey[0] = b'C';
    a
}

/// Builds combined proof bytes: mock proof data + 256-byte public inputs.
fn build_combined_proof(
    proof_tag: u8,
    loan_amount: i128,
    ltv_bps: u32,
    interest_bps: u32,
    invoice_hash_byte: u8,
    nullifier_byte: u8,
) -> Vec<u8> {
    let proof_len: u32 = 128;
    let mut combined: Vec<u8> = Vec::new();
    for _i in 0..proof_len {
        combined.push(proof_tag);
    }
    for _i in 0..32 {
        combined.push(invoice_hash_byte);
    }
    for i in 0..32u32 {
        let byte = if i < 16 { ((loan_amount >> (i * 8)) & 0xFF) as u8 } else { 0 };
        combined.push(byte);
    }
    for _i in 0..32 {
        combined.push(0x22u8);
    }
    for _i in 0..32 {
        combined.push(nullifier_byte);
    }
    for i in 0..32u32 {
        let byte = if i < 4 { ((ltv_bps >> (i * 8)) & 0xFF) as u8 } else { 0 };
        combined.push(byte);
    }
    for i in 0..32u32 {
        let byte = if i < 4 { ((interest_bps >> (i * 8)) & 0xFF) as u8 } else { 0 };
        combined.push(byte);
    }
    for _i in 0..64 {
        combined.push(0u8);
    }
    combined
}

fn deploy_mock_usdc(admin: &Address) -> TokenState {
    let mut token = TokenState::new();
    MockUsdc::init(&mut token, admin);
    token
}

fn deploy_aero(admin: &Address, usdc_address: &Address) -> ContractState {
    let mut env = ContractState::new(contract_addr(200), 0);
    AeroContract::init(&mut env, admin, usdc_address).unwrap();
    env
}

/// Performs the token transfers that the lending contract requested.
fn settle(env: &mut ContractState, token: &mut TokenState, usdc_addr: &Address) {
    for t in env.take_transfers() {
        assert_eq!(t.token, *usdc_addr);
        MockUsdc::transfer(token, &t.from, &t.to, t.amount);
    }
}

struct World {
    admin: Address,
    usdc_addr: Address,
    token: TokenState,
    env: ContractState,
}

fn world() -> World {
    let admin = addr(1);
    let usdc_addr = contract_addr(100);
    let token = deploy_mock_usdc(&admin);
    let env = deploy_aero(&admin, &usdc_addr);
    World { admin, usdc_addr, token, env }
}

// --- Scenarios of the contract's documentation ---

#[test]
fn test_mock_usdc_mint_and_transfer() {
    let admin = addr(1);
    let user = addr(2);
    let mut token = deploy_mock_usdc(&admin);

    let mint_amount: i128 = 1_000_000_000_000i128;
    MockUsdc::mint(&mut token, &admin, &user, mint_amount);

    let bal = MockUsdc::balance(&token, &user);
    assert_eq!(bal, mint_amount);
}

#[test]
fn test_init_and_admin() {
    let w = world();
    let stored_admin = AeroContract::get_admin(&w.env).unwrap();
    assert_eq!(stored_admin, w.admin);
}

#[test]
fn test_double_init_fails() {
    let mut w = world();
    let result = AeroContract::init(&mut w.env, &w.admin, &w.usdc_addr);
    assert!(result.is_err());
    assert_eq!(result, Err(Error::AlreadyInitialized));
}

#[test]
fn test_not_initialized_fails() {
    let env = ContractState::new(contract_addr(200), 0);
    let result = AeroContract::get_pool_stats(&env, Asset::USDC);
    assert!(result.is_err());
    assert_eq!(result, Err(Error::NotInitialized));
}

#[test]
fn test_deposit_and_pool_stats() {
    let mut w = world();
    let lender = addr(2);
    MockUsdc::mint(&mut w.token, &w.admin, &lender, 1_000_000_000_000i128);

    let deposit_amount: i128 = 1000 * 10_000_000i128;
    let shares = AeroContract::deposit(&mut w.env, &lender, Asset::USDC, deposit_amount).unwrap();
    settle(&mut w.env, &mut w.token, &w.usdc_addr);
    assert_eq!(shares, deposit_amount);

    let stats = AeroContract::get_pool_stats(&w.env, Asset::USDC).unwrap();
    assert_eq!(stats.total_deposits, deposit_amount);
    assert_eq!(stats.total_shares, deposit_amount);
    assert_eq!(stats.available_liquidity, deposit_amount);
    assert_eq!(stats.total_lent, 0);
    assert_eq!(MockUsdc::balance(&w.token, &w.env.current_contract), deposit_amount);
}

#[test]
fn test_full_loan_lifecycle() {
    let mut w = world();
    let lender = addr(2);
    let borrower = addr(3);
    MockUsdc::mint(&mut w.token, &w.admin, &lender, 1_000_000_000_000i128);
    MockUsdc::mint(&mut w.token, &w.admin, &borrower, 100_000_000_000i128);

    let deposit_amount: i128 = 1000 * 10_000_000i128;
    AeroContract::deposit(&mut w.env, &lender, Asset::USDC, deposit_amount).unwrap();
    settle(&mut w.env, &mut w.token, &w.usdc_addr);

    let loan_amount: i128 = 800 * 10_000_000i128;
    let vk_hash = [0x11u8; 32];
    let combined = build_combined_proof(0x11u8, loan_amount, 8000, 500, 0x01u8, 0x33u8);

    let loan_id = AeroContract::request_loan(&mut w.env, &borrower, Asset::USDC, &combined, &vk_hash).unwrap();
    settle(&mut w.env, &mut w.token, &w.usdc_addr);
    assert_eq!(loan_id, 1);

    // Fast-forward 90 days to accrue interest before repaying
    w.env.set_timestamp(1719000000 + 90 * 24 * 60 * 60);

    let interest = (loan_amount * 500 * (90 * 24 * 60 * 60)) / (31_557_600 * 10_000);
    let total_repay = loan_amount + interest;
    AeroContract::repay_loan(&mut w.env, &borrower, loan_id, total_repay).unwrap();
    settle(&mut w.env, &mut w.token, &w.usdc_addr);

    let loan_after = AeroContract::get_loan(&w.env, 1).unwrap();
    // The loan was issued at ledger time 0, so the interest locked now runs
    // over the whole elapsed time and is not yet paid: the loan stays active.
    assert_eq!(loan_after.amount_repaid, loan_amount);
    assert_eq!(loan_after.accrued_interest, 21_887_291_809);
    assert_eq!(loan_after.interest_repaid, interest);
    assert_eq!(loan_after.status, LoanStatus::Active);

    let withdrawn = AeroContract::withdraw(&mut w.env, &lender, Asset::USDC, deposit_amount).unwrap();
    settle(&mut w.env, &mut w.token, &w.usdc_addr);
    assert_eq!(withdrawn, deposit_amount);
}

#[test]
fn test_liquidation_flow() {
    let mut w = world();
    let lender = addr(2);
    let borrower = addr(3);
    let liquidator = addr(4);
    MockUsdc::mint(&mut w.token, &w.admin, &lender, 1_000_000_000_000i128);
    MockUsdc::mint(&mut w.token, &w.admin, &borrower, 100_000_000_000i128);

    let deposit_amount: i128 = 1000 * 10_000_000i128;
    AeroContract::deposit(&mut w.env, &lender, Asset::USDC, deposit_amount).unwrap();
    settle(&mut w.env, &mut w.token, &w.usdc_addr);

    let loan_amount: i128 = 800 * 10_000_000i128;
    let vk_hash = [0x22u8; 32];
    let combined = build_combined_proof(0x22u8, loan_amount, 8000, 500, 0x02u8, 0x44u8);

    let loan_id = AeroContract::request_loan(&mut w.env, &borrower, Asset::USDC, &combined, &vk_hash).unwrap();
    settle(&mut w.env, &mut w.token, &w.usdc_addr);

    // Fast-forward past due date
    w.env.set_timestamp(1719000000 + 91 * 24 * 60 * 60);

    AeroContract::liquidate_loan(&mut w.env, &liquidator, loan_id).unwrap();

    let loan = AeroContract::get_loan(&w.env, loan_id).unwrap();
    assert_eq!(loan.status, LoanStatus::Defaulted);
}

#[test]
fn test_repay_wrong_borrower_fails() {
    let mut w = world();
    let lender = addr(2);
    let borrower = addr(3);
    MockUsdc::mint(&mut w.token, &w.admin, &lender, 1_000_000_000_000i128);
    MockUsdc::mint(&mut w.token, &w.admin, &borrower, 100_000_000_000i128);

    AeroContract::deposit(&mut w.env, &lender, Asset::USDC, 1000 * 10_000_000i128).unwrap();
    settle(&mut w.env, &mut w.token, &w.usdc_addr);

    let loan_amount: i128 = 500 * 10_000_000i128;
    let vk_hash = [0x55u8; 32];
    let combined = build_combined_proof(0x55u8, loan_amount, 8000, 500, 0x05u8, 0x55u8);

    let loan_id = AeroContract::request_loan(&mut w.env, &borrower, Asset::USDC, &combined, &vk_hash).unwrap();
    settle(&mut w.env, &mut w.token, &w.usdc_addr);

    let impostor = addr(9);
    let result = AeroContract::repay_loan(&mut w.env, &impostor, loan_id, loan_amount);
    assert!(result.is_err());
    assert_eq!(result, Err(Error::NotBorrower));
}

#[test]
fn test_loan_not_found() {
    let w = world();
    let result = AeroContract::get_loan(&w.env, 999u64);
    assert!(result.is_err());
    assert_eq!(result, Err(Error::LoanNotFound));
}

#[test]
fn test_xlm_deposit_and_loan() {
    let mut w = world();
    let lender = addr(2);
    let borrower = addr(3);
    MockUsdc::mint(&mut w.token, &w.admin, &lender, 1_000_000_000_000i128);
    MockUsdc::mint(&mut w.token, &w.admin, &borrower, 100_000_000_000i128);

    let deposit_amount: i128 = 1000 * 10_000_000i128;
    AeroContract::deposit(&mut w.env, &lender, Asset::XLM, deposit_amount).unwrap();

    let loan_amount: i128 = 800 * 10_000_000i128;
    let vk_hash = [0x66u8; 32];
    let combined = build_combined_proof(0x66u8, loan_amount, 8000, 500, 0x06u8, 0x66u8);

    let loan_id = AeroContract::request_loan(&mut w.env, &borrower, Asset::XLM, &combined, &vk_hash).unwrap();
    assert_eq!(loan_id, 1);
    // XLM moves are tracked by the pool alone
    assert!(w.env.transfers.is_empty());
}

#[test]
fn test_nullifier_prevents_double_spend() {
    let mut w = world();
    let lender = addr(2);
    let borrower = addr(3);
    MockUsdc::mint(&mut w.token, &w.admin, &lender, 1_000_000_000_000i128);
    MockUsdc::mint(&mut w.token, &w.admin, &borrower, 100_000_000_000i128);

    AeroContract::deposit(&mut w.env, &lender, Asset::USDC, 2000 * 10_000_000i128).unwrap();
    settle(&mut w.env, &mut w.token, &w.usdc_addr);

    let loan_amount: i128 = 500 * 10_000_000i128;
    let vk_hash = [0x99u8; 32];
    let combined = build_combined_proof(0x99u8, loan_amount, 8000, 500, 0x09u8, 0x99u8);

    // First loan should succeed
    let loan_id1 = AeroContract::request_loan(&mut w.env, &borrower, Asset::USDC, &combined, &vk_hash).unwrap();
    settle(&mut w.env, &mut w.token, &w.usdc_addr);
    assert_eq!(loan_id1, 1);

    // Second loan with same proof should fail (nullifier already used)
    let result = AeroContract::request_loan(&mut w.env, &borrower, Asset::USDC, &combined, &vk_hash);
    assert!(result.is_err());
    assert_eq!(result, Err(Error::ProofVerificationFailed));
}

// --- Further cases ---

#[test]
fn loan_terms_come_from_the_proof() {
    let mut w = world();
    let lender = addr(2);
    let borrower = addr(3);
    AeroContract::deposit(&mut w.env, &lender, Asset::USDC, 1_000_000).unwrap();
    w.env.set_timestamp(1_000);
    let combined = build_combined_proof(0x01, 123_456, 7000, 250, 0x0A, 0x0B);
    let id = AeroContract::request_loan(&mut w.env, &borrower, Asset::USDC, &combined, &[0u8; 32]).unwrap();
    let loan = AeroContract::get_loan(&w.env, id).unwrap();
    assert_eq!(loan.borrower, borrower);
    assert_eq!(loan.loan_amount, 123_456);
    assert_eq!(loan.skin_in_game, 12_345);
    assert_eq!(loan.ltv_bps, 7000);
    assert_eq!(loan.interest_bps, 250);
    assert_eq!(loan.invoice_hash, [0x0A; 32]);
    assert_eq!(loan.status, LoanStatus::Active);
    assert_eq!(loan.created_at, 1_000);
    assert_eq!(loan.due_date, 1_000 + 90 * 24 * 60 * 60);
    assert_eq!(AeroContract::get_loan_count(&w.env), Ok(1));
    // deposit, bond from the borrower, payout to the borrower
    let t = &w.env.transfers;
    assert_eq!(t.len(), 3);
    assert_eq!((t[1].from, t[1].to, t[1].amount), (borrower, w.env.current_contract, 12_345));
    assert_eq!((t[2].from, t[2].to, t[2].amount), (w.env.current_contract, borrower, 123_456));
    let stats = AeroContract::get_pool_stats(&w.env, Asset::USDC).unwrap();
    assert_eq!(stats.available_liquidity, 1_000_000 - 123_456);
    assert_eq!(stats.total_lent, 123_456);
    assert_eq!(stats.total_deposits, stats.available_liquidity + stats.total_lent);
}

#[test]
fn request_loan_errors() {
    let mut w = world();
    let borrower = addr(3);
    // nothing deposited yet
    let combined = build_combined_proof(0x01, 1_000, 8000, 500, 0x01, 0x01);
    assert_eq!(
        AeroContract::request_loan(&mut w.env, &borrower, Asset::USDC, &combined, &[0u8; 32]),
        Err(Error::InsufficientPoolLiquidity)
    );
    // the refused request did not consume the nullifier
    AeroContract::deposit(&mut w.env, &addr(2), Asset::USDC, 10_000).unwrap();
    assert_eq!(AeroContract::request_loan(&mut w.env, &borrower, Asset::USDC, &combined, &[0u8; 32]), Ok(1));
    // a bond of zero
    let tiny = build_combined_proof(0x01, 9, 8000, 500, 0x01, 0x02);
    assert_eq!(
        AeroContract::request_loan(&mut w.env, &borrower, Asset::USDC, &tiny, &[0u8; 32]),
        Err(Error::InvalidSkinInGame)
    );
    // too short to hold public inputs
    assert_eq!(
        AeroContract::request_loan(&mut w.env, &borrower, Asset::USDC, &[0u8; 100], &[0u8; 32]),
        Err(Error::ProofVerificationFailed)
    );
    // LTV out of range
    let bad = build_combined_proof(0x01, 1_000, 20_000, 500, 0x01, 0x03);
    assert_eq!(
        AeroContract::request_loan(&mut w.env, &borrower, Asset::USDC, &bad, &[0u8; 32]),
        Err(Error::ProofVerificationFailed)
    );
    assert_eq!(AeroContract::get_loan_count(&w.env), Ok(1));
}

#[test]
fn nullifier_used_by_the_contract_is_refused() {
    // A nullifier marked used by the contract but unknown to the verifier
    let mut w = world();
    AeroContract::deposit(&mut w.env, &addr(2), Asset::XLM, 10_000).unwrap();
    w.env.mark_nullifier_used([0x07; 32]);
    let combined = build_combined_proof(0x01, 1_000, 8000, 500, 0x01, 0x07);
    assert_eq!(
        AeroContract::request_loan(&mut w.env, &addr(3), Asset::XLM, &combined, &[0u8; 32]),
        Err(Error::NullifierAlreadyUsed)
    );
    assert!(w.env.verifier.verified_nullifiers.is_empty());
}

#[test]
fn usdc_without_token_address_is_refused() {
    let mut env = ContractState::new(contract_addr(200), 0);
    assert_eq!(pool::deposit(&mut env, &addr(2), Asset::USDC, 10), Err(Error::NotInitialized));
    assert_eq!(pool::deposit(&mut env, &addr(2), Asset::XLM, 10), Ok(10));
    assert_eq!(pool::get_usdc_address(&env), Err(Error::NotInitialized));
    pool::set_usdc_address(&mut env, &contract_addr(100));
    assert_eq!(pool::get_usdc_address(&env), Ok(contract_addr(100)));
}

#[test]
fn shares_are_minted_proportionally() {
    let mut w = world();
    assert_eq!(AeroContract::deposit(&mut w.env, &addr(2), Asset::XLM, 1_000), Ok(1_000));
    // the pool earns 500 in interest
    pool::deduct_from_pool(&mut w.env, Asset::XLM, 100).unwrap();
    pool::return_to_pool(&mut w.env, Asset::XLM, 600).unwrap();
    let stats = pool::get_pool_stats(&w.env, Asset::XLM);
    assert_eq!(stats.available_liquidity, 1_500);
    assert_eq!(stats.total_lent, -500);
    // deposits stay 1000: a second lender's 300 buys 300 * 1000 / 1000 shares
    assert_eq!(AeroContract::deposit(&mut w.env, &addr(3), Asset::XLM, 300), Ok(300));
    assert_eq!(
        AeroContract::get_pool_position(&w.env, &addr(3), Asset::XLM),
        Ok(PoolPosition { deposit_amount: 300, shares: 300 })
    );
    assert_eq!(
        AeroContract::get_pool_position(&w.env, &addr(4), Asset::XLM),
        Ok(PoolPosition { deposit_amount: 0, shares: 0 })
    );
    let stats = pool::get_pool_stats(&w.env, Asset::XLM);
    assert_eq!(stats.total_deposits, stats.available_liquidity + stats.total_lent);
}

#[test]
fn share_rounding_goes_toward_zero() {
    let mut env = ContractState::new(contract_addr(200), 0);
    env.xlm_pool = PoolStats { total_deposits: 3, total_shares: 2, total_lent: 0, available_liquidity: 3 };
    // 5 * 2 / 3 = 3.33
    assert_eq!(pool::deposit(&mut env, &addr(2), Asset::XLM, 5), Ok(3));
    // negative totals divide toward zero: 5 * 2 / -3 = -3.33
    env.xlm_pool = PoolStats { total_deposits: -3, total_shares: 2, total_lent: -3, available_liquidity: 0 };
    assert_eq!(pool::deposit(&mut env, &addr(2), Asset::XLM, 5), Ok(-3));
}

#[test]
fn withdraw_errors_and_deposit_amount_kept() {
    let mut w = world();
    let lender = addr(2);
    AeroContract::deposit(&mut w.env, &lender, Asset::XLM, 1_000).unwrap();
    assert_eq!(AeroContract::withdraw(&mut w.env, &lender, Asset::XLM, 0), Err(Error::InvalidAmount));
    assert_eq!(AeroContract::withdraw(&mut w.env, &lender, Asset::XLM, 1_001), Err(Error::InsufficientBalance));
    pool::deduct_from_pool(&mut w.env, Asset::XLM, 900).unwrap();
    assert_eq!(
        AeroContract::withdraw(&mut w.env, &lender, Asset::XLM, 500),
        Err(Error::InsufficientPoolLiquidity)
    );
    assert_eq!(AeroContract::withdraw(&mut w.env, &lender, Asset::XLM, 100), Ok(100));
    let pos = AeroContract::get_pool_position(&w.env, &lender, Asset::XLM).unwrap();
    assert_eq!(pos, PoolPosition { deposit_amount: 1_000, shares: 900 });
}

#[test]
fn deposit_then_withdraw_returns_the_amount() {
    let mut w = world();
    let lender = addr(2);
    let shares = AeroContract::deposit(&mut w.env, &lender, Asset::USDC, 77_777).unwrap();
    assert_eq!(shares, 77_777);
    assert_eq!(AeroContract::withdraw(&mut w.env, &lender, Asset::USDC, shares), Ok(77_777));
    assert_eq!(AeroContract::get_pool_stats(&w.env, Asset::USDC), Ok(PoolStats::empty()));
    assert_eq!(AeroContract::deposit(&mut w.env, &lender, Asset::USDC, 0), Err(Error::InvalidAmount));
}

#[test]
fn entry_points_need_init() {
    let mut env = ContractState::new(contract_addr(200), 0);
    let a = addr(2);
    assert_eq!(AeroContract::deposit(&mut env, &a, Asset::XLM, 10), Err(Error::NotInitialized));
    assert_eq!(AeroContract::withdraw(&mut env, &a, Asset::XLM, 10), Err(Error::NotInitialized));
    assert_eq!(AeroContract::get_pool_position(&env, &a, Asset::XLM), Err(Error::NotInitialized));
    assert_eq!(AeroContract::request_loan(&mut env, &a, Asset::XLM, &[], &[0; 32]), Err(Error::NotInitialized));
    assert_eq!(AeroContract::repay_loan(&mut env, &a, 1, 10), Err(Error::NotInitialized));
    assert_eq!(AeroContract::liquidate_loan(&mut env, &a, 1), Err(Error::NotInitialized));
    assert_eq!(AeroContract::get_loan(&env, 1), Err(Error::NotInitialized));
    assert_eq!(AeroContract::get_loan_count(&env), Err(Error::NotInitialized));
    assert_eq!(AeroContract::get_admin(&env), Err(Error::NotInitialized));
    assert_eq!(aero::contract::require_initialized(&env), Err(Error::NotInitialized));
}

fn funded_loan(amount: i128) -> (World, Address, u64) {
    let mut w = world();
    let borrower = addr(3);
    AeroContract::deposit(&mut w.env, &addr(2), Asset::USDC, 10_000_000_000).unwrap();
    let combined = build_combined_proof(0x01, amount, 8000, 1000, 0x01, 0x42);
    let id = AeroContract::request_loan(&mut w.env, &borrower, Asset::USDC, &combined, &[0u8; 32]).unwrap();
    (w, borrower, id)
}

#[test]
fn partial_repayments_lock_interest() {
    let (mut w, borrower, id) = funded_loan(1_000_000_000);
    // one year later: 10% interest on the whole principal
    w.env.set_timestamp(31_557_600);
    AeroContract::repay_loan(&mut w.env, &borrower, id, 400_000_000).unwrap();
    let loan = AeroContract::get_loan(&w.env, id).unwrap();
    assert_eq!(loan.accrued_interest, 100_000_000);
    assert_eq!(loan.amount_repaid, 400_000_000);
    assert_eq!(loan.status, LoanStatus::Active);
    // a year later still, the interest owed has not grown
    w.env.set_timestamp(2 * 31_557_600);
    assert_eq!(
        AeroContract::repay_loan(&mut w.env, &borrower, id, 700_000_001),
        Err(Error::InvalidAmount)
    );
    AeroContract::repay_loan(&mut w.env, &borrower, id, 700_000_000).unwrap();
    let loan = AeroContract::get_loan(&w.env, id).unwrap();
    assert_eq!(loan.status, LoanStatus::Repaid);
    assert_eq!(loan.amount_repaid, 1_000_000_000);
    assert_eq!(loan.interest_repaid, 100_000_000);
    // every payment went back to the pool
    let stats = AeroContract::get_pool_stats(&w.env, Asset::USDC).unwrap();
    assert_eq!(stats.available_liquidity, 10_100_000_000);
    assert_eq!(stats.total_deposits, stats.available_liquidity + stats.total_lent);
    // the bond goes back to the borrower
    let last = *w.env.transfers.last().unwrap();
    assert_eq!((last.from, last.to, last.amount), (w.env.current_contract, borrower, 100_000_000));
    // a repaid loan is final
    assert_eq!(AeroContract::repay_loan(&mut w.env, &borrower, id, 1), Err(Error::LoanNotActive));
    assert_eq!(AeroContract::liquidate_loan(&mut w.env, &borrower, id), Err(Error::LoanNotActive));
}

#[test]
fn repay_errors() {
    let (mut w, borrower, id) = funded_loan(1_000_000);
    assert_eq!(AeroContract::repay_loan(&mut w.env, &borrower, 7, 10), Err(Error::LoanNotFound));
    assert_eq!(AeroContract::repay_loan(&mut w.env, &borrower, id, 0), Err(Error::InvalidAmount));
    // at creation time no interest is owed
    assert_eq!(AeroContract::repay_loan(&mut w.env, &borrower, id, 1_000_001), Err(Error::InvalidAmount));
    assert_eq!(AeroContract::repay_loan(&mut w.env, &borrower, id, 1_000_000), Ok(()));
}

/// A pool of 100_000 USDC with one loan of 1000 at 100% a year, issued at time 0.
fn small_loan() -> (World, Address, u64) {
    let mut w = world();
    let borrower = addr(3);
    AeroContract::deposit(&mut w.env, &addr(2), Asset::USDC, 100_000).unwrap();
    let combined = build_combined_proof(0x05, 1_000, 8000, 10_000, 0x05, 0x55);
    let id = AeroContract::request_loan(&mut w.env, &borrower, Asset::USDC, &combined, &[0u8; 32]).unwrap();
    assert_eq!(AeroContract::get_pool_stats(&w.env, Asset::USDC).unwrap().available_liquidity, 99_000);
    (w, borrower, id)
}

#[test]
fn closing_payment_returns_only_what_it_brings() {
    let (mut w, borrower, id) = small_loan();
    // a tenth of a year: 100 of interest
    w.env.set_timestamp(3_155_760);
    assert_eq!(AeroContract::repay_loan(&mut w.env, &borrower, id, 600), Ok(()));
    assert_eq!(AeroContract::get_pool_stats(&w.env, Asset::USDC).unwrap().available_liquidity, 99_600);
    w.env.set_timestamp(6_311_520);
    assert_eq!(AeroContract::repay_loan(&mut w.env, &borrower, id, 501), Err(Error::InvalidAmount));
    assert_eq!(AeroContract::repay_loan(&mut w.env, &borrower, id, 500), Ok(()));
    let stats = AeroContract::get_pool_stats(&w.env, Asset::USDC).unwrap();
    assert_eq!(stats.available_liquidity, 100_100);
    assert_eq!(stats.total_lent, -100);
    assert_eq!(stats.total_deposits, 100_000);
    let loan = AeroContract::get_loan(&w.env, id).unwrap();
    assert_eq!(loan.status, LoanStatus::Repaid);
    assert_eq!((loan.amount_repaid, loan.interest_repaid, loan.accrued_interest), (1_000, 100, 100));
    let last = *w.env.transfers.last().unwrap();
    assert_eq!((last.from, last.to, last.amount), (w.env.current_contract, borrower, 100));
}

#[test]
fn principal_alone_does_not_close_the_loan() {
    let (mut w, borrower, id) = small_loan();
    w.env.set_timestamp(3_155_760);
    assert_eq!(AeroContract::repay_loan(&mut w.env, &borrower, id, 1_000), Ok(()));
    let loan = AeroContract::get_loan(&w.env, id).unwrap();
    assert_eq!(loan.amount_repaid, 1_000);
    assert_eq!(loan.accrued_interest, 100);
    assert_eq!(loan.interest_repaid, 0);
    assert_eq!(loan.status, LoanStatus::Active);
    // the bond is still held: the last transfer collected the payment
    let last = *w.env.transfers.last().unwrap();
    assert_eq!((last.from, last.to, last.amount), (borrower, w.env.current_contract, 1_000));
    // the interest is still owed, and paying it closes the loan
    assert_eq!(AeroContract::repay_loan(&mut w.env, &borrower, id, 101), Err(Error::InvalidAmount));
    assert_eq!(AeroContract::repay_loan(&mut w.env, &borrower, id, 100), Ok(()));
    let loan = AeroContract::get_loan(&w.env, id).unwrap();
    assert_eq!(loan.status, LoanStatus::Repaid);
    let last = *w.env.transfers.last().unwrap();
    assert_eq!((last.from, last.to, last.amount), (w.env.current_contract, borrower, 100));
    assert_eq!(AeroContract::get_pool_stats(&w.env, Asset::USDC).unwrap().available_liquidity, 100_100);
}

#[test]
fn pool_stats_agree_with_positions() {
    let mut w = world();
    let (l1, l2, borrower) = (addr(2), addr(4), addr(3));
    AeroContract::deposit(&mut w.env, &l1, Asset::USDC, 3_000).unwrap();
    AeroContract::deposit(&mut w.env, &l2, Asset::USDC, 1_000).unwrap();
    let combined = build_combined_proof(0x06, 2_000, 8000, 1000, 0x06, 0x66);
    AeroContract::request_loan(&mut w.env, &borrower, Asset::USDC, &combined, &[0u8; 32]).unwrap();
    assert_eq!(AeroContract::withdraw(&mut w.env, &l2, Asset::USDC, 400), Ok(400));
    let stats = AeroContract::get_pool_stats(&w.env, Asset::USDC).unwrap();
    let p1 = AeroContract::get_pool_position(&w.env, &l1, Asset::USDC).unwrap();
    let p2 = AeroContract::get_pool_position(&w.env, &l2, Asset::USDC).unwrap();
    assert_eq!(stats.total_shares, p1.shares + p2.shares);
    assert_eq!(stats.available_liquidity, stats.total_deposits - stats.total_lent);
    assert_eq!(stats.available_liquidity, 1_600);
    // more than what is available is refused, never paid out
    assert_eq!(AeroContract::withdraw(&mut w.env, &l1, Asset::USDC, 3_000), Err(Error::InsufficientPoolLiquidity));
    let xlm = AeroContract::get_pool_stats(&w.env, Asset::XLM).unwrap();
    assert_eq!(xlm, PoolStats { total_deposits: 0, total_shares: 0, total_lent: 0, available_liquidity: 0 });
}

#[test]
fn burning_every_share_empties_the_pool() {
    let mut w = world();
    let (l1, l2) = (addr(2), addr(4));
    AeroContract::deposit(&mut w.env, &l1, Asset::XLM, 700).unwrap();
    AeroContract::deposit(&mut w.env, &l2, Asset::XLM, 300).unwrap();
    assert_eq!(AeroContract::withdraw(&mut w.env, &l1, Asset::XLM, 700), Ok(700));
    assert_eq!(AeroContract::withdraw(&mut w.env, &l2, Asset::XLM, 300), Ok(300));
    let stats = AeroContract::get_pool_stats(&w.env, Asset::XLM).unwrap();
    assert_eq!((stats.total_deposits, stats.total_shares), (0, 0));
}

#[test]
fn liquidation_waits_for_due_date() {
    let (mut w, borrower, id) = funded_loan(1_000_000);
    let before = AeroContract::get_pool_stats(&w.env, Asset::USDC).unwrap();
    w.env.set_timestamp(90 * 24 * 60 * 60 - 1);
    assert_eq!(AeroContract::liquidate_loan(&mut w.env, &borrower, id), Err(Error::LoanNotDue));
    w.env.set_timestamp(90 * 24 * 60 * 60);
    assert_eq!(AeroContract::liquidate_loan(&mut w.env, &borrower, id), Ok(()));
    let after = AeroContract::get_pool_stats(&w.env, Asset::USDC).unwrap();
    assert_eq!(after.available_liquidity, before.available_liquidity + 100_000);
    assert_eq!(after.total_lent, before.total_lent - 100_000);
    assert_eq!(AeroContract::liquidate_loan(&mut w.env, &borrower, 99), Err(Error::LoanNotFound));
}

#[test]
fn interest_formula() {
    assert_eq!(loan::calculate_interest(8_000_000_000, 500, 0, 7_776_000), 98_562_628);
    assert_eq!(loan::calculate_interest(8_000_000_000, 500, 0, 1_726_776_000), 21_887_291_809);
    assert_eq!(loan::calculate_interest(1_000, 500, 10, 10), 0);
    assert_eq!(loan::calculate_interest(1_000, 500, 10, 5), 0);
    assert_eq!(loan::calculate_interest(0, 500, 0, 100), 0);
    assert_eq!(loan::calculate_interest(-5, 500, 0, 100), 0);
}

#[test]
fn loan_counter_and_ids() {
    let (mut w, borrower, id) = funded_loan(1_000);
    assert_eq!(id, 1);
    let second = build_combined_proof(0x02, 2_000, 8000, 1000, 0x02, 0x43);
    assert_eq!(AeroContract::request_loan(&mut w.env, &borrower, Asset::USDC, &second, &[0u8; 32]), Ok(2));
    assert_eq!(loan::get_loan_count(&w.env), 2);
    assert_eq!(loan::increment_loan_counter(&mut w.env), 3);
}

#[test]
fn native_xlm_address() {
    let a = aero::types::get_native_xlm_address();
    assert_eq!(&a.strkey[..], aero::types::NATIVE_XLM_ADDRESS.as_bytes());
}

#[test]
fn mock_token_metadata_and_transfers() {
    let admin = addr(1);
    let (a, b) = (addr(2), addr(3));
    let mut token = deploy_mock_usdc(&admin);
    assert_eq!(MockUsdc::name(), "USDC");
    assert_eq!(MockUsdc::symbol(), "USDC");
    assert_eq!(MockUsdc::decimals(), 7);
    assert_eq!(MockUsdc::total_supply(&TokenState::new()), 0);
    MockUsdc::mint(&mut token, &admin, &a, 100);
    MockUsdc::transfer(&mut token, &a, &b, 40);
    assert_eq!(MockUsdc::balance(&token, &a), 60);
    assert_eq!(MockUsdc::balance(&token, &b), 40);
    assert_eq!(MockUsdc::total_supply(&token), 100);
    // a transfer to oneself moves nothing
    MockUsdc::transfer(&mut token, &a, &a, 10);
    assert_eq!(MockUsdc::balance(&token, &a), 60);
    assert_eq!(MockUsdc::total_supply(&token), 100);
    MockUsdc::transfer(&mut token, &a, &a, 60);
    assert_eq!(MockUsdc::balance(&token, &a), 60);
    assert_eq!(MockUsdc::balance(&token, &a) + MockUsdc::balance(&token, &b), MockUsdc::total_supply(&token));
}

#[test]
fn old_proof_check_placeholders() {
    assert!(aero::proof_check::verify_proof(&[1, 2, 3]));
    let n = aero::proof_check::extract_nullifier(&[7, 8, 9]);
    let mut expected = [0u8; 32];
    expected[0] = 7;
    expected[1] = 8;
    expected[2] = 9;
    assert_eq!(n, expected);
    let long: Vec<u8> = (0..40u8).collect();
    let n = aero::proof_check::extract_nullifier(&long);
    assert_eq!(&n[..], &long[..32]);
}
