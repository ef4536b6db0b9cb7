use anchor_lang::prelude::Pubkey;
use pay_chain::ccip_receive;
use pay_chain::authorize_relay;
use pay_chain::payload::encode;
use pay_chain::pda::allow_list_address;
use pay_chain::pda::relay_signer_address;
use pay_chain::pda::to_le_bytes;
use pay_chain::pda::ALLOWED_OFFRAMP_SEED;
use pay_chain::pda::EXTERNAL_EXECUTION_CONFIG_SEED;
use pay_chain::Address;
use pay_chain::Any2SVMMessage;
use pay_chain::CcipReceive;
use pay_chain::Config;
use pay_chain::EngineError;
use pay_chain::PayChainError;
use pay_chain::SVMTokenAmount;
use pay_chain::SettlementPayload;
use pay_chain::Signer;
use pay_chain::TokenAccount;
use pay_chain::TransferError;
use pay_chain::Vault;

const SELECTOR: u64 = 16_015_286_601_757_825_753;

fn address(byte: u8) -> Address {
    Address::new([byte; 32])
}

fn program_id() -> Address {
    address(100)
}

fn offramp() -> Address {
    address(101)
}

fn router() -> Address {
    address(102)
}

fn relay_signer() -> Address {
    let (key, _) = Pubkey::find_program_address(
        &[b"external_execution_config", &program_id().to_bytes()],
        &Pubkey::new_from_array(offramp().to_bytes()),
    );
    Address::new(key.to_bytes())
}

fn allow_list_entry(selector: u64) -> Address {
    let (key, _) = Pubkey::find_program_address(
        &[b"allowed_offramp", &selector.to_le_bytes(), &offramp().to_bytes()],
        &Pubkey::new_from_array(router().to_bytes()),
    );
    Address::new(key.to_bytes())
}

fn ctx(vault_funds: u64) -> CcipReceive {
    CcipReceive {
        program_id: program_id(),
        authority: Signer { key: relay_signer() },
        offramp_program: offramp(),
        allowed_offramp: allow_list_entry(SELECTOR),
        config: Config {
            authority: address(1),
            fee_recipient: address(2),
            router: router(),
            fixed_base_fee: 500_000,
            fee_rate_bps: 30,
            chain_id: "solana:devnet".to_string(),
            bump: 254,
        },
        vault_token_account: Vault::open(vault_funds),
        receiver_token_account: TokenAccount { amount: 5 },
    }
}

fn message(data: Vec<u8>) -> Any2SVMMessage {
    Any2SVMMessage {
        message_id: [1; 32],
        source_chain_selector: SELECTOR,
        sender: [2; 32],
        data,
        dest_token_amounts: vec![SVMTokenAmount { token: address(22), amount: 3 }],
    }
}

fn payload(amount: u64) -> Vec<u8> {
    encode(&SettlementPayload { payment_id: [7; 32], amount, receiver: [9; 32] })
}

fn unchanged(ctx: &CcipReceive, vault_funds: u64) -> bool {
    ctx.vault_token_account.balance() == vault_funds && ctx.receiver_token_account.amount == 5
}

#[test]
fn seeds_spell_their_tags() {
    assert_eq!(&EXTERNAL_EXECUTION_CONFIG_SEED[..], b"external_execution_config");
    assert_eq!(&ALLOWED_OFFRAMP_SEED[..], b"allowed_offramp");
}

#[test]
fn little_endian_bytes_match_std() {
    for value in [0u64, 1, 255, 256, SELECTOR, 0x0102_0304_0506_0708, u64::MAX] {
        assert_eq!(to_le_bytes(value), value.to_le_bytes().to_vec());
    }
}

#[test]
fn relay_signer_address_is_the_derived_address() {
    let (key, bump) = Pubkey::find_program_address(
        &[b"external_execution_config", &program_id().to_bytes()],
        &Pubkey::new_from_array(offramp().to_bytes()),
    );
    let found = relay_signer_address(&program_id(), &offramp()).unwrap();
    assert_eq!(found.0.to_bytes(), key.to_bytes());
    assert_eq!(found.1, bump);
    // A derived address is neither of its inputs.
    assert_ne!(found.0, program_id());
    assert_ne!(found.0, offramp());
    // Another relay program signs by another address.
    let other = relay_signer_address(&program_id(), &address(103)).unwrap();
    assert_ne!(other.0, found.0);
}

#[test]
fn allow_list_address_is_the_derived_address() {
    let (key, bump) = Pubkey::find_program_address(
        &[b"allowed_offramp", &SELECTOR.to_le_bytes(), &offramp().to_bytes()],
        &Pubkey::new_from_array(router().to_bytes()),
    );
    let found = allow_list_address(SELECTOR, &offramp(), &router()).unwrap();
    assert_eq!(found.0.to_bytes(), key.to_bytes());
    assert_eq!(found.1, bump);
    assert_ne!(found.0, router());
    assert_ne!(allow_list_address(SELECTOR + 1, &offramp(), &router()).unwrap().0, found.0);
    assert_ne!(allow_list_address(SELECTOR, &offramp(), &address(104)).unwrap().0, found.0);
}

#[test]
fn derived_addresses_verify_with_their_bump() {
    let found = allow_list_address(SELECTOR, &offramp(), &router()).unwrap();
    let again = Pubkey::create_program_address(
        &[b"allowed_offramp", &SELECTOR.to_le_bytes(), &offramp().to_bytes(), &[found.1]],
        &Pubkey::new_from_array(router().to_bytes()),
    )
    .unwrap();
    assert_eq!(again.to_bytes(), found.0.to_bytes());
}

#[test]
fn relay_check_wants_both_addresses_to_match() {
    let caller = Signer { key: address(1) };
    let entry = address(2);
    let one = Some((address(1), 255));
    let two = Some((address(2), 254));
    let three = Some((address(3), 253));
    assert_eq!(authorize_relay(&caller, &entry, one, two), Ok(()));
    let low = (Some((address(1), 0)), Some((address(2), 0)));
    assert_eq!(authorize_relay(&caller, &entry, low.0, low.1), Ok(()));
    let refused = Err(PayChainError::Unauthorized);
    assert_eq!(authorize_relay(&caller, &entry, three, two), refused);
    assert_eq!(authorize_relay(&caller, &entry, one, three), refused);
    assert_eq!(authorize_relay(&caller, &entry, two, one), refused);
    assert_eq!(authorize_relay(&caller, &entry, None, two), refused);
    assert_eq!(authorize_relay(&caller, &entry, one, None), refused);
    assert_eq!(authorize_relay(&caller, &entry, None, None), refused);
}

#[test]
fn trusted_relay_settles_the_payment() {
    let mut ctx = ctx(10_000);
    let done = ccip_receive(&mut ctx, message(payload(4_000))).unwrap();
    assert_eq!(done.transferred, 4_000);
    assert_eq!(done.event.payment_id, [7; 32]);
    assert_eq!(done.event.tx_hash, "");
    assert_eq!(ctx.vault_token_account.balance(), 6_000);
    assert_eq!(ctx.receiver_token_account.amount, 4_005);
    assert_eq!(ctx.config.router, router());
    assert_eq!(ctx.allowed_offramp, allow_list_entry(SELECTOR));
}

#[test]
fn same_message_delivered_twice_is_paid_twice() {
    let mut ctx = ctx(10_000);
    assert!(ccip_receive(&mut ctx, message(payload(4_000))).is_ok());
    assert!(ccip_receive(&mut ctx, message(payload(4_000))).is_ok());
    assert_eq!(ctx.vault_token_account.balance(), 2_000);
    assert_eq!(ctx.receiver_token_account.amount, 8_005);
}

#[test]
fn short_payload_is_invalid_and_moves_nothing() {
    for length in [0usize, 1, 32, 64, 95] {
        let mut ctx = ctx(10_000);
        let refusal = ccip_receive(&mut ctx, message(vec![0xff; length])).unwrap_err();
        assert_eq!(refusal, EngineError::Rejected(PayChainError::InvalidMessageData));
        assert!(unchanged(&ctx, 10_000));
    }
}

#[test]
fn payload_of_96_bytes_or_more_is_read() {
    let mut ctx = ctx(10_000);
    let mut data = payload(1);
    data.extend_from_slice(&[0xff; 10]);
    assert!(ccip_receive(&mut ctx, message(data)).is_ok());
    assert_eq!(ctx.vault_token_account.balance(), 9_999);
}

#[test]
fn high_bytes_of_the_amount_word_are_not_read() {
    let mut ctx = ctx(10_000);
    let mut data = payload(4_000);
    for i in 32..56 {
        data[i] = 0xff;
    }
    let done = ccip_receive(&mut ctx, message(data)).unwrap();
    assert_eq!(done.transferred, 4_000);
    assert_eq!(ctx.vault_token_account.balance(), 6_000);
}

#[test]
fn entry_absent_from_the_allow_list_is_unauthorized() {
    // The entry presented is the one for another source chain.
    let mut ctx = ctx(10_000);
    ctx.allowed_offramp = allow_list_entry(SELECTOR + 1);
    let refusal = ccip_receive(&mut ctx, message(payload(4_000))).unwrap_err();
    assert_eq!(refusal, EngineError::Rejected(PayChainError::Unauthorized));
    assert!(unchanged(&ctx, 10_000));
}

#[test]
fn message_from_another_chain_is_unauthorized() {
    let mut ctx = ctx(10_000);
    let mut message = message(payload(4_000));
    message.source_chain_selector = SELECTOR + 1;
    let refusal = ccip_receive(&mut ctx, message).unwrap_err();
    assert_eq!(refusal, EngineError::Rejected(PayChainError::Unauthorized));
    assert!(unchanged(&ctx, 10_000));
}

#[test]
fn entry_of_another_router_is_unauthorized() {
    let mut ctx = ctx(10_000);
    ctx.config.router = address(104);
    let refusal = ccip_receive(&mut ctx, message(payload(4_000))).unwrap_err();
    assert_eq!(refusal, EngineError::Rejected(PayChainError::Unauthorized));
    assert!(unchanged(&ctx, 10_000));
}

#[test]
fn caller_that_is_not_the_relay_signer_is_unauthorized() {
    for caller in [address(1), offramp(), program_id(), router(), allow_list_entry(SELECTOR)] {
        let mut ctx = ctx(10_000);
        ctx.authority = Signer { key: caller };
        let refusal = ccip_receive(&mut ctx, message(payload(4_000))).unwrap_err();
        assert_eq!(refusal, EngineError::Rejected(PayChainError::Unauthorized));
        assert!(unchanged(&ctx, 10_000));
    }
}

#[test]
fn relay_that_signs_for_another_program_is_unauthorized() {
    let mut ctx = ctx(10_000);
    ctx.program_id = address(105);
    let refusal = ccip_receive(&mut ctx, message(payload(4_000))).unwrap_err();
    assert_eq!(refusal, EngineError::Rejected(PayChainError::Unauthorized));
    assert!(unchanged(&ctx, 10_000));
}

#[test]
fn another_relay_program_is_unauthorized() {
    let mut ctx = ctx(10_000);
    ctx.offramp_program = address(103);
    let refusal = ccip_receive(&mut ctx, message(payload(4_000))).unwrap_err();
    assert_eq!(refusal, EngineError::Rejected(PayChainError::Unauthorized));
    assert!(unchanged(&ctx, 10_000));
}

#[test]
fn unauthorized_comes_before_the_payload() {
    let mut ctx = ctx(10_000);
    ctx.allowed_offramp = address(7);
    for data in [Vec::new(), vec![0u8; 95], payload(4_000), payload(u64::MAX)] {
        let refusal = ccip_receive(&mut ctx, message(data)).unwrap_err();
        assert_eq!(refusal, EngineError::Rejected(PayChainError::Unauthorized));
        assert!(unchanged(&ctx, 10_000));
    }
}

#[test]
fn settlement_beyond_the_vault_moves_nothing() {
    let mut ctx = ctx(3_999);
    let failure = ccip_receive(&mut ctx, message(payload(4_000))).unwrap_err();
    assert_eq!(failure, EngineError::Transfer(TransferError::InsufficientFunds));
    assert!(unchanged(&ctx, 3_999));
}

#[test]
fn settlement_that_would_overflow_the_receiver_moves_nothing() {
    let mut ctx = ctx(10_000);
    ctx.receiver_token_account.amount = u64::MAX - 3_999;
    let failure = ccip_receive(&mut ctx, message(payload(4_000))).unwrap_err();
    assert_eq!(failure, EngineError::Transfer(TransferError::Overflow));
    assert_eq!(ctx.vault_token_account.balance(), 10_000);
    assert_eq!(ctx.receiver_token_account.amount, u64::MAX - 3_999);
}

#[test]
fn settlement_of_the_whole_vault_empties_it() {
    let mut ctx = ctx(10_000);
    assert!(ccip_receive(&mut ctx, message(payload(10_000))).is_ok());
    assert_eq!(ctx.vault_token_account.balance(), 0);
    assert_eq!(ctx.receiver_token_account.amount, 10_005);
}
