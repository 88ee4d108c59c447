use maxi_farm::pool::ed25519::{check_ed25519_data, is_ed25519_ix};
use maxi_farm::pool::gate::{check_access, is_private_sale};
use maxi_farm::{
    merge_values, verify_ed25519_ix, Instruction, MainState, MaxiFarmError, PoolState, Pubkey,
};

const GATE_PROGRAM: [u8; 32] = [
    3, 125, 70, 214, 124, 147, 251, 190, 18, 249, 66, 143, 131, 141, 64, 255, 5, 112, 116, 73, 39,
    244, 138, 100, 252, 202, 112, 68, 128, 0, 0, 0,
];

fn gate_signer() -> [u8; 32] {
    [7; 32]
}

fn gate_mint() -> [u8; 32] {
    [8; 32]
}

fn gate_sig() -> Vec<u8> {
    (0..64u8).collect()
}

fn gate_data(pubkey: &[u8], msg: &[u8], sig: &[u8]) -> Vec<u8> {
    let size = msg.len() as u16;
    let mut data = vec![1, 0, 48, 0, 0xff, 0xff, 16, 0, 0xff, 0xff, 112, 0];
    data.extend_from_slice(&size.to_le_bytes());
    data.extend_from_slice(&[0xff, 0xff]);
    data.extend_from_slice(pubkey);
    data.extend_from_slice(sig);
    data.extend_from_slice(msg);
    data
}

fn gate_ix(data: Vec<u8>) -> Instruction {
    Instruction { program_id: Pubkey::new_from_array(GATE_PROGRAM), num_accounts: 0, data }
}

fn gate_other_ix() -> Instruction {
    Instruction { program_id: Pubkey::new_from_array([5; 32]), num_accounts: 3, data: vec![1, 2] }
}

fn gate_pool(created_time: u64, priv_sale_period: u64) -> PoolState {
    PoolState {
        owner: Pubkey::new_from_array([1; 32]),
        tax: 0,
        max_fee_tokens: 0,
        base_mint: Pubkey::new_from_array(gate_mint()),
        virt_base_reserves: 66_666,
        real_base_reserves: 1_000_000,
        virt_quote_reserves: 27_333_333_333,
        real_quote_reserves: 0,
        real_quote_threshold: 82_000_000_000,
        created_time,
        priv_sale_period,
        complete: false,
    }
}

fn gate_config() -> MainState {
    let owner = Pubkey::new_from_array([9; 32]);
    MainState {
        owner,
        signer: Pubkey::new_from_array(gate_signer()),
        withdrawer: owner,
        trading_fee: 50,
        fee_recipient: owner,
        tier1_reward: 2_500,
        tier2_reward: 350,
        tier3_reward: 300,
    }
}

#[test]
fn signature_program_is_the_one_the_ledger_names() {
    assert_eq!(solana_program::ed25519_program::id().to_bytes(), GATE_PROGRAM);
    assert!(is_ed25519_ix(&gate_ix(vec![])));
    assert!(!is_ed25519_ix(&gate_other_ix()));
    let mut almost = GATE_PROGRAM;
    almost[31] = 1;
    assert!(!is_ed25519_ix(&Instruction {
        program_id: Pubkey::new_from_array(almost),
        num_accounts: 0,
        data: vec![]
    }));
}

#[test]
fn well_formed_signature_instruction_is_accepted() {
    let data = gate_data(&gate_signer(), &gate_mint(), &gate_sig());
    assert_eq!(data.len(), 16 + 32 + 64 + 32);
    assert_eq!(check_ed25519_data(&data, &gate_signer(), &gate_mint(), &gate_sig()), Ok(()));
    assert_eq!(
        verify_ed25519_ix(&gate_ix(data), &gate_signer(), &gate_mint(), &gate_sig()),
        Ok(())
    );
}

#[test]
fn long_message_has_its_length_in_two_bytes() {
    let msg: Vec<u8> = (0..300u32).map(|i| (i % 251) as u8).collect();
    let data = gate_data(&gate_signer(), &msg, &gate_sig());
    assert_eq!(data[12], 44);
    assert_eq!(data[13], 1);
    assert_eq!(verify_ed25519_ix(&gate_ix(data), &gate_signer(), &msg, &gate_sig()), Ok(()));
}

#[test]
fn instruction_of_another_shape_is_a_wrong_message_format() {
    let data = gate_data(&gate_signer(), &gate_mint(), &gate_sig());
    let mut other_program = gate_ix(data.clone());
    other_program.program_id = Pubkey::new_from_array([5; 32]);
    assert_eq!(
        verify_ed25519_ix(&other_program, &gate_signer(), &gate_mint(), &gate_sig()),
        Err(MaxiFarmError::InvalidMessageFormat)
    );
    let mut with_accounts = gate_ix(data.clone());
    with_accounts.num_accounts = 1;
    assert_eq!(
        verify_ed25519_ix(&with_accounts, &gate_signer(), &gate_mint(), &gate_sig()),
        Err(MaxiFarmError::InvalidMessageFormat)
    );
    let mut longer = data.clone();
    longer.push(0);
    assert_eq!(
        verify_ed25519_ix(&gate_ix(longer), &gate_signer(), &gate_mint(), &gate_sig()),
        Err(MaxiFarmError::InvalidMessageFormat)
    );
    assert_eq!(
        verify_ed25519_ix(&gate_ix(vec![1, 0]), &gate_signer(), &gate_mint(), &gate_sig()),
        Err(MaxiFarmError::InvalidMessageFormat)
    );
}

#[test]
fn data_without_a_message_is_too_short() {
    let data = gate_data(&gate_signer(), &[], &gate_sig());
    assert_eq!(data.len(), 112);
    assert_eq!(
        check_ed25519_data(&data, &gate_signer(), &[], &gate_sig()),
        Err(MaxiFarmError::TooShortDataLen)
    );
    assert_eq!(
        verify_ed25519_ix(&gate_ix(data), &gate_signer(), &[], &gate_sig()),
        Err(MaxiFarmError::TooShortDataLen)
    );
    assert_eq!(
        check_ed25519_data(&[], &gate_signer(), &gate_mint(), &gate_sig()),
        Err(MaxiFarmError::TooShortDataLen)
    );
}

#[test]
fn key_or_signature_of_a_wrong_length_is_refused() {
    let data = gate_data(&gate_signer(), &gate_mint(), &gate_sig());
    assert_eq!(
        check_ed25519_data(&data, &[7; 31], &gate_mint(), &gate_sig()),
        Err(MaxiFarmError::InvalidPubkeyLen)
    );
    assert_eq!(
        check_ed25519_data(&data, &[7; 31], &gate_mint(), &[0; 63]),
        Err(MaxiFarmError::InvalidPubkeyLen)
    );
    assert_eq!(
        check_ed25519_data(&data, &gate_signer(), &gate_mint(), &[0; 63]),
        Err(MaxiFarmError::InvalidSigLen)
    );
    assert_eq!(
        check_ed25519_data(&data, &gate_signer(), &gate_mint(), &[0; 65]),
        Err(MaxiFarmError::InvalidSigLen)
    );
}

#[test]
fn other_key_message_or_signature_is_a_wrong_parameter() {
    let data = gate_data(&gate_signer(), &gate_mint(), &gate_sig());
    assert_eq!(
        check_ed25519_data(&data, &[6; 32], &gate_mint(), &gate_sig()),
        Err(MaxiFarmError::WrongSignatureParams)
    );
    assert_eq!(
        check_ed25519_data(&data, &gate_signer(), &[6; 32], &gate_sig()),
        Err(MaxiFarmError::WrongSignatureParams)
    );
    assert_eq!(
        check_ed25519_data(&data, &gate_signer(), &gate_mint()[..31], &gate_sig()),
        Err(MaxiFarmError::WrongSignatureParams)
    );
    assert_eq!(
        check_ed25519_data(&data, &gate_signer(), &gate_mint(), &[1; 64]),
        Err(MaxiFarmError::WrongSignatureParams)
    );
    let mut last_byte = gate_mint();
    last_byte[31] = 0;
    assert_eq!(
        check_ed25519_data(&data, &gate_signer(), &last_byte, &gate_sig()),
        Err(MaxiFarmError::WrongSignatureParams)
    );
}

#[test]
fn wrong_header_fails_the_verification() {
    let good = gate_data(&gate_signer(), &gate_mint(), &gate_sig());
    for place in 0..16 {
        let mut data = good.clone();
        data[place] ^= 0x10;
        assert_eq!(
            check_ed25519_data(&data, &gate_signer(), &gate_mint(), &gate_sig()),
            Err(MaxiFarmError::SigVerificationFailed)
        );
    }
}

#[test]
fn message_too_long_for_its_length_field_is_refused() {
    let msg = vec![3u8; 65_536];
    let mut data = vec![1, 0, 48, 0, 0xff, 0xff, 16, 0, 0xff, 0xff, 112, 0, 0, 0, 0xff, 0xff];
    data.extend_from_slice(&gate_signer());
    data.extend_from_slice(&gate_sig());
    data.extend_from_slice(&msg);
    assert_eq!(
        check_ed25519_data(&data, &gate_signer(), &msg, &gate_sig()),
        Err(MaxiFarmError::ArithmeticError)
    );
    let longest = vec![3u8; 65_535];
    let data = gate_data(&gate_signer(), &longest, &gate_sig());
    assert_eq!(check_ed25519_data(&data, &gate_signer(), &longest, &gate_sig()), Ok(()));
}

#[test]
fn merged_values_follow_each_other() {
    assert_eq!(merge_values(&[1, 2, 3], &[4, 5]), vec![1, 2, 3, 4, 5]);
    assert_eq!(merge_values(&[], &[4, 5]), vec![4, 5]);
    assert_eq!(merge_values(&[1], &[]), vec![1]);
    assert_eq!(merge_values(&[], &[]), Vec::<u8>::new());
}

#[test]
fn private_sale_lasts_from_creation_until_the_period_has_passed() {
    let pool = gate_pool(1_000, 600);
    assert!(!is_private_sale(&pool, 999));
    assert!(is_private_sale(&pool, 1_000));
    assert!(is_private_sale(&pool, 1_599));
    assert!(!is_private_sale(&pool, 1_600));
    assert!(!is_private_sale(&pool, -1));
    assert!(!is_private_sale(&gate_pool(1_000, 0), 1_000));
    assert!(is_private_sale(&gate_pool(u64::MAX - 1, 86_400), i64::MAX) == false);
}

#[test]
fn trade_outside_the_private_sale_needs_no_signature() {
    let pool = gate_pool(1_000, 600);
    assert_eq!(check_access(&pool, &gate_config(), &vec![], &None, 1_600), Ok(()));
    assert_eq!(check_access(&pool, &gate_config(), &vec![], &Some(vec![1]), 5_000), Ok(()));
    assert_eq!(check_access(&gate_pool(1_000, 0), &gate_config(), &vec![], &None, 1_000), Ok(()));
}

#[test]
fn trade_inside_the_private_sale_without_signature_is_refused() {
    let pool = gate_pool(1_000, 600);
    let ixs = vec![gate_ix(gate_data(&gate_signer(), &gate_mint(), &gate_sig()))];
    assert_eq!(
        check_access(&pool, &gate_config(), &ixs, &None, 1_200),
        Err(MaxiFarmError::MissingSignature)
    );
    assert_eq!(
        check_access(&pool, &gate_config(), &vec![], &Some(gate_sig()), 1_200),
        Err(MaxiFarmError::MissingSignature)
    );
    assert_eq!(
        check_access(&pool, &gate_config(), &vec![gate_other_ix()], &Some(gate_sig()), 1_200),
        Err(MaxiFarmError::MissingSignature)
    );
}

#[test]
fn trade_inside_the_private_sale_with_attested_signature_goes_on() {
    let pool = gate_pool(1_000, 600);
    let attest = gate_ix(gate_data(&gate_signer(), &gate_mint(), &gate_sig()));
    assert_eq!(
        check_access(&pool, &gate_config(), &vec![attest.clone()], &Some(gate_sig()), 1_200),
        Ok(())
    );
    assert_eq!(
        check_access(
            &pool,
            &gate_config(),
            &vec![gate_other_ix(), attest.clone()],
            &Some(gate_sig()),
            1_200
        ),
        Ok(())
    );
    assert_eq!(
        check_access(
            &pool,
            &gate_config(),
            &vec![attest.clone(), gate_other_ix()],
            &Some(gate_sig()),
            1_200
        ),
        Ok(())
    );
}

#[test]
fn trade_inside_the_private_sale_with_another_signer_or_token_is_refused() {
    let pool = gate_pool(1_000, 600);
    let other_signer = gate_ix(gate_data(&[6; 32], &gate_mint(), &gate_sig()));
    assert_eq!(
        check_access(&pool, &gate_config(), &vec![other_signer], &Some(gate_sig()), 1_200),
        Err(MaxiFarmError::WrongSignatureParams)
    );
    let other_token = gate_ix(gate_data(&gate_signer(), &[6; 32], &gate_sig()));
    assert_eq!(
        check_access(&pool, &gate_config(), &vec![other_token], &Some(gate_sig()), 1_200),
        Err(MaxiFarmError::WrongSignatureParams)
    );
    let attest = gate_ix(gate_data(&gate_signer(), &gate_mint(), &gate_sig()));
    assert_eq!(
        check_access(&pool, &gate_config(), &vec![attest.clone()], &Some(vec![1; 64]), 1_200),
        Err(MaxiFarmError::WrongSignatureParams)
    );
    assert_eq!(
        check_access(&pool, &gate_config(), &vec![attest], &Some(vec![1; 10]), 1_200),
        Err(MaxiFarmError::InvalidSigLen)
    );
    assert_eq!(
        check_access(
            &pool,
            &gate_config(),
            &vec![gate_other_ix(), gate_other_ix()],
            &Some(gate_sig()),
            1_200
        ),
        Err(MaxiFarmError::InvalidMessageFormat)
    );
}
