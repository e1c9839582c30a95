use secp256r1_vault::attestation::{read_attestation, SECP256R1_PROGRAM_ID};
use secp256r1_vault::derive::derive_vault_address;
use secp256r1_vault::{
    process_instruction, AccountState, Deposit, DepositInstructionData, InstructionList,
    SiblingInstruction, VaultError, Withdraw, WithdrawInstructionData, ID,
};
use solana_pubkey::Pubkey;

const PAYER: [u8; 32] = [
    162, 41, 179, 185, 78, 57, 23, 228, 29, 206, 38, 37, 168, 0, 190, 188, 203, 204, 121, 246,
    59, 192, 14, 87, 48, 14, 33, 113, 141, 123, 170, 41,
];

const SYSTEM: [u8; 32] = [0u8; 32];

const INSTRUCTIONS_SYSVAR: [u8; 32] = [7u8; 32];

const LAMPORTS_PER_SOL: u64 = 1_000_000_000;

fn key_for(coordinate: &[u8; 32]) -> [u8; 33] {
    let mut pubkey_bytes = [0u8; 33];
    pubkey_bytes[0] = 0x02;
    pubkey_bytes[1..33].copy_from_slice(coordinate);
    pubkey_bytes
}

fn find_vault(pubkey_bytes: &[u8; 33]) -> ([u8; 32], u8) {
    let (vault, bump) = Pubkey::find_program_address(
        &[b"vault", &pubkey_bytes[..1], &pubkey_bytes[1..33]],
        &Pubkey::new_from_array(ID),
    );
    (vault.to_bytes(), bump)
}

fn account(key: [u8; 32], lamports: u64, owner: [u8; 32], is_signer: bool) -> AccountState {
    AccountState { key, owner, lamports, is_signer }
}

fn deposit_accounts(vault: [u8; 32], vault_lamports: u64) -> Vec<AccountState> {
    vec![
        account(PAYER, 10 * LAMPORTS_PER_SOL, SYSTEM, true),
        account(vault, vault_lamports, SYSTEM, false),
        account(SYSTEM, 1, SYSTEM, false),
    ]
}

fn withdraw_accounts(vault: [u8; 32], vault_lamports: u64) -> Vec<AccountState> {
    vec![
        account(PAYER, 10 * LAMPORTS_PER_SOL, SYSTEM, true),
        account(vault, vault_lamports, SYSTEM, false),
        account(INSTRUCTIONS_SYSVAR, 1, SYSTEM, false),
        account(SYSTEM, 1, SYSTEM, false),
    ]
}

fn deposit_bytes(pubkey: [u8; 33], amount: u64) -> Vec<u8> {
    let mut ser_ix_data = vec![0];
    ser_ix_data.extend_from_slice(&pubkey);
    ser_ix_data.extend_from_slice(&amount.to_le_bytes());
    ser_ix_data
}

/// Verification data with one signature whose key and message sit in the data.
fn verification_data(key: &[u8; 33], message: &[u8]) -> Vec<u8> {
    let signature_offset: u16 = 16;
    let key_offset: u16 = 16 + 64;
    let message_offset: u16 = key_offset + 33;
    let mut data = vec![1u8, 0u8];
    for field in [
        signature_offset,
        u16::MAX,
        key_offset,
        u16::MAX,
        message_offset,
        message.len() as u16,
        u16::MAX,
    ] {
        data.extend_from_slice(&field.to_le_bytes());
    }
    data.extend_from_slice(&[9u8; 64]);
    data.extend_from_slice(key);
    data.extend_from_slice(message);
    data
}

fn context_with(previous: Option<SiblingInstruction>) -> InstructionList {
    let mut instructions = Vec::new();
    if let Some(ix) = previous {
        instructions.push(ix);
    }
    let current_index = instructions.len();
    instructions.push(SiblingInstruction { program_id: ID, data: vec![1] });
    InstructionList { current_index, instructions }
}

fn attestation(key: &[u8; 33], message: &[u8]) -> InstructionList {
    context_with(Some(SiblingInstruction {
        program_id: SECP256R1_PROGRAM_ID,
        data: verification_data(key, message),
    }))
}

/// Runs a withdrawal with the derivation that the ledger gives for the attested key.
fn run_withdraw(
    bump: u8,
    accounts: &[AccountState],
    ctx: &InstructionList,
) -> Result<secp256r1_vault::Transfer, VaultError> {
    let withdraw = Withdraw::try_from(&[bump], accounts)?;
    let (key, message) = read_attestation(ctx)?;
    withdraw.authorize(&key, &message, Some(find_vault(&key)))
}

#[test]
fn test_initialize_vault() {
    let pubkey_bytes = key_for(&PAYER);
    let (vault, _bump) = find_vault(&pubkey_bytes);
    let accounts = deposit_accounts(vault, 0);
    let ix_data = DepositInstructionData { pubkey: pubkey_bytes, amount: 1000 };
    let ser_ix_data = deposit_bytes(ix_data.pubkey, ix_data.amount);

    let deposit = Deposit::try_from(&ser_ix_data[1..], &accounts).unwrap();
    let result = deposit.process_with(Some(find_vault(&pubkey_bytes)));

    assert!(result.is_ok());
}

#[test]
fn test_withdraw_vault() {
    let pubkey_bytes = key_for(&PAYER);
    let (vault, bump) = find_vault(&pubkey_bytes);
    let vault_lamports = 5000u64;
    let accounts = withdraw_accounts(vault, vault_lamports);
    let ix_data = WithdrawInstructionData { bump: [bump] };
    let mut ser_ix_data = vec![1];
    ser_ix_data.extend_from_slice(&ix_data.bump);

    let ctx = context_with(None);
    let result = process_instruction(&accounts, &ser_ix_data, &ctx);

    assert!(result.is_err());
}

#[test]
fn test_pda_derivation() {
    let pubkey_bytes = key_for(&PAYER);
    let (vault_pda, bump) = find_vault(&pubkey_bytes);

    assert_ne!(vault_pda, Pubkey::default().to_bytes());
    assert!(bump > 0);
    let deposit = Deposit::try_from(&deposit_bytes(pubkey_bytes, 1)[1..], &deposit_accounts(vault_pda, 0))
        .unwrap();
    assert!(deposit.process_with(Some((vault_pda, bump))).is_ok());
}

#[test]
fn deposit_payload_round_trip() {
    let data = DepositInstructionData { pubkey: key_for(&PAYER), amount: 0x0102_0304_0506_0708 };
    let bytes = data.to_bytes();
    assert_eq!(bytes.len(), 41);
    assert_eq!(&bytes[33..], &[8, 7, 6, 5, 4, 3, 2, 1]);
    let back = DepositInstructionData::try_from(&bytes).unwrap();
    assert_eq!(back.pubkey, data.pubkey);
    assert_eq!(back.amount, data.amount);
    let max = DepositInstructionData { pubkey: [0xff; 33], amount: u64::MAX };
    let back = DepositInstructionData::try_from(&max.to_bytes()).unwrap();
    assert_eq!(back.amount, u64::MAX);
    assert_eq!(back.pubkey, [0xff; 33]);
}

#[test]
fn withdraw_payload_round_trip() {
    for bump in [0u8, 1, 254, 255] {
        let data = WithdrawInstructionData { bump: [bump] };
        let bytes = data.to_bytes();
        assert_eq!(bytes, vec![bump]);
        assert_eq!(WithdrawInstructionData::try_from(&bytes).unwrap().bump, [bump]);
    }
}

#[test]
fn payloads_of_wrong_length_are_rejected() {
    assert_eq!(
        DepositInstructionData::try_from(&[0u8; 40]).err(),
        Some(VaultError::InvalidInstructionData)
    );
    assert_eq!(
        DepositInstructionData::try_from(&[0u8; 42]).err(),
        Some(VaultError::InvalidInstructionData)
    );
    assert_eq!(
        WithdrawInstructionData::try_from(&[]).err(),
        Some(VaultError::InvalidInstructionData)
    );
    assert_eq!(
        WithdrawInstructionData::try_from(&[1, 2]).err(),
        Some(VaultError::InvalidInstructionData)
    );
}

#[test]
fn deposit_into_derived_vault_moves_the_amount() {
    let pubkey = key_for(&PAYER);
    let (vault, bump) = find_vault(&pubkey);
    let accounts = deposit_accounts(vault, 0);
    let deposit = Deposit::try_from(&deposit_bytes(pubkey, 1000)[1..], &accounts).unwrap();
    let t = deposit.process_with(Some((vault, bump))).unwrap();
    assert_eq!((t.from, t.to, t.lamports), (0, 1, 1000));
    assert!(t.vault_signer.is_none());
    let vault_after = accounts[t.to].lamports + t.lamports;
    assert_eq!(vault_after, 1000);
}

#[test]
fn deposit_into_another_address_is_a_mismatch() {
    let pubkey = key_for(&PAYER);
    let derived = find_vault(&pubkey);
    let other = find_vault(&key_for(&[3u8; 32])).0;
    let deposit = Deposit::try_from(&deposit_bytes(pubkey, 1000)[1..], &deposit_accounts(other, 0))
        .unwrap();
    assert_eq!(deposit.process_with(Some(derived)).err(), Some(VaultError::AddressMismatch));
}

#[test]
fn deposit_into_a_funded_vault_is_refused() {
    let pubkey = key_for(&PAYER);
    let (vault, _) = find_vault(&pubkey);
    let r = Deposit::try_from(&deposit_bytes(pubkey, 1000)[1..], &deposit_accounts(vault, 1));
    assert_eq!(r.err(), Some(VaultError::VaultNotEmpty));
}

#[test]
fn deposit_account_checks() {
    let pubkey = key_for(&PAYER);
    let (vault, _) = find_vault(&pubkey);
    let data = deposit_bytes(pubkey, 5);
    let mut accounts = deposit_accounts(vault, 0);
    accounts[0].is_signer = false;
    assert_eq!(Deposit::try_from(&data[1..], &accounts).err(), Some(VaultError::MissingSignature));
    let mut accounts = deposit_accounts(vault, 0);
    accounts[1].owner = ID;
    assert_eq!(Deposit::try_from(&data[1..], &accounts).err(), Some(VaultError::InvalidOwner));
    let accounts = deposit_accounts(vault, 0);
    assert_eq!(
        Deposit::try_from(&data[1..], &accounts[..2]).err(),
        Some(VaultError::NotEnoughAccountKeys)
    );
    assert_eq!(
        Deposit::try_from(&data[1..40], &accounts).err(),
        Some(VaultError::InvalidInstructionData)
    );
}

#[test]
fn deposit_without_a_derivation_has_no_address() {
    let pubkey = key_for(&PAYER);
    let (vault, _) = find_vault(&pubkey);
    let deposit = Deposit::try_from(&deposit_bytes(pubkey, 5)[1..], &deposit_accounts(vault, 0))
        .unwrap();
    assert_eq!(deposit.process_with(None).err(), Some(VaultError::NoValidAddress));
}

#[test]
fn derivation_is_repeatable() {
    let pubkey = key_for(&PAYER);
    assert_eq!(derive_vault_address(&pubkey), derive_vault_address(&pubkey));
    assert_eq!(find_vault(&pubkey), find_vault(&pubkey));
}

#[test]
fn withdraw_with_attestation_sweeps_the_vault() {
    let key = key_for(&PAYER);
    let (vault, bump) = find_vault(&key);
    let accounts = withdraw_accounts(vault, 5000);
    let t = run_withdraw(bump, &accounts, &attestation(&key, &PAYER)).unwrap();
    assert_eq!((t.from, t.to, t.lamports), (1, 0, 5000));
    let signer = t.vault_signer.unwrap();
    assert_eq!(signer.pubkey, key);
    assert_eq!(signer.bump, bump);
    assert_eq!(accounts[t.from].lamports - t.lamports, 0);
}

#[test]
fn withdraw_without_preceding_instruction_is_missing_attestation() {
    let key = key_for(&PAYER);
    let (vault, bump) = find_vault(&key);
    let accounts = withdraw_accounts(vault, 5000);
    let r = process_instruction(&accounts, &[1, bump], &context_with(None));
    assert_eq!(r.err(), Some(VaultError::MissingAttestation));
    assert_eq!(accounts[1].lamports, 5000);
    assert_eq!(run_withdraw(bump, &accounts, &context_with(None)).err(), Some(VaultError::MissingAttestation));
}

#[test]
fn withdraw_after_another_program_is_missing_attestation() {
    let key = key_for(&PAYER);
    let (vault, bump) = find_vault(&key);
    let ctx = context_with(Some(SiblingInstruction {
        program_id: [5u8; 32],
        data: verification_data(&key, &PAYER),
    }));
    let r = run_withdraw(bump, &withdraw_accounts(vault, 5000), &ctx);
    assert_eq!(r.err(), Some(VaultError::MissingAttestation));
}

#[test]
fn withdraw_with_unreadable_attestation_is_malformed() {
    let key = key_for(&PAYER);
    let (vault, bump) = find_vault(&key);
    let mut data = verification_data(&key, &PAYER);
    data.truncate(100);
    let ctx = context_with(Some(SiblingInstruction { program_id: SECP256R1_PROGRAM_ID, data }));
    let r = run_withdraw(bump, &withdraw_accounts(vault, 5000), &ctx);
    assert_eq!(r.err(), Some(VaultError::MalformedAttestation));
    let ctx = context_with(Some(SiblingInstruction { program_id: SECP256R1_PROGRAM_ID, data: vec![0, 0] }));
    assert_eq!(read_attestation(&ctx).err(), Some(VaultError::MalformedAttestation));
}

#[test]
fn attestation_gives_key_and_message() {
    let key = key_for(&[4u8; 32]);
    let (read_key, message) = read_attestation(&attestation(&key, b"hello")).unwrap();
    assert_eq!(read_key, key);
    assert_eq!(message, b"hello".to_vec());
}

#[test]
fn withdraw_for_a_different_key_is_address_mismatch() {
    let key = key_for(&PAYER);
    let (vault, bump) = find_vault(&key);
    let other = key_for(&[3u8; 32]);
    let r = run_withdraw(bump, &withdraw_accounts(vault, 5000), &attestation(&other, &PAYER));
    assert_eq!(r.err(), Some(VaultError::AddressMismatch));
}

#[test]
fn withdraw_with_another_bump_is_address_mismatch() {
    let key = key_for(&PAYER);
    let (vault, bump) = find_vault(&key);
    let r = run_withdraw(bump.wrapping_sub(1), &withdraw_accounts(vault, 5000), &attestation(&key, &PAYER));
    assert_eq!(r.err(), Some(VaultError::AddressMismatch));
}

#[test]
fn withdraw_with_another_message_is_message_mismatch() {
    let key = key_for(&PAYER);
    let (vault, bump) = find_vault(&key);
    let r = run_withdraw(bump, &withdraw_accounts(vault, 5000), &attestation(&key, &[1u8; 32]));
    assert_eq!(r.err(), Some(VaultError::MessageMismatch));
}

#[test]
fn withdraw_needs_four_accounts() {
    let key = key_for(&PAYER);
    let (vault, bump) = find_vault(&key);
    let accounts = withdraw_accounts(vault, 5000);
    assert_eq!(
        Withdraw::try_from(&[bump], &accounts[..3]).err(),
        Some(VaultError::NotEnoughAccountKeys)
    );
    let mut unsigned = accounts.clone();
    unsigned[0].is_signer = false;
    assert!(run_withdraw(bump, &unsigned, &attestation(&key, &PAYER)).is_ok());
}

#[test]
fn empty_instruction_is_refused_before_accounts() {
    let r = process_instruction(&[], &[], &context_with(None));
    assert_eq!(r.err(), Some(VaultError::EmptyInstructionData));
}

#[test]
fn unknown_discriminator_is_refused() {
    let r = process_instruction(&[], &[2, 0], &context_with(None));
    assert_eq!(r.err(), Some(VaultError::UnknownInstruction));
}

#[test]
fn dispatch_routes_by_first_byte() {
    let pubkey = key_for(&PAYER);
    let (vault, bump) = find_vault(&pubkey);
    let mut short = deposit_bytes(pubkey, 5);
    short.pop();
    let r = process_instruction(&deposit_accounts(vault, 0), &short, &context_with(None));
    assert_eq!(r.err(), Some(VaultError::InvalidInstructionData));
    let r = process_instruction(&withdraw_accounts(vault, 5), &[1, bump, 0], &context_with(None));
    assert_eq!(r.err(), Some(VaultError::InvalidInstructionData));
    let r = process_instruction(&deposit_accounts(vault, 7), &deposit_bytes(pubkey, 5), &context_with(None));
    assert_eq!(r.err(), Some(VaultError::VaultNotEmpty));
}

#[test]
fn derivation_agrees_with_the_ledger_where_available() {
    let pubkey = key_for(&PAYER);
    let (vault, _) = find_vault(&pubkey);
    if let Some(found) = derive_vault_address(&pubkey) {
        assert_eq!(found, find_vault(&pubkey));
    }
    let deposit = Deposit::try_from(&deposit_bytes(pubkey, 5)[1..], &deposit_accounts(vault, 0))
        .unwrap();
    match deposit.process() {
        Ok(t) => assert_eq!((t.from, t.to, t.lamports), (0, 1, 5)),
        Err(e) => assert_eq!(e, VaultError::NoValidAddress),
    }
}
