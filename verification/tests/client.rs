use solana_loader_v4_program::{
    client::{
        finalize::{Finalize, FinalizeBuilder, FinalizeInstructionData},
        truncate::{Truncate, TruncateBuilder, TruncateInstructionArgs, TruncateInstructionData},
    },
    id,
    instruction::{finalize, truncate, AccountMeta, LoaderV4Instruction},
    pubkey::Pubkey,
};

fn key(seed: u8) -> Pubkey {
    Pubkey::new_from_array([seed; 32])
}

#[test]
fn truncate_instruction_data() {
    assert_eq!(TruncateInstructionData::new().to_vec(), vec![1]);
    assert_eq!(TruncateInstructionData::default().to_vec(), vec![1]);
    assert_eq!(TruncateInstructionArgs { new_size: 36 }.to_vec(), vec![36, 0, 0, 0]);
    assert_eq!(
        TruncateInstructionArgs { new_size: 0x0a0b_0c0d }.to_vec(),
        vec![0x0d, 0x0c, 0x0b, 0x0a]
    );
}

#[test]
fn finalize_instruction_data() {
    // One opcode byte, as for every instruction.
    assert_eq!(FinalizeInstructionData::new().to_vec(), vec![5]);
    assert_eq!(FinalizeInstructionData::default().to_vec(), vec![5]);
    assert_eq!(
        FinalizeInstructionData::new().to_vec(),
        LoaderV4Instruction::Finalize.serialize()
    );
    assert_eq!(
        LoaderV4Instruction::deserialize(&FinalizeInstructionData::new().to_vec()),
        Ok(LoaderV4Instruction::Finalize)
    );
}

#[test]
fn truncate_accounts_with_destination() {
    let accounts = Truncate { program: key(1), authority: key(2), destination: Some(key(3)) };
    let instruction = accounts.instruction(TruncateInstructionArgs { new_size: 36 });
    assert_eq!(instruction.program_id, id());
    assert_eq!(
        instruction.accounts,
        vec![
            AccountMeta::new(key(1), true),
            AccountMeta::new_readonly(key(2), true),
            AccountMeta::new(key(3), false),
        ]
    );
    assert_eq!(instruction.data, vec![1, 36, 0, 0, 0]);
    assert_eq!(instruction, truncate(&key(1), &key(2), Some(&key(3)), 36));
    assert_eq!(
        LoaderV4Instruction::deserialize(&instruction.data),
        Ok(LoaderV4Instruction::Truncate { new_size: 36 })
    );
}

#[test]
fn truncate_accounts_without_destination() {
    // Nothing stands in for a destination that is absent.
    let accounts = Truncate { program: key(1), authority: key(2), destination: None };
    let instruction = accounts.instruction(TruncateInstructionArgs { new_size: 1_236 });
    assert_eq!(
        instruction.accounts,
        vec![AccountMeta::new(key(1), true), AccountMeta::new_readonly(key(2), true)]
    );
    assert_eq!(instruction.data, vec![1, 0xd4, 0x04, 0, 0]);
    assert_eq!(instruction, truncate(&key(1), &key(2), None, 1_236));

    // The remaining accounts follow the authority directly.
    let remaining = [AccountMeta::new(key(8), true)];
    let instruction = accounts
        .instruction_with_remaining_accounts(TruncateInstructionArgs { new_size: 7 }, &remaining);
    assert_eq!(
        instruction.accounts,
        vec![
            AccountMeta::new(key(1), true),
            AccountMeta::new_readonly(key(2), true),
            AccountMeta::new(key(8), true),
        ]
    );
}

#[test]
fn truncate_with_remaining_accounts() {
    let accounts = Truncate { program: key(1), authority: key(2), destination: Some(key(3)) };
    let remaining = [AccountMeta::new(key(8), true), AccountMeta::new_readonly(key(9), false)];
    let instruction = accounts
        .instruction_with_remaining_accounts(TruncateInstructionArgs { new_size: 0 }, &remaining);
    assert_eq!(
        instruction.accounts,
        vec![
            AccountMeta::new(key(1), true),
            AccountMeta::new_readonly(key(2), true),
            AccountMeta::new(key(3), false),
            AccountMeta::new(key(8), true),
            AccountMeta::new_readonly(key(9), false),
        ]
    );
    assert_eq!(instruction.data, vec![1, 0, 0, 0, 0]);
}

#[test]
fn truncate_builder() {
    let instruction = TruncateBuilder::new()
        .program(key(1))
        .authority(key(2))
        .destination(Some(key(3)))
        .new_size(600)
        .add_remaining_account(AccountMeta::new(key(4), false))
        .add_remaining_accounts(&[AccountMeta::new_readonly(key(5), true), AccountMeta::new(key(6), true)])
        .instruction();
    assert_eq!(instruction.program_id, id());
    assert_eq!(
        instruction.accounts,
        vec![
            AccountMeta::new(key(1), true),
            AccountMeta::new_readonly(key(2), true),
            AccountMeta::new(key(3), false),
            AccountMeta::new(key(4), false),
            AccountMeta::new_readonly(key(5), true),
            AccountMeta::new(key(6), true),
        ]
    );
    assert_eq!(instruction.data, vec![1, 0x58, 0x02, 0, 0]);

    // Later calls replace earlier ones; the destination can be cleared.
    let mut builder = TruncateBuilder::default();
    builder.program(key(9)).authority(key(2)).destination(Some(key(3))).new_size(1);
    builder.program(key(1)).destination(None).new_size(2);
    let instruction = builder.instruction();
    assert_eq!(
        instruction,
        Truncate { program: key(1), authority: key(2), destination: None }
            .instruction(TruncateInstructionArgs { new_size: 2 })
    );
}

#[test]
fn finalize_accounts() {
    let accounts = Finalize { program: key(1), authority: key(2), next_version: key(3) };
    let instruction = accounts.instruction();
    assert_eq!(instruction, finalize(&key(1), &key(2), &key(3)));
    assert_eq!(instruction.program_id, id());
    assert_eq!(
        instruction.accounts,
        vec![
            AccountMeta::new(key(1), false),
            AccountMeta::new_readonly(key(2), true),
            AccountMeta::new_readonly(key(3), false),
        ]
    );
    assert_eq!(instruction.data, vec![5]);

    let remaining = [AccountMeta::new(key(8), true)];
    let instruction = accounts.instruction_with_remaining_accounts(&remaining);
    assert_eq!(
        instruction.accounts,
        vec![
            AccountMeta::new(key(1), false),
            AccountMeta::new_readonly(key(2), true),
            AccountMeta::new_readonly(key(3), false),
            AccountMeta::new(key(8), true),
        ]
    );
    assert_eq!(instruction.data, vec![5]);
}

#[test]
fn finalize_builder() {
    let instruction = FinalizeBuilder::new()
        .program(key(1))
        .authority(key(2))
        .next_version(key(1))
        .add_remaining_account(AccountMeta::new(key(4), false))
        .add_remaining_accounts(&[AccountMeta::new_readonly(key(5), true)])
        .instruction();
    assert_eq!(
        instruction.accounts,
        vec![
            AccountMeta::new(key(1), false),
            AccountMeta::new_readonly(key(2), true),
            AccountMeta::new_readonly(key(1), false),
            AccountMeta::new(key(4), false),
            AccountMeta::new_readonly(key(5), true),
        ]
    );
    assert_eq!(instruction.data, vec![5]);
    assert_eq!(
        FinalizeBuilder::default().program(key(1)).authority(key(2)).next_version(key(3)).instruction(),
        Finalize { program: key(1), authority: key(2), next_version: key(3) }.instruction()
    );
}
