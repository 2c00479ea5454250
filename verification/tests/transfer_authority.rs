#![allow(dead_code)]
#![allow(unused_imports)]

use solana_loader_v4_program::{
    account::AccountInfo,
    error::LoaderV4Error,
    id,
    instruction::{deploy, finalize, retract, transfer_authority, truncate, Instruction},
    processor::process,
    pubkey::Pubkey,
    state::{LoaderV4State, LoaderV4Status, DEPLOYMENT_COOLDOWN_IN_SLOTS},
};
use solana_program::{program_error::ProgramError, rent::Rent};

/// An account as the host keeps it between instructions.
#[derive(Clone, Debug, PartialEq)]
struct StoredAccount {
    lamports: u64,
    data: Vec<u8>,
    owner: Pubkey,
}

impl StoredAccount {
    fn new(lamports: u64, space: usize, owner: &Pubkey) -> Self {
        StoredAccount { lamports, data: vec![0; space], owner: *owner }
    }

    /// An empty account of the system program.
    fn default() -> Self {
        StoredAccount { lamports: 0, data: Vec::new(), owner: Pubkey::new_from_array([0; 32]) }
    }
}

/// What an instruction left behind.
struct Outcome {
    result: Result<(), LoaderV4Error>,
    accounts: Vec<(Pubkey, StoredAccount)>,
}

impl Outcome {
    fn get_account(&self, key: &Pubkey) -> Option<&StoredAccount> {
        self.accounts.iter().find(|(k, _)| k == key).map(|(_, account)| account)
    }

    fn assert_success(&self) {
        assert_eq!(self.result, Ok(()));
    }

    /// The call failed with `error`, which the host sees as `seen`.
    fn assert_err(&self, seen: ProgramError, error: LoaderV4Error) {
        assert_eq!(self.result, Err(error));
        assert_eq!(ProgramError::from(error.code()), seen);
    }

    fn assert_data(&self, key: &Pubkey, data: &[u8]) {
        assert_eq!(self.get_account(key).unwrap().data.as_slice(), data);
    }

    fn assert_lamports(&self, key: &Pubkey, lamports: u64) {
        assert_eq!(self.get_account(key).unwrap().lamports, lamports);
    }
}

/// A stand-in for the host: a rent schedule, a clock, and the loading and
/// storing of accounts around one call of the loader.
struct Host {
    rent: Rent,
    slot: u64,
}

impl Host {
    fn new() -> Self {
        Host { rent: Rent::default(), slot: 0 }
    }

    fn warp_to_slot(&mut self, slot: u64) {
        self.slot = slot;
    }

    fn process_instruction(
        &self,
        instruction: &Instruction,
        accounts: &[(Pubkey, StoredAccount)],
    ) -> Outcome {
        let mut infos: Vec<AccountInfo> = instruction
            .accounts
            .iter()
            .map(|meta| {
                let (_, stored) = accounts
                    .iter()
                    .find(|(key, _)| *key == meta.pubkey)
                    .expect("account of the instruction is missing");
                AccountInfo {
                    key: meta.pubkey,
                    owner: stored.owner,
                    lamports: stored.lamports,
                    data: stored.data.clone(),
                    is_signer: meta.is_signer,
                    is_writable: meta.is_writable,
                }
            })
            .collect();
        let before = infos.clone();
        let result = process(
            &instruction.program_id,
            &mut infos,
            &instruction.data,
            &self.rent,
            self.slot,
        );
        let mut after = accounts.to_vec();
        match result {
            Ok(()) => {
                for info in infos.iter().filter(|info| info.is_writable) {
                    let (_, stored) =
                        after.iter_mut().find(|(key, _)| *key == info.key).unwrap();
                    stored.lamports = info.lamports;
                    stored.data = info.data.clone();
                }
            }
            Err(_) => assert_eq!(infos, before, "a failed call changed an account"),
        }
        Outcome { result, accounts: after }
    }
}

fn new_unique() -> Pubkey {
    Pubkey::new_from_array(solana_program::pubkey::Pubkey::new_unique().to_bytes())
}

fn loader_v4_state_account(state: &LoaderV4State, additional_bytes: &[u8]) -> StoredAccount {
    let mut data = vec![0; LoaderV4State::program_data_offset()];
    LoaderV4State::unpack_mut(&mut data, state).unwrap();
    data.extend_from_slice(additional_bytes);

    let space = data.len();
    let lamports = Rent::default().minimum_balance(space);

    let mut account = StoredAccount::new(lamports, space, &id());
    account.data = data;
    account
}

fn packed(state: &LoaderV4State, additional_bytes: &[u8]) -> Vec<u8> {
    let mut data = vec![0; LoaderV4State::program_data_offset()];
    LoaderV4State::unpack_mut(&mut data, state).unwrap();
    data.extend_from_slice(additional_bytes);
    data
}

#[test]
fn transfer_authority_fail_program_not_owned_by_loader() {
    let host = Host::new();

    let program = new_unique();
    let old_authority = new_unique();
    let new_authority = new_unique();

    let state = LoaderV4State {
        slot: 0,
        authority_address_or_next_version: old_authority,
        status: LoaderV4Status::Deployed,
    };
    let elf = &[4; 1_500];

    // Incorrect owner.
    let mut program_account = loader_v4_state_account(&state, elf);
    program_account.owner = new_unique();

    let outcome = host.process_instruction(
        &transfer_authority(&program, &old_authority, &new_authority),
        &[
            (program, program_account),
            (old_authority, StoredAccount::default()),
            (new_authority, StoredAccount::default()),
        ],
    );
    outcome.assert_err(ProgramError::InvalidAccountOwner, LoaderV4Error::WrongOwner);
}

#[test]
fn transfer_authority_fail_program_invalid_state() {
    let host = Host::new();

    let program = new_unique();
    let old_authority = new_unique();
    let new_authority = new_unique();

    // Invalid state.
    let mut program_account =
        StoredAccount::new(100_000_000_000, 12, &id());
    program_account.data = vec![4; 12];

    let outcome = host.process_instruction(
        &transfer_authority(&program, &old_authority, &new_authority),
        &[
            (program, program_account),
            (old_authority, StoredAccount::default()),
            (new_authority, StoredAccount::default()),
        ],
    );
    outcome.assert_err(ProgramError::AccountDataTooSmall, LoaderV4Error::BufferTooSmall);
}

#[test]
fn transfer_authority_fail_program_not_writable() {
    let host = Host::new();

    let program = new_unique();
    let old_authority = new_unique();
    let new_authority = new_unique();

    let state = LoaderV4State {
        slot: 0,
        authority_address_or_next_version: old_authority,
        status: LoaderV4Status::Deployed,
    };
    let elf = &[4; 1_500];

    let mut instruction = transfer_authority(&program, &old_authority, &new_authority);
    instruction.accounts[0].is_writable = false; // Not writable.

    let outcome = host.process_instruction(
        &instruction,
        &[
            (program, loader_v4_state_account(&state, elf)),
            (old_authority, StoredAccount::default()),
            (new_authority, StoredAccount::default()),
        ],
    );
    outcome.assert_err(ProgramError::InvalidArgument, LoaderV4Error::NotWritable);
}

#[test]
fn transfer_authority_fail_authority_not_signer() {
    let host = Host::new();

    let program = new_unique();
    let old_authority = new_unique();
    let new_authority = new_unique();

    let state = LoaderV4State {
        slot: 0,
        authority_address_or_next_version: old_authority,
        status: LoaderV4Status::Deployed,
    };
    let elf = &[4; 1_500];

    let mut instruction = transfer_authority(&program, &old_authority, &new_authority);
    instruction.accounts[1].is_signer = false; // Not a signer.

    let outcome = host.process_instruction(
        &instruction,
        &[
            (program, loader_v4_state_account(&state, elf)),
            (old_authority, StoredAccount::default()),
            (new_authority, StoredAccount::default()),
        ],
    );
    outcome.assert_err(ProgramError::MissingRequiredSignature, LoaderV4Error::MissingSignature);
}

#[test]
fn transfer_authority_fail_authority_mismatch() {
    let host = Host::new();

    let program = new_unique();
    let old_authority = new_unique();
    let new_authority = new_unique();

    let state = LoaderV4State {
        slot: 0,
        authority_address_or_next_version: new_unique(), // Mismatch.
        status: LoaderV4Status::Deployed,
    };
    let elf = &[4; 1_500];

    let outcome = host.process_instruction(
        &transfer_authority(&program, &old_authority, &new_authority),
        &[
            (program, loader_v4_state_account(&state, elf)),
            (old_authority, StoredAccount::default()),
            (new_authority, StoredAccount::default()),
        ],
    );
    outcome.assert_err(ProgramError::IncorrectAuthority, LoaderV4Error::WrongAuthority);
}

#[test]
fn transfer_authority_fail_program_finalized() {
    let host = Host::new();

    let program = new_unique();
    let old_authority = new_unique();
    let new_authority = new_unique();

    let state = LoaderV4State {
        slot: 0,
        authority_address_or_next_version: old_authority,
        status: LoaderV4Status::Finalized, // Finalized.
    };
    let elf = &[4; 1_500];

    let outcome = host.process_instruction(
        &transfer_authority(&program, &old_authority, &new_authority),
        &[
            (program, loader_v4_state_account(&state, elf)),
            (old_authority, StoredAccount::default()),
            (new_authority, StoredAccount::default()),
        ],
    );
    outcome.assert_err(ProgramError::Immutable, LoaderV4Error::Immutable);
}

#[test]
fn fail_new_authority_not_signer() {
    let host = Host::new();

    let program = new_unique();
    let old_authority = new_unique();
    let new_authority = new_unique();

    let state = LoaderV4State {
        slot: 0,
        authority_address_or_next_version: old_authority,
        status: LoaderV4Status::Deployed,
    };
    let elf = &[4; 1_500];

    let mut instruction = transfer_authority(&program, &old_authority, &new_authority);
    instruction.accounts[2].is_signer = false; // Not a signer.

    let outcome = host.process_instruction(
        &instruction,
        &[
            (program, loader_v4_state_account(&state, elf)),
            (old_authority, StoredAccount::default()),
            (new_authority, StoredAccount::default()),
        ],
    );
    outcome.assert_err(ProgramError::MissingRequiredSignature, LoaderV4Error::MissingSignature);
}

#[test]
fn fail_no_change() {
    let host = Host::new();

    let program = new_unique();
    let old_authority = new_unique();
    let new_authority = old_authority; // No change.

    let state = LoaderV4State {
        slot: 0,
        authority_address_or_next_version: old_authority,
        status: LoaderV4Status::Deployed,
    };
    let elf = &[4; 1_500];

    let outcome = host.process_instruction(
        &transfer_authority(&program, &old_authority, &new_authority),
        &[
            (program, loader_v4_state_account(&state, elf)),
            (old_authority, StoredAccount::default()),
            (new_authority, StoredAccount::default()),
        ],
    );
    outcome.assert_err(ProgramError::InvalidArgument, LoaderV4Error::NoChange);
}

#[test]
fn transfer_authority_success() {
    let host = Host::new();

    let program = new_unique();
    let old_authority = new_unique();
    let new_authority = new_unique();

    let state = LoaderV4State {
        slot: 0,
        authority_address_or_next_version: old_authority,
        status: LoaderV4Status::Deployed,
    };
    let elf = &[4; 1_500];

    let check_data = {
        let mut data = vec![0; LoaderV4State::program_data_offset()];
        LoaderV4State::unpack_mut(&mut data, &LoaderV4State {
                slot: 0,
                authority_address_or_next_version: new_authority,
                status: LoaderV4Status::Deployed,
            }).unwrap();
        data.extend_from_slice(elf);
        data
    };

    let outcome = host.process_instruction(
        &transfer_authority(&program, &old_authority, &new_authority),
        &[
            (program, loader_v4_state_account(&state, elf)),
            (old_authority, StoredAccount::default()),
            (new_authority, StoredAccount::default()),
        ],
    );
    outcome.assert_success();
    outcome.assert_data(&program, &check_data);
}
