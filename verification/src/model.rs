//! The loader's operations as functions on account views.
//!
//! Each operation maps the accounts before the call to the accounts after
//! it, or to the one failure it reports. The executable processor is
//! proved against these functions, and the laws of the lifecycle are
//! proved about them.
use vstd::prelude::*;
use solana_program::rent::Rent;
use crate::account::AccountView;
use crate::error::LoaderV4Error;
use crate::instruction::{spec_deserialize, InstructionView};
use crate::rent::{spec_checked_minimum_balance, spec_required_balance};
use crate::state::{
    spec_payload, spec_unpack, LoaderV4StateView, LoaderV4Status, DEPLOYMENT_COOLDOWN_IN_SLOTS,
};

verus! {

/// The precondition check shared by every operation on an initialized
/// program account. The checks run in this order, and the first that
/// fails decides the error:
///
/// 1. the loader owns the account, else `WrongOwner`;
/// 2. its buffer holds a header, else the header's own reading error;
/// 3. the account is writable, else `NotWritable`;
/// 4. the authority signed, else `MissingSignature`;
/// 5. the authority is the one the header names, else `WrongAuthority`;
/// 6. the program is not finalized, else `Immutable`.
///
/// On success the result is the header.
pub open spec fn spec_check_program_account(
    program_id: Seq<u8>,
    program: AccountView,
    authority: AccountView,
) -> Result<LoaderV4StateView, LoaderV4Error> {
    if program.owner != program_id {
        Err(LoaderV4Error::WrongOwner)
    } else {
        match spec_unpack(program.data) {
            Err(e) => Err(e),
            Ok(state) => if !program.is_writable {
                Err(LoaderV4Error::NotWritable)
            } else if !authority.is_signer {
                Err(LoaderV4Error::MissingSignature)
            } else if state.authority_address_or_next_version != authority.key {
                Err(LoaderV4Error::WrongAuthority)
            } else if state.status is Finalized {
                Err(LoaderV4Error::Immutable)
            } else {
                Ok(state)
            },
        }
    }
}

/// `data` with its header replaced by `state`.
pub open spec fn spec_with_header(data: Seq<u8>, state: LoaderV4StateView) -> Seq<u8> {
    state.spec_pack() + spec_payload(data)
}

/// `data` with the bytes from `at` on replaced by `bytes`, as far as
/// `bytes` reaches.
pub open spec fn spec_splice(data: Seq<u8>, at: int, bytes: Seq<u8>) -> Seq<u8> {
    data.subrange(0, at) + bytes + data.subrange(at + bytes.len(), data.len() as int)
}

/// `data` cut or padded with zeros to `len` bytes.
pub open spec fn spec_resized(data: Seq<u8>, len: int) -> Seq<u8> {
    if len <= data.len() {
        data.subrange(0, len)
    } else {
        data + Seq::new((len - data.len()) as nat, |i: int| 0u8)
    }
}

/// `over` laid on the front of `under`: `over` itself where it is the
/// longer, else `over` followed by what `under` has beyond it.
pub open spec fn spec_overlay(under: Seq<u8>, over: Seq<u8>) -> Seq<u8> {
    if over.len() >= under.len() {
        over
    } else {
        over + under.subrange(over.len() as int, under.len() as int)
    }
}

/// Whether a program last deployed in `slot` is still cooling down at
/// slot `now`.
pub open spec fn spec_cooldown_active(slot: u64, now: u64) -> bool {
    slot + DEPLOYMENT_COOLDOWN_IN_SLOTS > now
}

/// The slot from which the host runs an image deployed in `slot`.
pub open spec fn spec_effective_slot(slot: u64) -> u64 {
    if slot + 1 > u64::MAX {
        u64::MAX
    } else {
        (slot + 1) as u64
    }
}

/// `Write`: copies `bytes` into the image of a retracted program at
/// `offset`, without resizing. Fails with `OutOfBounds` where the bytes
/// would reach beyond the image.
pub open spec fn spec_write(
    program_id: Seq<u8>,
    accounts: Seq<AccountView>,
    offset: u32,
    bytes: Seq<u8>,
) -> Result<Seq<AccountView>, LoaderV4Error> {
    if accounts.len() < 2 {
        Err(LoaderV4Error::NotEnoughAccountKeys)
    } else {
        let program = accounts[0];
        match spec_check_program_account(program_id, program, accounts[1]) {
            Err(e) => Err(e),
            Ok(state) => if !(state.status is Retracted) {
                Err(LoaderV4Error::NotRetracted)
            } else if 48 + offset + bytes.len() > program.data.len() {
                Err(LoaderV4Error::OutOfBounds)
            } else {
                Ok(
                    accounts.update(
                        0,
                        AccountView {
                            data: spec_splice(program.data, 48 + offset, bytes),
                            ..program
                        },
                    ),
                )
            },
        }
    }
}

/// Brings the balance of the account at position zero to `required`.
///
/// A balance below `required` is `InsufficientFunds`. A balance above it
/// needs a writable destination at position two, else `NotWritable`; the
/// surplus moves there, and where the destination cannot hold it the
/// failure is `ArithmeticOverflow`. The sum of both balances stays.
pub open spec fn spec_reconcile(accounts: Seq<AccountView>, required: u64) -> Result<
    Seq<AccountView>,
    LoaderV4Error,
> {
    if accounts.len() < 1 {
        Err(LoaderV4Error::NotEnoughAccountKeys)
    } else {
        let account = accounts[0];
        if account.lamports < required {
            Err(LoaderV4Error::InsufficientFunds)
        } else if account.lamports == required {
            Ok(accounts)
        } else if accounts.len() < 3 || !accounts[2].is_writable {
            Err(LoaderV4Error::NotWritable)
        } else if accounts[2].lamports + (account.lamports - required) > u64::MAX {
            Err(LoaderV4Error::ArithmeticOverflow)
        } else {
            Ok(
                accounts.update(0, AccountView { lamports: required, ..account }).update(
                    2,
                    AccountView {
                        lamports: (accounts[2].lamports + (account.lamports - required)) as u64,
                        ..accounts[2]
                    },
                ),
            )
        }
    }
}

/// Whether a truncate to `new_size` initializes the account: the new
/// size is positive and the buffer holds no header yet.
pub open spec fn spec_is_initialization(program: AccountView, new_size: u32) -> bool {
    new_size > 0 && program.data.len() < 48
}

/// Who may truncate. An initialization needs the loader to own the
/// account (`WrongOwner`), the account to be writable (`NotWritable`) and
/// to sign itself, and the authority to sign (`MissingSignature` for
/// either). Any other truncate needs the shared precondition check and a
/// retracted program (`NotRetracted`).
pub open spec fn spec_truncate_admission(
    program_id: Seq<u8>,
    program: AccountView,
    authority: AccountView,
    new_size: u32,
) -> Result<(), LoaderV4Error> {
    if spec_is_initialization(program, new_size) {
        if program.owner != program_id {
            Err(LoaderV4Error::WrongOwner)
        } else if !program.is_writable {
            Err(LoaderV4Error::NotWritable)
        } else if !program.is_signer {
            Err(LoaderV4Error::MissingSignature)
        } else if !authority.is_signer {
            Err(LoaderV4Error::MissingSignature)
        } else {
            Ok(())
        }
    } else {
        match spec_check_program_account(program_id, program, authority) {
            Err(e) => Err(e),
            Ok(state) => if !(state.status is Retracted) {
                Err(LoaderV4Error::NotRetracted)
            } else {
                Ok(())
            },
        }
    }
}

/// The buffer after a truncate to `new_size`: empty for size zero; for an
/// initialization a fresh header (slot zero, retracted, the given
/// authority) and `new_size` zero bytes; else the old buffer cut or
/// padded with zeros to header and `new_size` bytes.
pub open spec fn spec_truncated_data(
    data: Seq<u8>,
    authority: Seq<u8>,
    new_size: u32,
) -> Seq<u8> {
    if new_size == 0 {
        Seq::empty()
    } else if data.len() < 48 {
        LoaderV4StateView {
            slot: 0,
            authority_address_or_next_version: authority,
            status: LoaderV4Status::Retracted,
        }.spec_pack() + Seq::new(new_size as nat, |i: int| 0u8)
    } else {
        spec_resized(data, 48 + new_size)
    }
}

/// `Truncate`: resizes the image of a retracted program, initializes an
/// empty account, or closes an account (size zero), and brings the
/// balance to exactly what the new size requires.
///
/// Where the required balance cannot be computed the failure is
/// `ArithmeticOverflow`.
pub open spec fn spec_truncate(
    program_id: Seq<u8>,
    accounts: Seq<AccountView>,
    new_size: u32,
    rent: Rent,
) -> Result<Seq<AccountView>, LoaderV4Error> {
    if accounts.len() < 2 {
        Err(LoaderV4Error::NotEnoughAccountKeys)
    } else {
        let program = accounts[0];
        let authority = accounts[1];
        match spec_truncate_admission(program_id, program, authority, new_size) {
            Err(e) => Err(e),
            Ok(()) => match spec_required_balance(rent, new_size) {
                None => Err(LoaderV4Error::ArithmeticOverflow),
                Some(required) => match spec_reconcile(accounts, required) {
                    Err(e) => Err(e),
                    Ok(reconciled) => Ok(
                        reconciled.update(
                            0,
                            AccountView {
                                data: spec_truncated_data(program.data, authority.key, new_size),
                                ..reconciled[0]
                            },
                        ),
                    ),
                },
            },
        }
    }
}

/// Who may deploy, at slot `now`. The program must pass the shared
/// precondition check; if it was deployed before (its slot is not zero)
/// it must have cooled down, else `CooldownActive`; then it must be
/// retracted, else `NotRetracted`. A source must pass the shared
/// precondition check under the same authority and be retracted too.
///
/// On success the result is the program's header.
pub open spec fn spec_deploy_admission(
    program_id: Seq<u8>,
    program: AccountView,
    authority: AccountView,
    source: Option<AccountView>,
    now: u64,
) -> Result<LoaderV4StateView, LoaderV4Error> {
    match spec_check_program_account(program_id, program, authority) {
        Err(e) => Err(e),
        Ok(state) => if state.slot != 0 && spec_cooldown_active(state.slot, now) {
            Err(LoaderV4Error::CooldownActive)
        } else if !(state.status is Retracted) {
            Err(LoaderV4Error::NotRetracted)
        } else {
            match source {
                None => Ok(state),
                Some(source) => match spec_check_program_account(program_id, source, authority) {
                    Err(e) => Err(e),
                    Ok(source_state) => if !(source_state.status is Retracted) {
                        Err(LoaderV4Error::NotRetracted)
                    } else {
                        Ok(state)
                    },
                },
            }
        },
    }
}

/// The source of a `Deploy`: the account at position two, if there is
/// one.
pub open spec fn spec_deploy_source(accounts: Seq<AccountView>) -> Option<AccountView> {
    if accounts.len() < 3 {
        None
    } else {
        Some(accounts[2])
    }
}

/// `Deploy`: makes a retracted program executable and stamps it with the
/// slot `now`.
///
/// Once program and source are admitted, and there is a source: the
/// program's balance is raised from the source's to the rent-exempt
/// minimum of the source's length (`ArithmeticOverflow` where that cannot
/// be computed, `InsufficientFunds` where the source cannot pay); the
/// source's buffer is laid over the program's, and the source is closed.
pub open spec fn spec_deploy(
    program_id: Seq<u8>,
    accounts: Seq<AccountView>,
    rent: Rent,
    now: u64,
) -> Result<Seq<AccountView>, LoaderV4Error> {
    if accounts.len() < 2 {
        Err(LoaderV4Error::NotEnoughAccountKeys)
    } else {
        let program = accounts[0];
        match spec_deploy_admission(
            program_id,
            program,
            accounts[1],
            spec_deploy_source(accounts),
            now,
        ) {
            Err(e) => Err(e),
            Ok(state) => {
                let deployed = LoaderV4StateView {
                    slot: now,
                    status: LoaderV4Status::Deployed,
                    ..state
                };
                if accounts.len() < 3 {
                    Ok(
                        accounts.update(
                            0,
                            AccountView {
                                data: spec_with_header(program.data, deployed),
                                ..program
                            },
                        ),
                    )
                } else {
                    let source = accounts[2];
                    match spec_checked_minimum_balance(rent, source.data.len() as int) {
                        None => Err(LoaderV4Error::ArithmeticOverflow),
                        Some(required) => {
                            let transfer = spec_shortfall(program.lamports, required);
                            if source.lamports < transfer {
                                Err(LoaderV4Error::InsufficientFunds)
                            } else {
                                Ok(
                                    accounts.update(
                                        0,
                                        AccountView {
                                            lamports: (program.lamports + transfer) as u64,
                                            data: spec_with_header(
                                                spec_overlay(program.data, source.data),
                                                deployed,
                                            ),
                                            ..program
                                        },
                                    ).update(
                                        2,
                                        AccountView {
                                            lamports: (source.lamports - transfer) as u64,
                                            data: Seq::empty(),
                                            ..source
                                        },
                                    ),
                                )
                            }
                        },
                    }
                }
            },
        }
    }
}

/// What `balance` lacks to reach `required`.
pub open spec fn spec_shortfall(balance: u64, required: u64) -> u64 {
    if required > balance {
        (required - balance) as u64
    } else {
        0
    }
}

/// `Retract`: takes a deployed program back into maintenance. The slot
/// stays. Fails with `CooldownActive` until the cooldown has passed since
/// the deployment, then with `NotDeployed` if the program is not
/// deployed.
pub open spec fn spec_retract(program_id: Seq<u8>, accounts: Seq<AccountView>, now: u64) -> Result<
    Seq<AccountView>,
    LoaderV4Error,
> {
    if accounts.len() < 2 {
        Err(LoaderV4Error::NotEnoughAccountKeys)
    } else {
        let program = accounts[0];
        match spec_check_program_account(program_id, program, accounts[1]) {
            Err(e) => Err(e),
            Ok(state) => if spec_cooldown_active(state.slot, now) {
                Err(LoaderV4Error::CooldownActive)
            } else if !(state.status is Deployed) {
                Err(LoaderV4Error::NotDeployed)
            } else {
                Ok(
                    accounts.update(
                        0,
                        AccountView {
                            data: spec_with_header(
                                program.data,
                                LoaderV4StateView { status: LoaderV4Status::Retracted, ..state },
                            ),
                            ..program
                        },
                    ),
                )
            },
        }
    }
}

/// `TransferAuthority`: makes the account at position two the program's
/// authority. The new authority must sign, else `MissingSignature`, and
/// differ from the current one, else `NoChange`.
pub open spec fn spec_transfer_authority(
    program_id: Seq<u8>,
    accounts: Seq<AccountView>,
) -> Result<Seq<AccountView>, LoaderV4Error> {
    if accounts.len() < 3 {
        Err(LoaderV4Error::NotEnoughAccountKeys)
    } else {
        let program = accounts[0];
        let new_authority = accounts[2];
        match spec_check_program_account(program_id, program, accounts[1]) {
            Err(e) => Err(e),
            Ok(state) => if !new_authority.is_signer {
                Err(LoaderV4Error::MissingSignature)
            } else if state.authority_address_or_next_version == new_authority.key {
                Err(LoaderV4Error::NoChange)
            } else {
                Ok(
                    accounts.update(
                        0,
                        AccountView {
                            data: spec_with_header(
                                program.data,
                                LoaderV4StateView {
                                    authority_address_or_next_version: new_authority.key,
                                    ..state
                                },
                            ),
                            ..program
                        },
                    ),
                )
            },
        }
    }
}

/// `Finalize`: freezes a deployed program and makes the account at
/// position two its successor.
///
/// The program must be deployed, else `NotDeployed`. The successor must
/// be owned by the loader (`WrongOwner`), hold a header, name the same
/// authority (`WrongAuthority`) and not be finalized (`Immutable`). It
/// can be the program itself.
pub open spec fn spec_finalize(program_id: Seq<u8>, accounts: Seq<AccountView>) -> Result<
    Seq<AccountView>,
    LoaderV4Error,
> {
    if accounts.len() < 3 {
        Err(LoaderV4Error::NotEnoughAccountKeys)
    } else {
        let program = accounts[0];
        let authority = accounts[1];
        let next_version = accounts[2];
        match spec_check_program_account(program_id, program, authority) {
            Err(e) => Err(e),
            Ok(state) => if !(state.status is Deployed) {
                Err(LoaderV4Error::NotDeployed)
            } else if next_version.owner != program_id {
                Err(LoaderV4Error::WrongOwner)
            } else {
                match spec_unpack(next_version.data) {
                    Err(e) => Err(e),
                    Ok(next_state) => if next_state.authority_address_or_next_version
                        != authority.key {
                        Err(LoaderV4Error::WrongAuthority)
                    } else if next_state.status is Finalized {
                        Err(LoaderV4Error::Immutable)
                    } else {
                        Ok(
                            accounts.update(
                                0,
                                AccountView {
                                    data: spec_with_header(
                                        program.data,
                                        LoaderV4StateView {
                                            authority_address_or_next_version: next_version.key,
                                            status: LoaderV4Status::Finalized,
                                            ..state
                                        },
                                    ),
                                    ..program
                                },
                            ),
                        )
                    },
                }
            },
        }
    }
}

/// Whether the operation looks at the clock: only `Deploy` and `Retract`
/// do, and only once the program has passed the shared precondition
/// check. Where it does not, the slot it is given makes no difference.
pub open spec fn spec_reads_clock(
    program_id: Seq<u8>,
    accounts: Seq<AccountView>,
    instruction: InstructionView,
) -> bool {
    (instruction is Deploy || instruction is Retract) && accounts.len() >= 2
        && spec_check_program_account(program_id, accounts[0], accounts[1]) is Ok
}

/// Whether the operation looks at the rent schedule: a `Truncate` to a
/// size above zero does once the accounts are admitted, and a `Deploy`
/// with a source once program and source are admitted at slot `now`.
/// Where it does not, the schedule it is given makes no difference.
pub open spec fn spec_reads_rent(
    program_id: Seq<u8>,
    accounts: Seq<AccountView>,
    instruction: InstructionView,
    now: u64,
) -> bool {
    match instruction {
        InstructionView::Truncate { new_size } => new_size > 0 && accounts.len() >= 2
            && spec_truncate_admission(program_id, accounts[0], accounts[1], new_size) is Ok,
        InstructionView::Deploy => accounts.len() >= 3 && spec_deploy_admission(
            program_id,
            accounts[0],
            accounts[1],
            spec_deploy_source(accounts),
            now,
        ) is Ok,
        _ => false,
    }
}

/// One decoded instruction applied to the accounts.
pub open spec fn spec_apply(
    program_id: Seq<u8>,
    accounts: Seq<AccountView>,
    instruction: InstructionView,
    rent: Rent,
    now: u64,
) -> Result<Seq<AccountView>, LoaderV4Error> {
    match instruction {
        InstructionView::Write { offset, bytes } => spec_write(program_id, accounts, offset, bytes),
        InstructionView::Truncate { new_size } => spec_truncate(
            program_id,
            accounts,
            new_size,
            rent,
        ),
        InstructionView::Deploy => spec_deploy(program_id, accounts, rent, now),
        InstructionView::Retract => spec_retract(program_id, accounts, now),
        InstructionView::TransferAuthority => spec_transfer_authority(program_id, accounts),
        InstructionView::Finalize => spec_finalize(program_id, accounts),
    }
}

/// The loader's entry point: decodes `input` and applies the instruction.
/// Input that does not decode fails before any operation is looked at.
pub open spec fn spec_process(
    program_id: Seq<u8>,
    accounts: Seq<AccountView>,
    input: Seq<u8>,
    rent: Rent,
    now: u64,
) -> Result<Seq<AccountView>, LoaderV4Error> {
    match spec_deserialize(input) {
        Err(e) => Err(e),
        Ok(instruction) => spec_apply(program_id, accounts, instruction, rent, now),
    }
}

/// What an executable operation owes its caller: on success the accounts
/// that the model gives, on failure the model's error and the accounts as
/// they were.
pub open spec fn spec_outcome(
    expected: Result<Seq<AccountView>, LoaderV4Error>,
    result: Result<(), LoaderV4Error>,
    before: Seq<AccountView>,
    after: Seq<AccountView>,
) -> bool {
    match expected {
        Ok(accounts) => result is Ok && after == accounts,
        Err(e) => result == Err::<(), _>(e) && after == before,
    }
}

} // verus!
