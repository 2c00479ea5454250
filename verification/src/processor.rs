//! The loader's operations on accounts.
use vstd::prelude::*;
use solana_program::rent::Rent;
use crate::account::{views, AccountInfo, AccountView};
use crate::error::LoaderV4Error;
use crate::instruction::LoaderV4Instruction;
use crate::model::{
    spec_check_program_account, spec_cooldown_active, spec_deploy, spec_deploy_admission,
    spec_effective_slot, spec_finalize, spec_is_initialization, spec_outcome, spec_overlay,
    spec_process, spec_reads_clock, spec_reads_rent, spec_reconcile, spec_resized, spec_retract,
    spec_splice, spec_transfer_authority, spec_truncate, spec_truncate_admission,
    spec_truncated_data, spec_with_header, spec_write,
};
use crate::pubkey::Pubkey;
use crate::rent::{checked_minimum_balance, required_balance};
use crate::state::{
    LoaderV4State, LoaderV4Status, DEPLOYMENT_COOLDOWN_IN_SLOTS, PROGRAM_DATA_OFFSET,
};
use vstd::slice::slice_subrange;

verus! {

/// Slots after a deployment before the host runs the new image.
pub const DELAY_VISIBILITY_SLOT_OFFSET: u64 = 1;

/// Checks that `program_info` is a program account that
/// `authority_info` may change, and returns its header.
///
/// The loader must own the account, its buffer must hold a header, it
/// must be writable, the authority must have signed and be the one the
/// header names, and the program may not be finalized. The first of
/// these that fails decides the error.
pub fn check_program_account(
    program_id: &Pubkey,
    program_info: &AccountInfo,
    authority_info: &AccountInfo,
) -> (checked: Result<LoaderV4State, LoaderV4Error>)
    ensures
        match checked {
            Ok(state) => spec_check_program_account(program_id@, program_info@, authority_info@)
                == Ok::<_, LoaderV4Error>(state@),
            Err(e) => spec_check_program_account(program_id@, program_info@, authority_info@)
                == Err::<crate::state::LoaderV4StateView, _>(e),
        },
{
    if program_info.owner != *program_id {
        return Err(LoaderV4Error::WrongOwner);
    }
    let state = LoaderV4State::unpack(program_info.data.as_slice())?;
    if !program_info.is_writable {
        return Err(LoaderV4Error::NotWritable);
    }
    if !authority_info.is_signer {
        return Err(LoaderV4Error::MissingSignature);
    }
    if state.authority_address_or_next_version != authority_info.key {
        return Err(LoaderV4Error::WrongAuthority);
    }
    if state.status == LoaderV4Status::Finalized {
        return Err(LoaderV4Error::Immutable);
    }
    Ok(state)
}

/// Brings the balance of the first account to `required_lamports` and
/// moves what it held beyond that to the third, which must be writable.
/// An account that holds too little fails the call.
pub fn reconcile(accounts: &mut [AccountInfo], required_lamports: u64) -> (result: Result<
    (),
    LoaderV4Error,
>)
    ensures
        spec_outcome(
            spec_reconcile(views(old(accounts)@), required_lamports),
            result,
            views(old(accounts)@),
            views(final(accounts)@),
        ),
{
    if accounts.len() < 1 {
        return Err(LoaderV4Error::NotEnoughAccountKeys);
    }
    let balance = accounts[0].lamports;
    if balance < required_lamports {
        return Err(LoaderV4Error::InsufficientFunds);
    }
    if balance == required_lamports {
        return Ok(());
    }
    if accounts.len() < 3 || !accounts[2].is_writable {
        return Err(LoaderV4Error::NotWritable);
    }
    let surplus = balance - required_lamports;
    if accounts[2].lamports > u64::MAX - surplus {
        return Err(LoaderV4Error::ArithmeticOverflow);
    }
    let received = accounts[2].lamports + surplus;
    accounts[0].lamports = required_lamports;
    accounts[2].lamports = received;
    assert(views(accounts@) =~= spec_reconcile(views(old(accounts)@), required_lamports)->Ok_0);
    Ok(())
}

/// Checks who may truncate `program_info` to `new_size` bytes, and tells
/// whether the truncate initializes the account.
///
/// An account that holds no header yet is initialized by a truncate to a
/// size above zero: the loader must own it, it must be writable and sign
/// itself, and the authority must sign. Any other truncate needs the
/// shared precondition check and a retracted program.
pub fn check_truncate_admission(
    program_id: &Pubkey,
    program_info: &AccountInfo,
    authority_info: &AccountInfo,
    new_size: u32,
) -> (admitted: Result<bool, LoaderV4Error>)
    ensures
        match admitted {
            Ok(is_initialization) => spec_truncate_admission(
                program_id@,
                program_info@,
                authority_info@,
                new_size,
            ) is Ok && is_initialization == spec_is_initialization(program_info@, new_size),
            Err(e) => spec_truncate_admission(program_id@, program_info@, authority_info@, new_size)
                == Err::<(), _>(e),
        },
{
    let is_initialization = new_size > 0 && program_info.data.len() < PROGRAM_DATA_OFFSET;
    if is_initialization {
        if program_info.owner != *program_id {
            return Err(LoaderV4Error::WrongOwner);
        }
        if !program_info.is_writable {
            return Err(LoaderV4Error::NotWritable);
        }
        if !program_info.is_signer {
            return Err(LoaderV4Error::MissingSignature);
        }
        if !authority_info.is_signer {
            return Err(LoaderV4Error::MissingSignature);
        }
    } else {
        let state = check_program_account(program_id, program_info, authority_info)?;
        if state.status != LoaderV4Status::Retracted {
            return Err(LoaderV4Error::NotRetracted);
        }
    }
    Ok(is_initialization)
}

/// Processes a `Truncate` instruction: resizes the image of a retracted
/// program to `new_size` bytes, initializes an account that holds no
/// header yet, or closes the account where `new_size` is zero.
///
/// Accounts: the program; its authority; optionally the destination of
/// the lamports that the new size no longer needs.
pub fn process_truncate(
    program_id: &Pubkey,
    accounts: &mut [AccountInfo],
    new_size: u32,
    rent: &Rent,
) -> (result: Result<(), LoaderV4Error>)
    ensures
        spec_outcome(
            spec_truncate(program_id@, views(old(accounts)@), new_size, *rent),
            result,
            views(old(accounts)@),
            views(final(accounts)@),
        ),
{
    if accounts.len() < 2 {
        return Err(LoaderV4Error::NotEnoughAccountKeys);
    }
    let is_initialization = check_truncate_admission(
        program_id,
        &accounts[0],
        &accounts[1],
        new_size,
    )?;
    let required_lamports = match required_balance(rent, new_size) {
        Some(lamports) => lamports,
        None => {
            return Err(LoaderV4Error::ArithmeticOverflow);
        },
    };
    reconcile(accounts, required_lamports)?;
    let ghost reconciled = views(accounts@);
    assert(reconciled.len() == views(old(accounts)@).len());
    let ghost before = accounts@[0].data@;
    let ghost authority = accounts@[1].key@;
    assert(authority == views(accounts@)[1].key);
    if new_size == 0 {
        accounts[0].data.truncate(0);
    } else {
        let len = PROGRAM_DATA_OFFSET + new_size as usize;
        accounts[0].data.resize(len, 0);
        if is_initialization {
            let state = LoaderV4State {
                slot: 0,
                authority_address_or_next_version: accounts[1].key,
                status: LoaderV4Status::Retracted,
            };
            let _ = LoaderV4State::unpack_mut(accounts[0].data.as_mut_slice(), &state);
        }
    }
    assert(accounts@[0].data@ == spec_truncated_data(before, authority, new_size));
    assert(views(accounts@) =~= reconciled.update(
        0,
        AccountView { data: accounts@[0].data@, ..reconciled[0] },
    ));
    Ok(())
}

/// Whether a program last deployed in `slot` is still cooling down at
/// slot `current_slot`.
pub fn cooldown_active(slot: u64, current_slot: u64) -> (active: bool)
    ensures
        active == spec_cooldown_active(slot, current_slot),
{
    current_slot < DEPLOYMENT_COOLDOWN_IN_SLOTS || slot > current_slot
        - DEPLOYMENT_COOLDOWN_IN_SLOTS
}

/// The slot from which the host runs an image deployed in
/// `deployment_slot`: the slot after it.
pub fn effective_slot(deployment_slot: u64) -> (slot: u64)
    ensures
        slot == spec_effective_slot(deployment_slot),
{
    if deployment_slot > u64::MAX - DELAY_VISIBILITY_SLOT_OFFSET {
        u64::MAX
    } else {
        deployment_slot + DELAY_VISIBILITY_SLOT_OFFSET
    }
}

/// Copies `bytes` over `data` from position `at` on.
fn copy_into(data: &mut [u8], at: usize, bytes: &[u8])
    requires
        at + bytes@.len() <= old(data)@.len(),
    ensures
        final(data)@ == spec_splice(old(data)@, at as int, bytes@),
{
    let count = bytes.len();
    let len = data.len();
    let ghost before = data@;
    let mut i: usize = 0;
    while i < count
        invariant
            i <= count == bytes@.len(),
            at + count <= len == data@.len(),
            before.len() == len,
            forall|j: int| 0 <= j < at ==> data@[j] == before[j],
            forall|j: int| 0 <= j < i ==> data@[at + j] == bytes@[j],
            forall|j: int| at + i <= j < len ==> data@[j] == before[j],
        decreases count - i,
    {
        data[at + i] = bytes[i];
        i += 1;
    }
}

/// Processes a `Write` instruction: copies `bytes` into the image of a
/// retracted program, `offset` bytes after its start.
///
/// Accounts: the program; its authority.
pub fn process_write(
    program_id: &Pubkey,
    accounts: &mut [AccountInfo],
    offset: u32,
    bytes: Vec<u8>,
) -> (result: Result<(), LoaderV4Error>)
    ensures
        spec_outcome(
            spec_write(program_id@, views(old(accounts)@), offset, bytes@),
            result,
            views(old(accounts)@),
            views(final(accounts)@),
        ),
{
    if accounts.len() < 2 {
        return Err(LoaderV4Error::NotEnoughAccountKeys);
    }
    let state = check_program_account(program_id, &accounts[0], &accounts[1])?;
    if state.status != LoaderV4Status::Retracted {
        return Err(LoaderV4Error::NotRetracted);
    }
    let payload_len = accounts[0].data.len() - PROGRAM_DATA_OFFSET;
    if offset as u64 > payload_len as u64 || bytes.len() > payload_len - offset as usize {
        return Err(LoaderV4Error::OutOfBounds);
    }
    let ghost before = accounts@[0].data@;
    copy_into(
        accounts[0].data.as_mut_slice(),
        PROGRAM_DATA_OFFSET + offset as usize,
        bytes.as_slice(),
    );
    assert(views(accounts@) =~= views(old(accounts)@).update(
        0,
        AccountView { data: spec_splice(before, 48 + offset, bytes@), ..views(old(accounts)@)[0] },
    ));
    Ok(())
}

/// Writes `state` over the header of the first account, which holds one.
fn set_header(accounts: &mut [AccountInfo], state: &LoaderV4State)
    requires
        old(accounts)@.len() >= 1,
        old(accounts)@[0].data@.len() >= 48,
    ensures
        views(final(accounts)@) == views(old(accounts)@).update(
            0,
            AccountView {
                data: spec_with_header(old(accounts)@[0].data@, state@),
                ..old(accounts)@[0]@
            },
        ),
{
    let _ = LoaderV4State::unpack_mut(accounts[0].data.as_mut_slice(), state);
}

/// Checks who may deploy `program_info` at slot `current_slot`, from
/// `source_info` if there is one, and returns the program's header.
///
/// The program must pass the shared precondition check, have cooled down
/// if it was deployed before, and be retracted. A source must pass the
/// shared precondition check under the same authority and be retracted.
pub fn check_deploy_admission(
    program_id: &Pubkey,
    program_info: &AccountInfo,
    authority_info: &AccountInfo,
    source_info: Option<&AccountInfo>,
    current_slot: u64,
) -> (admitted: Result<LoaderV4State, LoaderV4Error>)
    ensures
        match admitted {
            Ok(state) => spec_deploy_admission(
                program_id@,
                program_info@,
                authority_info@,
                spec_source_view(source_info),
                current_slot,
            ) == Ok::<_, LoaderV4Error>(state@),
            Err(e) => spec_deploy_admission(
                program_id@,
                program_info@,
                authority_info@,
                spec_source_view(source_info),
                current_slot,
            ) == Err::<crate::state::LoaderV4StateView, _>(e),
        },
{
    let state = check_program_account(program_id, program_info, authority_info)?;
    // A slot of zero marks a program that was never deployed: it has
    // nothing to cool down from, whatever the clock reads.
    if state.slot != 0 && cooldown_active(state.slot, current_slot) {
        return Err(LoaderV4Error::CooldownActive);
    }
    if state.status != LoaderV4Status::Retracted {
        return Err(LoaderV4Error::NotRetracted);
    }
    if let Some(source_info) = source_info {
        let source_state = check_program_account(program_id, source_info, authority_info)?;
        if source_state.status != LoaderV4Status::Retracted {
            return Err(LoaderV4Error::NotRetracted);
        }
    }
    Ok(state)
}

/// The view of a source that may be absent.
pub open spec fn spec_source_view(source_info: Option<&AccountInfo>) -> Option<AccountView> {
    match source_info {
        Some(source) => Some(source@),
        None => None,
    }
}

/// Processes a `Deploy` instruction at slot `current_slot`: makes a
/// retracted program executable, after taking over the buffer of the
/// source if one is given.
///
/// The image itself is not looked at: whether it can run is for the host
/// to find out, which runs it from `effective_slot` of the deployment on.
///
/// Accounts: the program; its authority; optionally the source, which is
/// closed.
pub fn process_deploy(
    program_id: &Pubkey,
    accounts: &mut [AccountInfo],
    rent: &Rent,
    current_slot: u64,
) -> (result: Result<(), LoaderV4Error>)
    ensures
        spec_outcome(
            spec_deploy(program_id@, views(old(accounts)@), *rent, current_slot),
            result,
            views(old(accounts)@),
            views(final(accounts)@),
        ),
{
    if accounts.len() < 2 {
        return Err(LoaderV4Error::NotEnoughAccountKeys);
    }
    let source_info = if accounts.len() >= 3 {
        Some(&accounts[2])
    } else {
        None
    };
    let state = check_deploy_admission(
        program_id,
        &accounts[0],
        &accounts[1],
        source_info,
        current_slot,
    )?;
    let deployed = LoaderV4State {
        slot: current_slot,
        authority_address_or_next_version: state.authority_address_or_next_version,
        status: LoaderV4Status::Deployed,
    };
    if accounts.len() >= 3 {
        let source_len = accounts[2].data.len();
        let required_lamports = match checked_minimum_balance(rent, source_len) {
            Some(lamports) => lamports,
            None => {
                return Err(LoaderV4Error::ArithmeticOverflow);
            },
        };
        let program_lamports = accounts[0].lamports;
        let transfer_lamports = if required_lamports > program_lamports {
            required_lamports - program_lamports
        } else {
            0
        };
        if accounts[2].lamports < transfer_lamports {
            return Err(LoaderV4Error::InsufficientFunds);
        }
        let program_len = accounts[0].data.len();
        let mut image: Vec<u8> = Vec::new();
        image.extend_from_slice(accounts[2].data.as_slice());
        if program_len > source_len {
            image.extend_from_slice(
                slice_subrange(accounts[0].data.as_slice(), source_len, program_len),
            );
        }
        assert(image@ =~= spec_overlay(accounts@[0].data@, accounts@[2].data@));
        let source_lamports = accounts[2].lamports;
        accounts[0].data = image;
        accounts[0].lamports = program_lamports + transfer_lamports;
        accounts[2].data.truncate(0);
        accounts[2].lamports = source_lamports - transfer_lamports;
        assert(accounts@[2].data@ =~= Seq::<u8>::empty());
    }
    set_header(accounts, &deployed);
    assert(views(accounts@) =~= spec_deploy(
        program_id@,
        views(old(accounts)@),
        *rent,
        current_slot,
    )->Ok_0);
    Ok(())
}

/// Processes a `Retract` instruction at slot `current_slot`: takes a
/// deployed program back into maintenance once its cooldown has passed.
///
/// Accounts: the program; its authority.
pub fn process_retract(program_id: &Pubkey, accounts: &mut [AccountInfo], current_slot: u64) -> (result:
    Result<(), LoaderV4Error>)
    ensures
        spec_outcome(
            spec_retract(program_id@, views(old(accounts)@), current_slot),
            result,
            views(old(accounts)@),
            views(final(accounts)@),
        ),
{
    if accounts.len() < 2 {
        return Err(LoaderV4Error::NotEnoughAccountKeys);
    }
    let state = check_program_account(program_id, &accounts[0], &accounts[1])?;
    if cooldown_active(state.slot, current_slot) {
        return Err(LoaderV4Error::CooldownActive);
    }
    if state.status != LoaderV4Status::Deployed {
        return Err(LoaderV4Error::NotDeployed);
    }
    let retracted = LoaderV4State {
        slot: state.slot,
        authority_address_or_next_version: state.authority_address_or_next_version,
        status: LoaderV4Status::Retracted,
    };
    set_header(accounts, &retracted);
    Ok(())
}

/// Processes a `TransferAuthority` instruction: hands the program to a
/// new authority, which must sign as well.
///
/// Accounts: the program; its authority; the new authority.
pub fn process_transfer_authority(program_id: &Pubkey, accounts: &mut [AccountInfo]) -> (result:
    Result<(), LoaderV4Error>)
    ensures
        spec_outcome(
            spec_transfer_authority(program_id@, views(old(accounts)@)),
            result,
            views(old(accounts)@),
            views(final(accounts)@),
        ),
{
    if accounts.len() < 3 {
        return Err(LoaderV4Error::NotEnoughAccountKeys);
    }
    let state = check_program_account(program_id, &accounts[0], &accounts[1])?;
    if !accounts[2].is_signer {
        return Err(LoaderV4Error::MissingSignature);
    }
    if state.authority_address_or_next_version == accounts[2].key {
        return Err(LoaderV4Error::NoChange);
    }
    let transferred = LoaderV4State {
        slot: state.slot,
        authority_address_or_next_version: accounts[2].key,
        status: state.status,
    };
    set_header(accounts, &transferred);
    Ok(())
}

/// Processes a `Finalize` instruction: freezes a deployed program for
/// good and records its next version in place of the authority.
///
/// Accounts: the program; its authority; the next version, which can be
/// the program itself.
pub fn process_finalize(program_id: &Pubkey, accounts: &mut [AccountInfo]) -> (result: Result<
    (),
    LoaderV4Error,
>)
    ensures
        spec_outcome(
            spec_finalize(program_id@, views(old(accounts)@)),
            result,
            views(old(accounts)@),
            views(final(accounts)@),
        ),
{
    if accounts.len() < 3 {
        return Err(LoaderV4Error::NotEnoughAccountKeys);
    }
    let state = check_program_account(program_id, &accounts[0], &accounts[1])?;
    if state.status != LoaderV4Status::Deployed {
        return Err(LoaderV4Error::NotDeployed);
    }
    if accounts[2].owner != *program_id {
        return Err(LoaderV4Error::WrongOwner);
    }
    let next_state = LoaderV4State::unpack(accounts[2].data.as_slice())?;
    if next_state.authority_address_or_next_version != accounts[1].key {
        return Err(LoaderV4Error::WrongAuthority);
    }
    if next_state.status == LoaderV4Status::Finalized {
        return Err(LoaderV4Error::Immutable);
    }
    let finalized = LoaderV4State {
        slot: state.slot,
        authority_address_or_next_version: accounts[2].key,
        status: LoaderV4Status::Finalized,
    };
    set_header(accounts, &finalized);
    Ok(())
}

/// Whether processing `instruction` on these accounts looks at the
/// clock. Where it does not, any slot can be handed to `process`.
pub fn reads_clock(
    program_id: &Pubkey,
    accounts: &[AccountInfo],
    instruction: &LoaderV4Instruction,
) -> (reads: bool)
    ensures
        reads == spec_reads_clock(program_id@, views(accounts@), instruction@),
{
    match instruction {
        LoaderV4Instruction::Deploy | LoaderV4Instruction::Retract => accounts.len() >= 2
            && check_program_account(program_id, &accounts[0], &accounts[1]).is_ok(),
        _ => false,
    }
}

/// Whether processing `instruction` on these accounts at slot
/// `current_slot` looks at the rent schedule. Where it does not, any
/// schedule can be handed to `process`.
pub fn reads_rent(
    program_id: &Pubkey,
    accounts: &[AccountInfo],
    instruction: &LoaderV4Instruction,
    current_slot: u64,
) -> (reads: bool)
    ensures
        reads == spec_reads_rent(program_id@, views(accounts@), instruction@, current_slot),
{
    match instruction {
        LoaderV4Instruction::Truncate { new_size } => *new_size > 0 && accounts.len() >= 2
            && check_truncate_admission(program_id, &accounts[0], &accounts[1], *new_size).is_ok(),
        LoaderV4Instruction::Deploy => accounts.len() >= 3 && check_deploy_admission(
            program_id,
            &accounts[0],
            &accounts[1],
            Some(&accounts[2]),
            current_slot,
        ).is_ok(),
        _ => false,
    }
}

/// Decodes `input` and processes the instruction it holds, under the
/// rent schedule `rent` and at slot `current_slot`.
pub fn process(
    program_id: &Pubkey,
    accounts: &mut [AccountInfo],
    input: &[u8],
    rent: &Rent,
    current_slot: u64,
) -> (result: Result<(), LoaderV4Error>)
    ensures
        spec_outcome(
            spec_process(program_id@, views(old(accounts)@), input@, *rent, current_slot),
            result,
            views(old(accounts)@),
            views(final(accounts)@),
        ),
{
    let instruction = LoaderV4Instruction::deserialize(input)?;
    match instruction {
        LoaderV4Instruction::Write { offset, bytes } => process_write(
            program_id,
            accounts,
            offset,
            bytes,
        ),
        LoaderV4Instruction::Truncate { new_size } => process_truncate(
            program_id,
            accounts,
            new_size,
            rent,
        ),
        LoaderV4Instruction::Deploy => process_deploy(program_id, accounts, rent, current_slot),
        LoaderV4Instruction::Retract => process_retract(program_id, accounts, current_slot),
        LoaderV4Instruction::TransferAuthority => process_transfer_authority(program_id, accounts),
        LoaderV4Instruction::Finalize => process_finalize(program_id, accounts),
    }
}

} // verus!
