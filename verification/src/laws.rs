//! What holds of the loader's operations whatever the accounts are.
//!
//! The laws are stated of `spec_apply` and the functions it is made of.
//! Every executable operation is proved to act as its model does, and
//! `process` to apply the instruction that its input decodes to, so each
//! law holds of every call. Accounts are taken by their views; the views
//! of real accounts are well-formed (`lemma_views_wf`).
use vstd::prelude::*;
use solana_program::rent::Rent;
use crate::account::{all_wf, AccountView};
use crate::error::LoaderV4Error;
use crate::instruction::InstructionView;
use crate::model::{
    spec_apply, spec_check_program_account, spec_deploy, spec_overlay, spec_reads_clock,
    spec_reads_rent, spec_retract, spec_transfer_authority, spec_truncate, spec_truncated_data,
};
use crate::rent::{rent_minimum_balance, spec_checked_minimum_balance, spec_required_balance};
use crate::state::{
    lemma_pack_then_unpack, lemma_unpack_then_pack, spec_payload, spec_unpack, LoaderV4StateView,
    LoaderV4Status, DEPLOYMENT_COOLDOWN_IN_SLOTS,
};

verus! {

/// The stations of an account's life.
pub ghost enum Lifecycle {
    /// The buffer holds no header.
    Uninitialized,
    /// The header says retracted.
    Retracted,
    /// The header says deployed.
    Deployed,
    /// The header says finalized.
    Finalized,
}

/// Where a buffer stands; `None` for a buffer whose header cannot be read.
pub open spec fn spec_lifecycle(data: Seq<u8>) -> Option<Lifecycle> {
    if data.len() < 48 {
        Some(Lifecycle::Uninitialized)
    } else {
        match spec_unpack(data) {
            Ok(state) => Some(
                match state.status {
                    LoaderV4Status::Retracted => Lifecycle::Retracted,
                    LoaderV4Status::Deployed => Lifecycle::Deployed,
                    LoaderV4Status::Finalized => Lifecycle::Finalized,
                },
            ),
            Err(_) => None,
        }
    }
}

/// The steps an account can take: it is initialized into retracted;
/// a retracted account stays, is deployed or is closed; a deployed one
/// stays, is retracted or is finalized. Nothing follows finalized.
pub open spec fn spec_may_follow(before: Lifecycle, after: Lifecycle) -> bool {
    match before {
        Lifecycle::Uninitialized => after is Retracted,
        Lifecycle::Retracted => after is Retracted || after is Deployed || after is Uninitialized,
        Lifecycle::Deployed => after is Deployed || after is Retracted || after is Finalized,
        Lifecycle::Finalized => false,
    }
}

/// Every successful operation moves the program account one permitted
/// step along its lifecycle, and only `Finalize`, applied to a deployed
/// program, ends in finalized. The account is left empty or with a
/// header, never with less than a header.
pub proof fn lemma_status_transitions(
    program_id: Seq<u8>,
    accounts: Seq<AccountView>,
    instruction: InstructionView,
    rent: Rent,
    now: u64,
)
    requires
        all_wf(accounts),
        spec_apply(program_id, accounts, instruction, rent, now) is Ok,
    ensures
        ({
            let after = spec_apply(program_id, accounts, instruction, rent, now)->Ok_0;
            &&& accounts.len() >= 2
            &&& after.len() == accounts.len()
            &&& spec_lifecycle(accounts[0].data) is Some
            &&& spec_lifecycle(after[0].data) is Some
            &&& spec_may_follow(
                spec_lifecycle(accounts[0].data)->Some_0,
                spec_lifecycle(after[0].data)->Some_0,
            )
            &&& spec_lifecycle(after[0].data) == Some(Lifecycle::Finalized) ==> instruction is Finalize
                && spec_lifecycle(accounts[0].data) == Some(Lifecycle::Deployed)
            &&& after[0].data.len() == 0 || after[0].data.len() >= 48
        }),
{
    let after = spec_apply(program_id, accounts, instruction, rent, now)->Ok_0;
    let program = accounts[0];
    let authority = accounts[1];
    match instruction {
        InstructionView::Truncate { new_size } => {
            if new_size != 0 {
                if program.data.len() < 48 {
                    let fresh = LoaderV4StateView {
                        slot: 0,
                        authority_address_or_next_version: authority.key,
                        status: LoaderV4Status::Retracted,
                    };
                    lemma_pack_then_unpack(fresh, Seq::new(new_size as nat, |i: int| 0u8));
                } else {
                    // The header's bytes survive the resize.
                    assert(after[0].data.subrange(40, 48) =~= program.data.subrange(40, 48));
                }
            }
        },
        InstructionView::Write { .. } => {
            // The write lies wholly behind the header.
            assert(after[0].data.subrange(40, 48) =~= program.data.subrange(40, 48));
        },
        _ => {
            lemma_header_replaced(program_id, accounts, instruction, rent, now);
        },
    }
}

/// A successful operation changes the buffer of no account but the
/// program's, except that `Deploy` closes its source, which was
/// retracted.
pub proof fn lemma_other_accounts_keep_their_status(
    program_id: Seq<u8>,
    accounts: Seq<AccountView>,
    instruction: InstructionView,
    rent: Rent,
    now: u64,
    position: int,
)
    requires
        spec_apply(program_id, accounts, instruction, rent, now) is Ok,
        1 <= position < accounts.len(),
    ensures
        ({
            let after = spec_apply(program_id, accounts, instruction, rent, now)->Ok_0;
            if instruction is Deploy && position == 2 {
                &&& spec_lifecycle(accounts[2].data) == Some(Lifecycle::Retracted)
                &&& spec_lifecycle(after[2].data) == Some(Lifecycle::Uninitialized)
                &&& after[2].data.len() == 0
            } else {
                after[position].data == accounts[position].data
            }
        }),
{
}

/// No operation changes a finalized account: with a finalized program
/// every operation fails, and a finalized account in any other position
/// keeps its buffer.
pub proof fn lemma_finalized_is_terminal(
    program_id: Seq<u8>,
    accounts: Seq<AccountView>,
    instruction: InstructionView,
    rent: Rent,
    now: u64,
    position: int,
)
    requires
        0 <= position < accounts.len(),
        spec_lifecycle(accounts[position].data) == Some(Lifecycle::Finalized),
    ensures
        position == 0 ==> spec_apply(program_id, accounts, instruction, rent, now) is Err,
        spec_apply(program_id, accounts, instruction, rent, now) matches Ok(after)
            ==> after[position].data == accounts[position].data,
{
}

/// After a successful `Truncate` the program account holds exactly what
/// its new size requires and has exactly that size; what it held beyond
/// went to the destination in full.
pub proof fn lemma_truncate_balance(
    program_id: Seq<u8>,
    accounts: Seq<AccountView>,
    new_size: u32,
    rent: Rent,
)
    requires
        all_wf(accounts),
        spec_truncate(program_id, accounts, new_size, rent) is Ok,
    ensures
        ({
            let after = spec_truncate(program_id, accounts, new_size, rent)->Ok_0;
            &&& spec_required_balance(rent, new_size) == Some(after[0].lamports)
            &&& after[0].data.len() == if new_size == 0 {
                0
            } else {
                48 + new_size
            }
            &&& spec_payload(after[0].data).len() == new_size
            &&& after[0].lamports <= accounts[0].lamports
            &&& after[0].lamports < accounts[0].lamports ==> accounts.len() >= 3 && after[2].lamports
                == accounts[2].lamports + (accounts[0].lamports - after[0].lamports)
        }),
{
    if new_size != 0 && accounts[0].data.len() < 48 {
        lemma_pack_then_unpack(
            LoaderV4StateView {
                slot: 0,
                authority_address_or_next_version: accounts[1].key,
                status: LoaderV4Status::Retracted,
            },
            Seq::new(new_size as nat, |i: int| 0u8),
        );
    }
}

/// After a successful `Deploy` from a source the program account holds
/// its old balance or the rent-exempt minimum of the source's length,
/// whichever is more, and what it gained left the source. Without a
/// source no balance changes.
pub proof fn lemma_deploy_balance(
    program_id: Seq<u8>,
    accounts: Seq<AccountView>,
    rent: Rent,
    now: u64,
)
    requires
        spec_deploy(program_id, accounts, rent, now) is Ok,
    ensures
        ({
            let after = spec_deploy(program_id, accounts, rent, now)->Ok_0;
            if accounts.len() >= 3 {
                let minimum = rent_minimum_balance(rent, accounts[2].data.len() as usize);
                &&& spec_checked_minimum_balance(rent, accounts[2].data.len() as int) == Some(
                    minimum,
                )
                &&& after[0].lamports == if accounts[0].lamports < minimum {
                    minimum
                } else {
                    accounts[0].lamports
                }
                &&& after[0].lamports + after[2].lamports == accounts[0].lamports
                    + accounts[2].lamports
            } else {
                after[0].lamports == accounts[0].lamports
            }
        }),
{
}

/// After a successful `Deploy` from a source that is no shorter than the
/// program and holds an image, into a program that held no more than the
/// source's length requires, the program account holds exactly what its
/// new size requires.
pub proof fn lemma_deploy_balance_is_required(
    program_id: Seq<u8>,
    accounts: Seq<AccountView>,
    rent: Rent,
    now: u64,
)
    requires
        spec_deploy(program_id, accounts, rent, now) is Ok,
        accounts.len() >= 3,
        accounts[0].data.len() <= accounts[2].data.len(),
        48 < accounts[2].data.len() <= 48 + u32::MAX,
        accounts[0].lamports <= rent_minimum_balance(rent, accounts[2].data.len() as usize),
        1 <= rent_minimum_balance(rent, accounts[2].data.len() as usize),
    ensures
        ({
            let after = spec_deploy(program_id, accounts, rent, now)->Ok_0;
            &&& after[0].data.len() == accounts[2].data.len()
            &&& spec_required_balance(rent, (after[0].data.len() - 48) as u32) == Some(
                after[0].lamports,
            )
        }),
{
    let state = spec_check_program_account(program_id, accounts[0], accounts[1])->Ok_0;
    lemma_unpack_then_pack(accounts[0].data);
    lemma_pack_then_unpack(
        LoaderV4StateView { slot: now, status: LoaderV4Status::Deployed, ..state },
        spec_payload(spec_overlay(accounts[0].data, accounts[2].data)),
    );
}

/// `Deploy` fails with `CooldownActive` exactly when the program passes
/// the precondition check, was deployed before, and fewer than the
/// cooldown's slots have passed since. A program that was never deployed
/// (slot zero) is never held back, whatever the clock reads.
pub proof fn lemma_deploy_cooldown(
    program_id: Seq<u8>,
    accounts: Seq<AccountView>,
    rent: Rent,
    now: u64,
)
    ensures
        spec_deploy(program_id, accounts, rent, now) == Err::<Seq<AccountView>, _>(
            LoaderV4Error::CooldownActive,
        ) <==> accounts.len() >= 2 && (spec_check_program_account(
            program_id,
            accounts[0],
            accounts[1],
        ) matches Ok(state) && state.slot != 0 && state.slot + DEPLOYMENT_COOLDOWN_IN_SLOTS > now),
        accounts.len() >= 2 && (spec_check_program_account(program_id, accounts[0], accounts[1])
            matches Ok(state) && state.slot == 0) ==> spec_deploy(program_id, accounts, rent, now)
            != Err::<Seq<AccountView>, _>(LoaderV4Error::CooldownActive),
{
}

/// `Retract` fails with `CooldownActive` exactly when the program passes
/// the precondition check and fewer than the cooldown's slots have passed
/// since its slot. Slot zero is no exception here.
pub proof fn lemma_retract_cooldown(program_id: Seq<u8>, accounts: Seq<AccountView>, now: u64)
    ensures
        spec_retract(program_id, accounts, now) == Err::<Seq<AccountView>, _>(
            LoaderV4Error::CooldownActive,
        ) <==> accounts.len() >= 2 && (spec_check_program_account(
            program_id,
            accounts[0],
            accounts[1],
        ) matches Ok(state) && state.slot + DEPLOYMENT_COOLDOWN_IN_SLOTS > now),
{
}

/// Unless the program has slot zero and the clock has not yet reached the
/// cooldown's length, `Retract` fails with `CooldownActive` exactly when
/// the slot is not zero and fewer than the cooldown's slots have passed
/// since.
pub proof fn lemma_retract_cooldown_after_deployment(
    program_id: Seq<u8>,
    accounts: Seq<AccountView>,
    now: u64,
    state: LoaderV4StateView,
)
    requires
        accounts.len() >= 2,
        spec_check_program_account(program_id, accounts[0], accounts[1]) == Ok::<
            _,
            LoaderV4Error,
        >(state),
        !(state.slot == 0 && now < DEPLOYMENT_COOLDOWN_IN_SLOTS),
    ensures
        spec_retract(program_id, accounts, now) == Err::<Seq<AccountView>, _>(
            LoaderV4Error::CooldownActive,
        ) <==> state.slot != 0 && state.slot + DEPLOYMENT_COOLDOWN_IN_SLOTS > now,
{
}

/// An operation that does not look at the clock comes out the same at
/// every slot.
pub proof fn lemma_clock_unread(
    program_id: Seq<u8>,
    accounts: Seq<AccountView>,
    instruction: InstructionView,
    rent: Rent,
    now: u64,
    other: u64,
)
    requires
        !spec_reads_clock(program_id, accounts, instruction),
    ensures
        spec_apply(program_id, accounts, instruction, rent, now) == spec_apply(
            program_id,
            accounts,
            instruction,
            rent,
            other,
        ),
{
}

/// An operation that does not look at the rent schedule comes out the
/// same under every schedule.
pub proof fn lemma_rent_unread(
    program_id: Seq<u8>,
    accounts: Seq<AccountView>,
    instruction: InstructionView,
    rent: Rent,
    other: Rent,
    now: u64,
)
    requires
        !spec_reads_rent(program_id, accounts, instruction, now),
    ensures
        spec_apply(program_id, accounts, instruction, rent, now) == spec_apply(
            program_id,
            accounts,
            instruction,
            other,
            now,
        ),
{
}

/// `TransferAuthority` to the authority that the program already has
/// never succeeds: once the precondition check has passed and the new
/// authority has signed, it fails with `NoChange`.
pub proof fn lemma_transfer_to_same_authority(program_id: Seq<u8>, accounts: Seq<AccountView>)
    requires
        accounts.len() >= 3,
        spec_unpack(accounts[0].data) matches Ok(state) && state.authority_address_or_next_version
            == accounts[2].key,
    ensures
        spec_transfer_authority(program_id, accounts) is Err,
        spec_check_program_account(program_id, accounts[0], accounts[1]) is Ok
            && accounts[2].is_signer ==> spec_transfer_authority(program_id, accounts) == Err::<
            Seq<AccountView>,
            _,
        >(LoaderV4Error::NoChange),
{
}

/// After a successful operation that only rewrites the header, the
/// program's buffer is the new header before the old payload.
proof fn lemma_header_replaced(
    program_id: Seq<u8>,
    accounts: Seq<AccountView>,
    instruction: InstructionView,
    rent: Rent,
    now: u64,
)
    requires
        all_wf(accounts),
        spec_apply(program_id, accounts, instruction, rent, now) is Ok,
        !(instruction is Write),
        !(instruction is Truncate),
    ensures
        ({
            let after = spec_apply(program_id, accounts, instruction, rent, now)->Ok_0;
            let state = spec_check_program_account(program_id, accounts[0], accounts[1])->Ok_0;
            &&& spec_unpack(after[0].data) is Ok
            &&& spec_unpack(after[0].data)->Ok_0.slot == if instruction is Deploy {
                now
            } else {
                state.slot
            }
            &&& spec_unpack(after[0].data)->Ok_0.status == match instruction {
                InstructionView::Deploy => LoaderV4Status::Deployed,
                InstructionView::Retract => LoaderV4Status::Retracted,
                InstructionView::Finalize => LoaderV4Status::Finalized,
                _ => state.status,
            }
        }),
{
    let state = spec_check_program_account(program_id, accounts[0], accounts[1])->Ok_0;
    lemma_unpack_then_pack(accounts[0].data);
    let payload = if instruction is Deploy && accounts.len() >= 3 {
        spec_payload(spec_overlay(accounts[0].data, accounts[2].data))
    } else {
        spec_payload(accounts[0].data)
    };
    match instruction {
        InstructionView::Deploy => {
            lemma_pack_then_unpack(
                LoaderV4StateView {
                    slot: now,
                    status: LoaderV4Status::Deployed,
                    ..state
                },
                payload,
            );
        },
        InstructionView::Retract => {
            lemma_pack_then_unpack(
                LoaderV4StateView { status: LoaderV4Status::Retracted, ..state },
                payload,
            );
        },
        InstructionView::TransferAuthority => {
            lemma_pack_then_unpack(
                LoaderV4StateView {
                    authority_address_or_next_version: accounts[2].key,
                    ..state
                },
                payload,
            );
        },
        InstructionView::Finalize => {
            lemma_pack_then_unpack(
                LoaderV4StateView {
                    authority_address_or_next_version: accounts[2].key,
                    status: LoaderV4Status::Finalized,
                    ..state
                },
                payload,
            );
        },
        _ => {},
    }
}

} // verus!
