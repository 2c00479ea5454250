//! The version-four program loader: the lifecycle of versioned, resizable
//! program images kept in fixed-layout accounts.
//!
//! A program account starts empty, is initialized and sized by `Truncate`,
//! filled by `Write`, made executable by `Deploy`, taken back into
//! maintenance by `Retract`, handed over by `TransferAuthority` and frozen
//! for good by `Finalize`. Every operation either applies in full or
//! leaves all accounts untouched.
use vstd::prelude::*;

pub mod account;
pub mod bytes;
pub mod client;
pub mod error;
pub mod instruction;
pub mod laws;
pub mod model;
pub mod processor;
pub mod pubkey;
pub mod rent;
pub mod state;

verus! {

/// The bytes of the loader's own address,
/// `LoaderV411111111111111111111111111111111111`.
pub open spec fn spec_id() -> Seq<u8> {
    seq![
        5u8, 18, 180, 17, 81, 81, 227, 122, 173, 10, 139, 197, 211, 136, 46, 123,
        127, 218, 76, 243, 210, 192, 40, 200, 207, 131, 54, 24, 0, 0, 0, 0,
    ]
}

/// The loader's own address.
pub fn id() -> (key: pubkey::Pubkey)
    ensures
        key@ == spec_id(),
{
    let key = pubkey::Pubkey(
        [
            5, 18, 180, 17, 81, 81, 227, 122, 173, 10, 139, 197, 211, 136, 46, 123,
            127, 218, 76, 243, 210, 192, 40, 200, 207, 131, 54, 24, 0, 0, 0, 0,
        ],
    );
    assert(key@ =~= spec_id());
    key
}

/// Whether `key` is the loader's own address.
pub fn check_id(key: &pubkey::Pubkey) -> (is_loader: bool)
    ensures
        is_loader == (key@ == spec_id()),
{
    let loader = id();
    *key == loader
}

} // verus!
