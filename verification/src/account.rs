//! Accounts as the host hands them to the loader.
use vstd::prelude::*;
use crate::pubkey::Pubkey;

verus! {

/// One account of an instruction: its address and owner, its balance and
/// data, and how the instruction refers to it.
///
/// The loader works on the value it is given. The caller loads it from
/// storage before the call and stores it back after a success.
#[derive(Clone, Debug, PartialEq, Eq)]
pub struct AccountInfo {
    /// Address of the account.
    pub key: Pubkey,
    /// Program that owns the account.
    pub owner: Pubkey,
    /// Balance in lamports.
    pub lamports: u64,
    /// The account's buffer: empty, or a header followed by an image.
    pub data: Vec<u8>,
    /// Whether the account signed the transaction.
    pub is_signer: bool,
    /// Whether the instruction may change the account.
    pub is_writable: bool,
}

/// An account as contracts see it.
pub ghost struct AccountView {
    pub key: Seq<u8>,
    pub owner: Seq<u8>,
    pub lamports: u64,
    pub data: Seq<u8>,
    pub is_signer: bool,
    pub is_writable: bool,
}

impl View for AccountInfo {
    type V = AccountView;

    open spec fn view(&self) -> AccountView {
        AccountView {
            key: self.key@,
            owner: self.owner@,
            lamports: self.lamports,
            data: self.data@,
            is_signer: self.is_signer,
            is_writable: self.is_writable,
        }
    }
}

impl AccountView {
    /// Both addresses hold thirty-two bytes, as every address does.
    pub open spec fn wf(self) -> bool {
        self.key.len() == 32 && self.owner.len() == 32
    }
}

/// Whether every account of the list is well-formed.
pub open spec fn all_wf(accounts: Seq<AccountView>) -> bool {
    forall|i: int| 0 <= i < accounts.len() ==> (#[trigger] accounts[i]).wf()
}

/// The views of accounts are well-formed.
pub proof fn lemma_views_wf(accounts: Seq<AccountInfo>)
    ensures
        all_wf(views(accounts)),
{
    assert forall|i: int| 0 <= i < accounts.len() implies (#[trigger] views(accounts)[i]).wf() by {
        crate::pubkey::Pubkey::lemma_view(accounts[i].key, accounts[i].owner);
        crate::pubkey::Pubkey::lemma_view(accounts[i].owner, accounts[i].key);
    }
}

/// The views of a list of accounts, position by position.
pub open spec fn views(accounts: Seq<AccountInfo>) -> Seq<AccountView> {
    Seq::new(accounts.len(), |i: int| accounts[i]@)
}

} // verus!
