//! Building a `Finalize` instruction.
use vstd::prelude::*;
use crate::instruction::{AccountMeta, Instruction, InstructionView};
use crate::pubkey::Pubkey;

verus! {

/// The accounts of a `Finalize` instruction.
pub struct Finalize {
    /// Program account to finalize.
    pub program: Pubkey,
    /// Program authority.
    pub authority: Pubkey,
    /// The next version of the program (can be itself).
    pub next_version: Pubkey,
}

impl Finalize {
    /// The account list of the instruction: the program as writable, the
    /// authority as signer, the next version read-only.
    pub open spec fn spec_accounts(self) -> Seq<AccountMeta> {
        seq![
            AccountMeta { pubkey: self.program, is_signer: false, is_writable: true },
            AccountMeta { pubkey: self.authority, is_signer: true, is_writable: false },
            AccountMeta { pubkey: self.next_version, is_signer: false, is_writable: false },
        ]
    }

    /// The instruction on these accounts.
    pub fn instruction(&self) -> (instruction: Instruction)
        ensures
            instruction.is_loader_call(InstructionView::Finalize, self.spec_accounts()),
    {
        let remaining_accounts: Vec<AccountMeta> = Vec::new();
        let instruction = self.instruction_with_remaining_accounts(remaining_accounts.as_slice());
        assert(self.spec_accounts() + remaining_accounts@ =~= self.spec_accounts());
        instruction
    }

    /// The instruction on these accounts, followed by
    /// `remaining_accounts`.
    pub fn instruction_with_remaining_accounts(&self, remaining_accounts: &[AccountMeta]) -> (instruction:
        Instruction)
        ensures
            instruction.is_loader_call(
                InstructionView::Finalize,
                self.spec_accounts() + remaining_accounts@,
            ),
    {
        let mut accounts: Vec<AccountMeta> = Vec::new();
        accounts.push(AccountMeta::new(self.program, false));
        accounts.push(AccountMeta::new_readonly(self.authority, true));
        accounts.push(AccountMeta::new_readonly(self.next_version, false));
        let mut i: usize = 0;
        while i < remaining_accounts.len()
            invariant
                i <= remaining_accounts@.len(),
                accounts@ == self.spec_accounts() + remaining_accounts@.subrange(0, i as int),
            decreases remaining_accounts@.len() - i,
        {
            accounts.push(remaining_accounts[i]);
            i += 1;
        }
        assert(remaining_accounts@.subrange(0, i as int) =~= remaining_accounts@);
        let data = FinalizeInstructionData::new().to_vec();
        Instruction { program_id: crate::id(), accounts, data }
    }
}

/// The tag that makes up the bytes of a `Finalize` instruction: its
/// opcode, one byte as for every instruction.
pub struct FinalizeInstructionData {
    discriminator: u8,
}

impl FinalizeInstructionData {
    /// The tag's value.
    pub closed spec fn spec_discriminator(self) -> u8 {
        self.discriminator
    }

    /// The tag of `Finalize`: five.
    pub fn new() -> (data: Self)
        ensures
            data.spec_discriminator() == 5,
    {
        Self { discriminator: 5 }
    }

    /// The tag's byte.
    pub fn to_vec(&self) -> (bytes: Vec<u8>)
        ensures
            bytes@ == seq![self.spec_discriminator()],
    {
        let mut bytes: Vec<u8> = Vec::new();
        bytes.push(self.discriminator);
        assert(bytes@ =~= seq![self.spec_discriminator()]);
        bytes
    }
}

impl Default for FinalizeInstructionData {
    fn default() -> (data: Self)
        ensures
            data.spec_discriminator() == 5,
    {
        Self::new()
    }
}

/// What has been set on a `FinalizeBuilder`.
pub ghost struct FinalizeBuilderView {
    pub program: Option<Pubkey>,
    pub authority: Option<Pubkey>,
    pub next_version: Option<Pubkey>,
    pub remaining_accounts: Seq<AccountMeta>,
}

impl FinalizeBuilderView {
    /// Whether everything an instruction needs has been set.
    pub open spec fn complete(self) -> bool {
        self.program is Some && self.authority is Some && self.next_version is Some
    }

    /// The accounts struct that the builder stands for.
    pub open spec fn spec_accounts(self) -> Finalize {
        Finalize {
            program: self.program->Some_0,
            authority: self.authority->Some_0,
            next_version: self.next_version->Some_0,
        }
    }
}

/// Builds a `Finalize` instruction step by step.
///
/// Accounts:
/// 0. `[writable]` program
/// 1. `[signer]` authority
/// 2. `[]` next_version
#[derive(Clone, Debug)]
pub struct FinalizeBuilder {
    program: Option<Pubkey>,
    authority: Option<Pubkey>,
    next_version: Option<Pubkey>,
    remaining_accounts: Vec<AccountMeta>,
}

impl View for FinalizeBuilder {
    type V = FinalizeBuilderView;

    closed spec fn view(&self) -> FinalizeBuilderView {
        FinalizeBuilderView {
            program: self.program,
            authority: self.authority,
            next_version: self.next_version,
            remaining_accounts: self.remaining_accounts@,
        }
    }
}

impl FinalizeBuilder {
    /// A builder with nothing set.
    pub fn new() -> (builder: Self)
        ensures
            builder@ == (FinalizeBuilderView {
                program: None,
                authority: None,
                next_version: None,
                remaining_accounts: Seq::empty(),
            }),
    {
        Self { program: None, authority: None, next_version: None, remaining_accounts: Vec::new() }
    }

    /// Sets the program account to finalize.
    pub fn program(&mut self, program: Pubkey) -> (builder: &mut Self)
        ensures
            builder@ == (FinalizeBuilderView { program: Some(program), ..old(self)@ }),
            *final(self) == *final(builder),
    {
        self.program = Some(program);
        self
    }

    /// Sets the program authority.
    pub fn authority(&mut self, authority: Pubkey) -> (builder: &mut Self)
        ensures
            builder@ == (FinalizeBuilderView { authority: Some(authority), ..old(self)@ }),
            *final(self) == *final(builder),
    {
        self.authority = Some(authority);
        self
    }

    /// Sets the next version of the program (can be the program itself).
    pub fn next_version(&mut self, next_version: Pubkey) -> (builder: &mut Self)
        ensures
            builder@ == (FinalizeBuilderView { next_version: Some(next_version), ..old(self)@ }),
            *final(self) == *final(builder),
    {
        self.next_version = Some(next_version);
        self
    }

    /// Adds an account after those the instruction takes.
    pub fn add_remaining_account(&mut self, account: AccountMeta) -> (builder: &mut Self)
        ensures
            builder@ == (FinalizeBuilderView {
                remaining_accounts: old(self)@.remaining_accounts.push(account),
                ..old(self)@
            }),
            *final(self) == *final(builder),
    {
        self.remaining_accounts.push(account);
        self
    }

    /// Adds accounts after those the instruction takes.
    pub fn add_remaining_accounts(&mut self, accounts: &[AccountMeta]) -> (builder: &mut Self)
        ensures
            builder@ == (FinalizeBuilderView {
                remaining_accounts: old(self)@.remaining_accounts + accounts@,
                ..old(self)@
            }),
            *final(self) == *final(builder),
    {
        let ghost before = self.remaining_accounts@;
        let mut i: usize = 0;
        while i < accounts.len()
            invariant
                i <= accounts@.len(),
                self.program == old(self).program,
                self.authority == old(self).authority,
                self.next_version == old(self).next_version,
                before == old(self).remaining_accounts@,
                self.remaining_accounts@ == before + accounts@.subrange(0, i as int),
            decreases accounts@.len() - i,
        {
            self.remaining_accounts.push(accounts[i]);
            i += 1;
        }
        assert(accounts@.subrange(0, i as int) =~= accounts@);
        self
    }

    /// The instruction that has been built. Program, authority and next
    /// version must have been set.
    pub fn instruction(&self) -> (instruction: Instruction)
        requires
            self@.complete(),
        ensures
            instruction.is_loader_call(
                InstructionView::Finalize,
                self@.spec_accounts().spec_accounts() + self@.remaining_accounts,
            ),
    {
        let accounts = Finalize {
            program: self.program.unwrap(),
            authority: self.authority.unwrap(),
            next_version: self.next_version.unwrap(),
        };
        accounts.instruction_with_remaining_accounts(self.remaining_accounts.as_slice())
    }
}

impl Default for FinalizeBuilder {
    fn default() -> (builder: Self)
        ensures
            builder@ == (FinalizeBuilderView {
                program: None,
                authority: None,
                next_version: None,
                remaining_accounts: Seq::empty(),
            }),
    {
        Self::new()
    }
}

} // verus!
