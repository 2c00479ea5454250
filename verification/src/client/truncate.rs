//! Building a `Truncate` instruction.
use vstd::prelude::*;
use crate::bytes::{spec_u32_to_le_bytes, u32_to_le_bytes};
use crate::instruction::{spec_truncate_accounts, AccountMeta, Instruction, InstructionView};
use crate::pubkey::Pubkey;

verus! {

/// The accounts of a `Truncate` instruction.
pub struct Truncate {
    /// Program account to change the size of.
    pub program: Pubkey,
    /// Program authority.
    pub authority: Pubkey,
    /// Destination account for reclaimed lamports (optional).
    pub destination: Option<Pubkey>,
}

impl Truncate {
    /// The account list of the instruction: the program as writable
    /// signer, the authority as signer, and the destination as writable
    /// if there is one. Without a destination the list ends after the
    /// authority: nothing stands in for it.
    pub open spec fn spec_accounts(self) -> Seq<AccountMeta> {
        spec_truncate_accounts(self.program, self.authority, self.destination)
    }

    /// The instruction on these accounts with the given arguments.
    pub fn instruction(&self, args: TruncateInstructionArgs) -> (instruction: Instruction)
        ensures
            instruction.is_loader_call(
                InstructionView::Truncate { new_size: args.new_size },
                self.spec_accounts(),
            ),
    {
        let remaining_accounts: Vec<AccountMeta> = Vec::new();
        let instruction = self.instruction_with_remaining_accounts(
            args,
            remaining_accounts.as_slice(),
        );
        instruction
    }

    /// The instruction on these accounts, followed by
    /// `remaining_accounts`, with the given arguments.
    pub fn instruction_with_remaining_accounts(
        &self,
        args: TruncateInstructionArgs,
        remaining_accounts: &[AccountMeta],
    ) -> (instruction: Instruction)
        ensures
            instruction.is_loader_call(
                InstructionView::Truncate { new_size: args.new_size },
                self.spec_accounts() + remaining_accounts@,
            ),
    {
        let mut accounts: Vec<AccountMeta> = Vec::new();
        accounts.push(AccountMeta::new(self.program, true));
        accounts.push(AccountMeta::new_readonly(self.authority, true));
        if let Some(destination) = self.destination {
            accounts.push(AccountMeta::new(destination, false));
        }
        let mut i: usize = 0;
        while i < remaining_accounts.len()
            invariant
                i <= remaining_accounts@.len(),
                accounts@ == self.spec_accounts() + remaining_accounts@.subrange(0, i as int),
            decreases remaining_accounts@.len() - i,
        {
            accounts.push(remaining_accounts[i]);
            i += 1;
        }
        assert(remaining_accounts@.subrange(0, i as int) =~= remaining_accounts@);
        let mut data = TruncateInstructionData::new().to_vec();
        let mut args = args.to_vec();
        data.append(&mut args);
        Instruction { program_id: crate::id(), accounts, data }
    }
}

/// The tag that starts the bytes of a `Truncate` instruction.
pub struct TruncateInstructionData {
    discriminator: u8,
}

impl TruncateInstructionData {
    /// The tag's value.
    pub closed spec fn spec_discriminator(self) -> u8 {
        self.discriminator
    }

    /// The tag of `Truncate`: one.
    pub fn new() -> (data: Self)
        ensures
            data.spec_discriminator() == 1,
    {
        Self { discriminator: 1 }
    }

    /// The tag's byte.
    pub fn to_vec(&self) -> (bytes: Vec<u8>)
        ensures
            bytes@ == seq![self.spec_discriminator()],
    {
        let mut bytes: Vec<u8> = Vec::new();
        bytes.push(self.discriminator);
        bytes
    }
}

impl Default for TruncateInstructionData {
    fn default() -> (data: Self)
        ensures
            data.spec_discriminator() == 1,
    {
        Self::new()
    }
}

/// The arguments of a `Truncate` instruction.
#[derive(Clone, Debug, Eq, PartialEq)]
pub struct TruncateInstructionArgs {
    /// Size of the image after the operation.
    pub new_size: u32,
}

impl TruncateInstructionArgs {
    /// The arguments' bytes: the new size, little-endian.
    pub fn to_vec(&self) -> (bytes: Vec<u8>)
        ensures
            bytes@ == spec_u32_to_le_bytes(self.new_size),
    {
        u32_to_le_bytes(self.new_size)
    }
}

/// What has been set on a `TruncateBuilder`.
pub ghost struct TruncateBuilderView {
    pub program: Option<Pubkey>,
    pub authority: Option<Pubkey>,
    pub destination: Option<Pubkey>,
    pub new_size: Option<u32>,
    pub remaining_accounts: Seq<AccountMeta>,
}

impl TruncateBuilderView {
    /// Whether everything an instruction needs has been set.
    pub open spec fn complete(self) -> bool {
        self.program is Some && self.authority is Some && self.new_size is Some
    }

    /// The accounts struct that the builder stands for.
    pub open spec fn spec_accounts(self) -> Truncate {
        Truncate {
            program: self.program->Some_0,
            authority: self.authority->Some_0,
            destination: self.destination,
        }
    }
}

/// Builds a `Truncate` instruction step by step.
///
/// Accounts:
/// 0. `[writable, signer]` program
/// 1. `[signer]` authority
/// 2. `[writable, optional]` destination
#[derive(Clone, Debug)]
pub struct TruncateBuilder {
    program: Option<Pubkey>,
    authority: Option<Pubkey>,
    destination: Option<Pubkey>,
    new_size: Option<u32>,
    remaining_accounts: Vec<AccountMeta>,
}

impl View for TruncateBuilder {
    type V = TruncateBuilderView;

    closed spec fn view(&self) -> TruncateBuilderView {
        TruncateBuilderView {
            program: self.program,
            authority: self.authority,
            destination: self.destination,
            new_size: self.new_size,
            remaining_accounts: self.remaining_accounts@,
        }
    }
}

impl TruncateBuilder {
    /// A builder with nothing set.
    pub fn new() -> (builder: Self)
        ensures
            builder@ == (TruncateBuilderView {
                program: None,
                authority: None,
                destination: None,
                new_size: None,
                remaining_accounts: Seq::empty(),
            }),
    {
        Self {
            program: None,
            authority: None,
            destination: None,
            new_size: None,
            remaining_accounts: Vec::new(),
        }
    }

    /// Sets the program account to change the size of.
    pub fn program(&mut self, program: Pubkey) -> (builder: &mut Self)
        ensures
            builder@ == (TruncateBuilderView { program: Some(program), ..old(self)@ }),
            *final(self) == *final(builder),
    {
        self.program = Some(program);
        self
    }

    /// Sets the program authority.
    pub fn authority(&mut self, authority: Pubkey) -> (builder: &mut Self)
        ensures
            builder@ == (TruncateBuilderView { authority: Some(authority), ..old(self)@ }),
            *final(self) == *final(builder),
    {
        self.authority = Some(authority);
        self
    }

    /// Sets or clears the destination account for reclaimed lamports.
    pub fn destination(&mut self, destination: Option<Pubkey>) -> (builder: &mut Self)
        ensures
            builder@ == (TruncateBuilderView { destination, ..old(self)@ }),
            *final(self) == *final(builder),
    {
        self.destination = destination;
        self
    }

    /// Sets the size of the image after the operation.
    pub fn new_size(&mut self, new_size: u32) -> (builder: &mut Self)
        ensures
            builder@ == (TruncateBuilderView { new_size: Some(new_size), ..old(self)@ }),
            *final(self) == *final(builder),
    {
        self.new_size = Some(new_size);
        self
    }

    /// Adds an account after those the instruction takes.
    pub fn add_remaining_account(&mut self, account: AccountMeta) -> (builder: &mut Self)
        ensures
            builder@ == (TruncateBuilderView {
                remaining_accounts: old(self)@.remaining_accounts.push(account),
                ..old(self)@
            }),
            *final(self) == *final(builder),
    {
        self.remaining_accounts.push(account);
        self
    }

    /// Adds accounts after those the instruction takes.
    pub fn add_remaining_accounts(&mut self, accounts: &[AccountMeta]) -> (builder: &mut Self)
        ensures
            builder@ == (TruncateBuilderView {
                remaining_accounts: old(self)@.remaining_accounts + accounts@,
                ..old(self)@
            }),
            *final(self) == *final(builder),
    {
        let ghost before = self.remaining_accounts@;
        let mut i: usize = 0;
        while i < accounts.len()
            invariant
                i <= accounts@.len(),
                self.program == old(self).program,
                self.authority == old(self).authority,
                self.destination == old(self).destination,
                self.new_size == old(self).new_size,
                before == old(self).remaining_accounts@,
                self.remaining_accounts@ == before + accounts@.subrange(0, i as int),
            decreases accounts@.len() - i,
        {
            self.remaining_accounts.push(accounts[i]);
            i += 1;
        }
        assert(accounts@.subrange(0, i as int) =~= accounts@);
        self
    }

    /// The instruction that has been built. Program, authority and new
    /// size must have been set.
    pub fn instruction(&self) -> (instruction: Instruction)
        requires
            self@.complete(),
        ensures
            instruction.is_loader_call(
                InstructionView::Truncate { new_size: self@.new_size->Some_0 },
                self@.spec_accounts().spec_accounts() + self@.remaining_accounts,
            ),
    {
        let accounts = Truncate {
            program: self.program.unwrap(),
            authority: self.authority.unwrap(),
            destination: self.destination,
        };
        let args = TruncateInstructionArgs { new_size: self.new_size.unwrap() };
        accounts.instruction_with_remaining_accounts(args, self.remaining_accounts.as_slice())
    }
}

impl Default for TruncateBuilder {
    fn default() -> (builder: Self)
        ensures
            builder@ == (TruncateBuilderView {
                program: None,
                authority: None,
                destination: None,
                new_size: None,
                remaining_accounts: Seq::empty(),
            }),
    {
        Self::new()
    }
}

} // verus!
