//! The loader's instructions and their wire format.
//!
//! An instruction is one opcode byte followed by the operation's fields:
//!
//! | opcode | operation           | fields                               |
//! |--------|---------------------|--------------------------------------|
//! | 0      | `Write`             | offset (`u32`, little-endian), bytes |
//! | 1      | `Truncate`          | new size (`u32`, little-endian)      |
//! | 2      | `Deploy`            |                                      |
//! | 3      | `Retract`           |                                      |
//! | 4      | `TransferAuthority` |                                      |
//! | 5      | `Finalize`          |                                      |
use vstd::prelude::*;
use crate::bytes::{
    lemma_u32_to_le_bytes, spec_u32_from_le_bytes, spec_u32_to_le_bytes, u32_from_le_bytes_at,
    u32_to_le_bytes,
};
use vstd::slice::slice_subrange;
use crate::error::LoaderV4Error;
use crate::pubkey::Pubkey;

verus! {

/// The most bytes an instruction can have: what fits into one packet.
pub const PACKET_DATA_SIZE: usize = 1232;

/// Instructions supported by the loader.
#[derive(Clone, Debug, PartialEq, Eq)]
pub enum LoaderV4Instruction {
    /// Write image data into a retracted program account.
    ///
    /// Accounts:
    /// 0. `[writable]` the program account to write to,
    /// 1. `[signer]` the program's authority.
    Write {
        /// Offset into the image at which to write the bytes.
        offset: u32,
        /// The bytes to write.
        bytes: Vec<u8>,
    },
    /// Change the size of a retracted program account.
    ///
    /// The first truncate of an empty account initializes it: the account
    /// itself must sign, and the authority given becomes the program's.
    /// Truncating to size zero closes the account. Lamports beyond what
    /// the new size needs go to the destination.
    ///
    /// Accounts:
    /// 0. `[writable, signer]` the program account to resize,
    /// 1. `[signer]` the program's authority,
    /// 2. `[writable]` destination of reclaimed lamports (optional).
    Truncate {
        /// Size of the image after the operation.
        new_size: u32,
    },
    /// Make a retracted program executable.
    ///
    /// With a source account the source's buffer replaces the program's
    /// before deployment and the source is closed.
    ///
    /// Accounts:
    /// 0. `[writable]` the program account to deploy,
    /// 1. `[signer]` the program's authority,
    /// 2. `[writable]` retracted source to take the image from (optional).
    Deploy,
    /// Take a deployed program back into maintenance.
    ///
    /// Accounts:
    /// 0. `[writable]` the program account to retract,
    /// 1. `[signer]` the program's authority.
    Retract,
    /// Hand the program over to a new authority.
    ///
    /// Accounts:
    /// 0. `[writable]` the program account,
    /// 1. `[signer]` the current authority,
    /// 2. `[signer]` the new authority.
    TransferAuthority,
    /// Freeze a deployed program for good and point it at its successor.
    ///
    /// Accounts:
    /// 0. `[writable]` the program account to finalize,
    /// 1. `[signer]` the program's authority,
    /// 2. `[]` the next version of the program (can be the program itself).
    Finalize,
}

/// An instruction as contracts see it.
pub ghost enum InstructionView {
    Write { offset: u32, bytes: Seq<u8> },
    Truncate { new_size: u32 },
    Deploy,
    Retract,
    TransferAuthority,
    Finalize,
}

impl View for LoaderV4Instruction {
    type V = InstructionView;

    open spec fn view(&self) -> InstructionView {
        match *self {
            LoaderV4Instruction::Write { offset, bytes } => InstructionView::Write {
                offset,
                bytes: bytes@,
            },
            LoaderV4Instruction::Truncate { new_size } => InstructionView::Truncate { new_size },
            LoaderV4Instruction::Deploy => InstructionView::Deploy,
            LoaderV4Instruction::Retract => InstructionView::Retract,
            LoaderV4Instruction::TransferAuthority => InstructionView::TransferAuthority,
            LoaderV4Instruction::Finalize => InstructionView::Finalize,
        }
    }
}

impl InstructionView {
    /// The opcode byte.
    pub open spec fn spec_opcode(self) -> u8 {
        match self {
            InstructionView::Write { .. } => 0,
            InstructionView::Truncate { .. } => 1,
            InstructionView::Deploy => 2,
            InstructionView::Retract => 3,
            InstructionView::TransferAuthority => 4,
            InstructionView::Finalize => 5,
        }
    }

    /// The instruction's bytes on the wire.
    pub open spec fn spec_serialize(self) -> Seq<u8> {
        match self {
            InstructionView::Write { offset, bytes } => seq![0u8] + spec_u32_to_le_bytes(offset)
                + bytes,
            InstructionView::Truncate { new_size } => seq![1u8] + spec_u32_to_le_bytes(new_size),
            _ => seq![self.spec_opcode()],
        }
    }

    /// Whether the instruction fits into one packet. Only a `Write` can
    /// be too long.
    pub open spec fn fits_packet(self) -> bool {
        self matches InstructionView::Write { bytes, .. } ==> 5 + bytes.len() <= PACKET_DATA_SIZE
    }
}

/// The instruction that `input` encodes.
///
/// The first byte selects the operation. `Write` takes four bytes of
/// offset and all that follows as its bytes, and may not exceed a packet;
/// `Truncate` takes four bytes of size; bytes after the fields of any
/// other operation are ignored. An empty input, an unknown opcode or a
/// field cut short is `InvalidInstructionData`.
pub open spec fn spec_deserialize(input: Seq<u8>) -> Result<InstructionView, LoaderV4Error> {
    if input.len() == 0 {
        Err(LoaderV4Error::InvalidInstructionData)
    } else if input[0] == 0 {
        if 5 <= input.len() <= PACKET_DATA_SIZE {
            Ok(
                InstructionView::Write {
                    offset: spec_u32_from_le_bytes(input.subrange(1, 5)),
                    bytes: input.subrange(5, input.len() as int),
                },
            )
        } else {
            Err(LoaderV4Error::InvalidInstructionData)
        }
    } else if input[0] == 1 {
        if 5 <= input.len() {
            Ok(InstructionView::Truncate { new_size: spec_u32_from_le_bytes(input.subrange(1, 5)) })
        } else {
            Err(LoaderV4Error::InvalidInstructionData)
        }
    } else if input[0] == 2 {
        Ok(InstructionView::Deploy)
    } else if input[0] == 3 {
        Ok(InstructionView::Retract)
    } else if input[0] == 4 {
        Ok(InstructionView::TransferAuthority)
    } else if input[0] == 5 {
        Ok(InstructionView::Finalize)
    } else {
        Err(LoaderV4Error::InvalidInstructionData)
    }
}

/// An instruction that fits into a packet is read back from its bytes
/// unchanged.
pub proof fn lemma_serialize_then_deserialize(instruction: InstructionView)
    requires
        instruction.fits_packet(),
    ensures
        spec_deserialize(instruction.spec_serialize()) == Ok::<_, LoaderV4Error>(instruction),
{
    let wire = instruction.spec_serialize();
    match instruction {
        InstructionView::Write { offset, bytes } => {
            lemma_u32_to_le_bytes(offset);
            assert(wire.subrange(1, 5) =~= spec_u32_to_le_bytes(offset));
            assert(wire.subrange(5, wire.len() as int) =~= bytes);
        },
        InstructionView::Truncate { new_size } => {
            lemma_u32_to_le_bytes(new_size);
            assert(wire.subrange(1, 5) =~= spec_u32_to_le_bytes(new_size));
        },
        _ => {},
    }
}

impl LoaderV4Instruction {
    /// The instruction's bytes on the wire.
    pub fn serialize(&self) -> (wire: Vec<u8>)
        ensures
            wire@ == self@.spec_serialize(),
    {
        let mut wire: Vec<u8> = Vec::new();
        match self {
            LoaderV4Instruction::Write { offset, bytes } => {
                wire.push(0);
                let mut field = u32_to_le_bytes(*offset);
                wire.append(&mut field);
                wire.extend_from_slice(bytes.as_slice());
            },
            LoaderV4Instruction::Truncate { new_size } => {
                wire.push(1);
                let mut field = u32_to_le_bytes(*new_size);
                wire.append(&mut field);
            },
            LoaderV4Instruction::Deploy => {
                wire.push(2);
            },
            LoaderV4Instruction::Retract => {
                wire.push(3);
            },
            LoaderV4Instruction::TransferAuthority => {
                wire.push(4);
            },
            LoaderV4Instruction::Finalize => {
                wire.push(5);
            },
        }
        wire
    }

    /// Reads an instruction from its bytes on the wire.
    pub fn deserialize(input: &[u8]) -> (instruction: Result<LoaderV4Instruction, LoaderV4Error>)
        ensures
            match instruction {
                Ok(i) => spec_deserialize(input@) == Ok::<_, LoaderV4Error>(i@),
                Err(e) => spec_deserialize(input@) == Err::<InstructionView, _>(e),
            },
    {
        let len = input.len();
        if len == 0 {
            return Err(LoaderV4Error::InvalidInstructionData);
        }
        let opcode = input[0];
        if opcode == 0 {
            if len < 5 || len > PACKET_DATA_SIZE {
                return Err(LoaderV4Error::InvalidInstructionData);
            }
            let offset = u32_from_le_bytes_at(input, 1);
            let bytes = vstd::slice::slice_to_vec(slice_subrange(input, 5, len));
            Ok(LoaderV4Instruction::Write { offset, bytes })
        } else if opcode == 1 {
            if len < 5 {
                return Err(LoaderV4Error::InvalidInstructionData);
            }
            let new_size = u32_from_le_bytes_at(input, 1);
            Ok(LoaderV4Instruction::Truncate { new_size })
        } else if opcode == 2 {
            Ok(LoaderV4Instruction::Deploy)
        } else if opcode == 3 {
            Ok(LoaderV4Instruction::Retract)
        } else if opcode == 4 {
            Ok(LoaderV4Instruction::TransferAuthority)
        } else if opcode == 5 {
            Ok(LoaderV4Instruction::Finalize)
        } else {
            Err(LoaderV4Error::InvalidInstructionData)
        }
    }
}

/// How an instruction refers to one account.
#[derive(Clone, Copy, Debug, PartialEq, Eq)]
pub struct AccountMeta {
    /// Address of the account.
    pub pubkey: Pubkey,
    /// Whether the account must sign the transaction.
    pub is_signer: bool,
    /// Whether the instruction may change the account.
    pub is_writable: bool,
}

impl AccountMeta {
    /// Refers to an account that the instruction may change.
    pub fn new(pubkey: Pubkey, is_signer: bool) -> (meta: AccountMeta)
        ensures
            meta == (AccountMeta { pubkey, is_signer, is_writable: true }),
    {
        AccountMeta { pubkey, is_signer, is_writable: true }
    }

    /// Refers to an account that the instruction only reads.
    pub fn new_readonly(pubkey: Pubkey, is_signer: bool) -> (meta: AccountMeta)
        ensures
            meta == (AccountMeta { pubkey, is_signer, is_writable: false }),
    {
        AccountMeta { pubkey, is_signer, is_writable: false }
    }
}

/// An instruction ready to be put into a transaction: the program to
/// run, the accounts it takes in order, and its bytes on the wire.
#[derive(Clone, Debug, PartialEq, Eq)]
pub struct Instruction {
    /// Address of the program that executes the instruction.
    pub program_id: Pubkey,
    /// The accounts, in the order in which the program expects them.
    pub accounts: Vec<AccountMeta>,
    /// The instruction's bytes.
    pub data: Vec<u8>,
}

impl Instruction {
    /// Whether this is `instruction`, addressed to the loader, on the
    /// given accounts.
    pub open spec fn is_loader_call(
        self,
        instruction: InstructionView,
        accounts: Seq<AccountMeta>,
    ) -> bool {
        &&& self.program_id@ == crate::spec_id()
        &&& self.accounts@ == accounts
        &&& self.data@ == instruction.spec_serialize()
    }
}

/// Creates a `Write` instruction.
pub fn write(program_address: &Pubkey, authority_address: &Pubkey, offset: u32, bytes: Vec<u8>) -> (instruction:
    Instruction)
    ensures
        instruction.is_loader_call(
            InstructionView::Write { offset, bytes: bytes@ },
            seq![
                AccountMeta { pubkey: *program_address, is_signer: false, is_writable: true },
                AccountMeta { pubkey: *authority_address, is_signer: true, is_writable: false },
            ],
        ),
{
    let mut accounts: Vec<AccountMeta> = Vec::new();
    accounts.push(AccountMeta::new(*program_address, false));
    accounts.push(AccountMeta::new_readonly(*authority_address, true));
    let data = (LoaderV4Instruction::Write { offset, bytes }).serialize();
    assert(accounts@ =~= seq![
        AccountMeta { pubkey: *program_address, is_signer: false, is_writable: true },
        AccountMeta { pubkey: *authority_address, is_signer: true, is_writable: false },
    ]);
    Instruction { program_id: crate::id(), accounts, data }
}

/// The accounts of a `Truncate` instruction.
pub open spec fn spec_truncate_accounts(
    program_address: Pubkey,
    authority_address: Pubkey,
    destination_address: Option<Pubkey>,
) -> Seq<AccountMeta> {
    let fixed = seq![
        AccountMeta { pubkey: program_address, is_signer: true, is_writable: true },
        AccountMeta { pubkey: authority_address, is_signer: true, is_writable: false },
    ];
    match destination_address {
        Some(destination) => fixed.push(
            AccountMeta { pubkey: destination, is_signer: false, is_writable: true },
        ),
        None => fixed,
    }
}

/// Creates a `Truncate` instruction.
pub fn truncate(
    program_address: &Pubkey,
    authority_address: &Pubkey,
    destination_address: Option<&Pubkey>,
    new_size: u32,
) -> (instruction: Instruction)
    ensures
        instruction.is_loader_call(
            InstructionView::Truncate { new_size },
            spec_truncate_accounts(
                *program_address,
                *authority_address,
                match destination_address {
                    Some(destination) => Some(*destination),
                    None => None,
                },
            ),
        ),
{
    let mut accounts: Vec<AccountMeta> = Vec::new();
    accounts.push(AccountMeta::new(*program_address, true));
    accounts.push(AccountMeta::new_readonly(*authority_address, true));
    if let Some(destination_address) = destination_address {
        accounts.push(AccountMeta::new(*destination_address, false));
    }
    let data = (LoaderV4Instruction::Truncate { new_size }).serialize();
    assert(accounts@ =~= spec_truncate_accounts(
        *program_address,
        *authority_address,
        match destination_address {
            Some(destination) => Some(*destination),
            None => None,
        },
    ));
    Instruction { program_id: crate::id(), accounts, data }
}

/// The accounts of a `Deploy` instruction.
pub open spec fn spec_deploy_accounts(
    program_address: Pubkey,
    authority_address: Pubkey,
    source_address: Option<Pubkey>,
) -> Seq<AccountMeta> {
    let fixed = seq![
        AccountMeta { pubkey: program_address, is_signer: false, is_writable: true },
        AccountMeta { pubkey: authority_address, is_signer: true, is_writable: false },
    ];
    match source_address {
        Some(source) => fixed.push(
            AccountMeta { pubkey: source, is_signer: false, is_writable: true },
        ),
        None => fixed,
    }
}

/// Creates a `Deploy` instruction.
pub fn deploy(
    program_address: &Pubkey,
    authority_address: &Pubkey,
    source_address: Option<&Pubkey>,
) -> (instruction: Instruction)
    ensures
        instruction.is_loader_call(
            InstructionView::Deploy,
            spec_deploy_accounts(
                *program_address,
                *authority_address,
                match source_address {
                    Some(source) => Some(*source),
                    None => None,
                },
            ),
        ),
{
    let mut accounts: Vec<AccountMeta> = Vec::new();
    accounts.push(AccountMeta::new(*program_address, false));
    accounts.push(AccountMeta::new_readonly(*authority_address, true));
    if let Some(source_address) = source_address {
        accounts.push(AccountMeta::new(*source_address, false));
    }
    let data = LoaderV4Instruction::Deploy.serialize();
    assert(accounts@ =~= spec_deploy_accounts(
        *program_address,
        *authority_address,
        match source_address {
            Some(source) => Some(*source),
            None => None,
        },
    ));
    Instruction { program_id: crate::id(), accounts, data }
}

/// Creates a `Retract` instruction.
pub fn retract(program_address: &Pubkey, authority_address: &Pubkey) -> (instruction: Instruction)
    ensures
        instruction.is_loader_call(
            InstructionView::Retract,
            seq![
                AccountMeta { pubkey: *program_address, is_signer: false, is_writable: true },
                AccountMeta { pubkey: *authority_address, is_signer: true, is_writable: false },
            ],
        ),
{
    let mut accounts: Vec<AccountMeta> = Vec::new();
    accounts.push(AccountMeta::new(*program_address, false));
    accounts.push(AccountMeta::new_readonly(*authority_address, true));
    let data = LoaderV4Instruction::Retract.serialize();
    assert(accounts@ =~= seq![
        AccountMeta { pubkey: *program_address, is_signer: false, is_writable: true },
        AccountMeta { pubkey: *authority_address, is_signer: true, is_writable: false },
    ]);
    Instruction { program_id: crate::id(), accounts, data }
}

/// Creates a `TransferAuthority` instruction.
pub fn transfer_authority(
    program_address: &Pubkey,
    current_authority_address: &Pubkey,
    new_authority_address: &Pubkey,
) -> (instruction: Instruction)
    ensures
        instruction.is_loader_call(
            InstructionView::TransferAuthority,
            seq![
                AccountMeta { pubkey: *program_address, is_signer: false, is_writable: true },
                AccountMeta {
                    pubkey: *current_authority_address,
                    is_signer: true,
                    is_writable: false,
                },
                AccountMeta { pubkey: *new_authority_address, is_signer: true, is_writable: false },
            ],
        ),
{
    let mut accounts: Vec<AccountMeta> = Vec::new();
    accounts.push(AccountMeta::new(*program_address, false));
    accounts.push(AccountMeta::new_readonly(*current_authority_address, true));
    accounts.push(AccountMeta::new_readonly(*new_authority_address, true));
    let data = LoaderV4Instruction::TransferAuthority.serialize();
    assert(accounts@ =~= seq![
        AccountMeta { pubkey: *program_address, is_signer: false, is_writable: true },
        AccountMeta { pubkey: *current_authority_address, is_signer: true, is_writable: false },
        AccountMeta { pubkey: *new_authority_address, is_signer: true, is_writable: false },
    ]);
    Instruction { program_id: crate::id(), accounts, data }
}

/// Creates a `Finalize` instruction.
pub fn finalize(
    program_address: &Pubkey,
    authority_address: &Pubkey,
    next_version_address: &Pubkey,
) -> (instruction: Instruction)
    ensures
        instruction.is_loader_call(
            InstructionView::Finalize,
            seq![
                AccountMeta { pubkey: *program_address, is_signer: false, is_writable: true },
                AccountMeta { pubkey: *authority_address, is_signer: true, is_writable: false },
                AccountMeta { pubkey: *next_version_address, is_signer: false, is_writable: false },
            ],
        ),
{
    let mut accounts: Vec<AccountMeta> = Vec::new();
    accounts.push(AccountMeta::new(*program_address, false));
    accounts.push(AccountMeta::new_readonly(*authority_address, true));
    accounts.push(AccountMeta::new_readonly(*next_version_address, false));
    let data = LoaderV4Instruction::Finalize.serialize();
    assert(accounts@ =~= seq![
        AccountMeta { pubkey: *program_address, is_signer: false, is_writable: true },
        AccountMeta { pubkey: *authority_address, is_signer: true, is_writable: false },
        AccountMeta { pubkey: *next_version_address, is_signer: false, is_writable: false },
    ]);
    Instruction { program_id: crate::id(), accounts, data }
}

} // verus!
