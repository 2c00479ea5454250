//! The header at the front of every program account, and its byte layout.
//!
//! | bytes    | field                                           |
//! |----------|-------------------------------------------------|
//! | `0..8`   | slot of the last deployment, little-endian      |
//! | `8..40`  | authority, or once finalized the next version   |
//! | `40..48` | status ordinal, little-endian                   |
//! | `48..`   | the program image                               |
use vstd::prelude::*;
use crate::bytes::{
    lemma_u64_from_le_bytes, lemma_u64_to_le_bytes, spec_u64_from_le_bytes, spec_u64_to_le_bytes,
    u64_from_le_bytes_at, u64_to_le_bytes,
};
use crate::error::LoaderV4Error;
use crate::pubkey::Pubkey;

verus! {

/// Slots that must pass after a deployment before the program can be
/// retracted or deployed again.
pub const DEPLOYMENT_COOLDOWN_IN_SLOTS: u64 = 750;

/// Length of the header in bytes.
pub const PROGRAM_DATA_OFFSET: usize = 48;

/// Where a program stands in its lifecycle.
#[derive(Debug, PartialEq, Eq, Clone, Copy, Structural)]
pub enum LoaderV4Status {
    /// In maintenance: the image can be written and resized, not executed.
    Retracted,
    /// Ready to be executed; the image is fixed until retracted.
    Deployed,
    /// Deployed for good: nothing about the account changes any more.
    Finalized,
}

impl LoaderV4Status {
    /// The number that stands for the status in an account's bytes.
    pub open spec fn spec_ordinal(self) -> u64 {
        match self {
            LoaderV4Status::Retracted => 0,
            LoaderV4Status::Deployed => 1,
            LoaderV4Status::Finalized => 2,
        }
    }

    /// The status an ordinal stands for, if any.
    pub open spec fn spec_from_ordinal(ordinal: u64) -> Option<LoaderV4Status> {
        if ordinal == 0 {
            Some(LoaderV4Status::Retracted)
        } else if ordinal == 1 {
            Some(LoaderV4Status::Deployed)
        } else if ordinal == 2 {
            Some(LoaderV4Status::Finalized)
        } else {
            None
        }
    }

    /// The number that stands for the status in an account's bytes.
    pub fn ordinal(self) -> (ordinal: u64)
        ensures
            ordinal == self.spec_ordinal(),
            Self::spec_from_ordinal(ordinal) == Some(self),
    {
        match self {
            LoaderV4Status::Retracted => 0,
            LoaderV4Status::Deployed => 1,
            LoaderV4Status::Finalized => 2,
        }
    }

    /// The status an ordinal stands for; `None` for any ordinal above two.
    pub fn from_ordinal(ordinal: u64) -> (status: Option<LoaderV4Status>)
        ensures
            status == Self::spec_from_ordinal(ordinal),
            status matches Some(s) ==> s.spec_ordinal() == ordinal,
    {
        if ordinal == 0 {
            Some(LoaderV4Status::Retracted)
        } else if ordinal == 1 {
            Some(LoaderV4Status::Deployed)
        } else if ordinal == 2 {
            Some(LoaderV4Status::Finalized)
        } else {
            None
        }
    }
}

/// The header of a program account.
#[derive(Debug, PartialEq, Eq, Clone, Copy)]
pub struct LoaderV4State {
    /// Slot in which the program was last deployed; zero if it never was.
    pub slot: u64,
    /// While the program is not finalized, the address whose signature
    /// authorizes changes to it. Once finalized, the address of the
    /// program's next version.
    pub authority_address_or_next_version: Pubkey,
    /// Deployment status.
    pub status: LoaderV4Status,
}

/// A header as contracts see it.
pub ghost struct LoaderV4StateView {
    pub slot: u64,
    pub authority_address_or_next_version: Seq<u8>,
    pub status: LoaderV4Status,
}

impl View for LoaderV4State {
    type V = LoaderV4StateView;

    open spec fn view(&self) -> LoaderV4StateView {
        LoaderV4StateView {
            slot: self.slot,
            authority_address_or_next_version: self.authority_address_or_next_version@,
            status: self.status,
        }
    }
}

impl LoaderV4StateView {
    /// The address field holds thirty-two bytes.
    pub open spec fn wf(self) -> bool {
        self.authority_address_or_next_version.len() == 32
    }

    /// The forty-eight bytes that encode the header.
    pub open spec fn spec_pack(self) -> Seq<u8> {
        spec_u64_to_le_bytes(self.slot) + self.authority_address_or_next_version
            + spec_u64_to_le_bytes(self.status.spec_ordinal())
    }

    /// The signing authority; a finalized program has none.
    pub open spec fn spec_authority(self) -> Option<Seq<u8>> {
        if self.status is Finalized {
            None
        } else {
            Some(self.authority_address_or_next_version)
        }
    }

    /// The successor that a finalized program forwards to.
    pub open spec fn spec_next_version(self) -> Option<Seq<u8>> {
        if self.status is Finalized {
            Some(self.authority_address_or_next_version)
        } else {
            None
        }
    }
}

/// The header that the front of `data` encodes: `BufferTooSmall` when
/// `data` has fewer than forty-eight bytes, `InvalidAccountData` when the
/// status ordinal is none of zero, one and two.
pub open spec fn spec_unpack(data: Seq<u8>) -> Result<LoaderV4StateView, LoaderV4Error> {
    if data.len() < 48 {
        Err(LoaderV4Error::BufferTooSmall)
    } else {
        match LoaderV4Status::spec_from_ordinal(spec_u64_from_le_bytes(data.subrange(40, 48))) {
            Some(status) => Ok(
                LoaderV4StateView {
                    slot: spec_u64_from_le_bytes(data.subrange(0, 8)),
                    authority_address_or_next_version: data.subrange(8, 40),
                    status,
                },
            ),
            None => Err(LoaderV4Error::InvalidAccountData),
        }
    }
}

/// The image that follows the header; empty when there is no header.
pub open spec fn spec_payload(data: Seq<u8>) -> Seq<u8> {
    if data.len() < 48 {
        Seq::empty()
    } else {
        data.subrange(48, data.len() as int)
    }
}

/// A header written in front of any payload is read back unchanged, and
/// so is the payload.
pub proof fn lemma_pack_then_unpack(state: LoaderV4StateView, payload: Seq<u8>)
    requires
        state.wf(),
    ensures
        state.spec_pack().len() == 48,
        spec_unpack(state.spec_pack() + payload) == Ok::<_, LoaderV4Error>(state),
        spec_payload(state.spec_pack() + payload) == payload,
{
    let slot = spec_u64_to_le_bytes(state.slot);
    let ordinal = spec_u64_to_le_bytes(state.status.spec_ordinal());
    let data = state.spec_pack() + payload;
    lemma_u64_to_le_bytes(state.slot);
    lemma_u64_to_le_bytes(state.status.spec_ordinal());
    assert(data.subrange(0, 8) =~= slot);
    assert(data.subrange(8, 40) =~= state.authority_address_or_next_version);
    assert(data.subrange(40, 48) =~= ordinal);
}

/// A buffer that holds a header is that header's encoding followed by
/// the payload.
pub proof fn lemma_unpack_then_pack(data: Seq<u8>)
    requires
        spec_unpack(data) is Ok,
    ensures
        spec_unpack(data)->Ok_0.wf(),
        data == spec_unpack(data)->Ok_0.spec_pack() + spec_payload(data),
{
    lemma_u64_from_le_bytes(data.subrange(0, 8));
    lemma_u64_from_le_bytes(data.subrange(40, 48));
}

impl LoaderV4State {
    /// Length of the header: the offset at which the program image starts.
    pub fn program_data_offset() -> (offset: usize)
        ensures
            offset == 48,
    {
        PROGRAM_DATA_OFFSET
    }

    /// Reads the header at the front of `data`.
    pub fn unpack(data: &[u8]) -> (header: Result<LoaderV4State, LoaderV4Error>)
        ensures
            match header {
                Ok(state) => spec_unpack(data@) == Ok::<_, LoaderV4Error>(state@),
                Err(e) => spec_unpack(data@) == Err::<LoaderV4StateView, _>(e),
            },
    {
        if data.len() < PROGRAM_DATA_OFFSET {
            return Err(LoaderV4Error::BufferTooSmall);
        }
        let slot = u64_from_le_bytes_at(data, 0);
        let ordinal = u64_from_le_bytes_at(data, 40);
        match LoaderV4Status::from_ordinal(ordinal) {
            Some(status) => {
                let authority_address_or_next_version = Pubkey::from_slice_at(data, 8);
                Ok(LoaderV4State { slot, authority_address_or_next_version, status })
            },
            None => Err(LoaderV4Error::InvalidAccountData),
        }
    }

    /// Writes `state` over the header at the front of `data` and leaves
    /// the bytes after it alone. A buffer too short for a header is left
    /// as it is.
    pub fn unpack_mut(data: &mut [u8], state: &LoaderV4State) -> (written: Result<
        (),
        LoaderV4Error,
    >)
        ensures
            old(data)@.len() < 48 ==> written == Err::<(), _>(LoaderV4Error::BufferTooSmall)
                && final(data)@ == old(data)@,
            old(data)@.len() >= 48 ==> written is Ok && final(data)@ == state@.spec_pack()
                + spec_payload(old(data)@),
            old(data)@.len() >= 48 ==> spec_unpack(final(data)@) == Ok::<_, LoaderV4Error>(state@)
                && spec_payload(final(data)@) == spec_payload(old(data)@),
    {
        if data.len() < PROGRAM_DATA_OFFSET {
            return Err(LoaderV4Error::BufferTooSmall);
        }
        let slot = u64_to_le_bytes(state.slot);
        let ordinal = u64_to_le_bytes(state.status.ordinal());
        let ghost before = data@;
        let ghost image = state@.spec_pack();
        let mut i: usize = 0;
        while i < 48
            invariant
                i <= 48,
                data@.len() == before.len(),
                before.len() >= 48,
                slot@ == spec_u64_to_le_bytes(state.slot),
                slot@.len() == 8,
                ordinal@ == spec_u64_to_le_bytes(state.status.spec_ordinal()),
                ordinal@.len() == 8,
                image == state@.spec_pack(),
                forall|j: int| 0 <= j < i ==> data@[j] == image[j],
                forall|j: int| i <= j < before.len() ==> data@[j] == before[j],
            decreases 48 - i,
        {
            let byte = if i < 8 {
                slot[i]
            } else if i < 40 {
                state.authority_address_or_next_version.0[i - 8]
            } else {
                ordinal[i - 40]
            };
            data[i] = byte;
            i += 1;
        }
        proof {
            Pubkey::lemma_view(
                state.authority_address_or_next_version,
                state.authority_address_or_next_version,
            );
            lemma_pack_then_unpack(state@, spec_payload(before));
        }
        Ok(())
    }

    /// The signing authority; `None` once the program is finalized.
    pub fn authority(&self) -> (authority: Option<Pubkey>)
        ensures
            match authority {
                Some(key) => self@.spec_authority() == Some(key@),
                None => self@.spec_authority() is None,
            },
    {
        match self.status {
            LoaderV4Status::Finalized => None,
            _ => Some(self.authority_address_or_next_version),
        }
    }

    /// The successor of a finalized program; `None` while the program is
    /// not finalized.
    pub fn next_version(&self) -> (next_version: Option<Pubkey>)
        ensures
            match next_version {
                Some(key) => self@.spec_next_version() == Some(key@),
                None => self@.spec_next_version() is None,
            },
    {
        match self.status {
            LoaderV4Status::Finalized => Some(self.authority_address_or_next_version),
            _ => None,
        }
    }
}

} // verus!
