//! Creating placeholders: the records handed to the system for each
//! placeholder, the results read back from it, and the outcome of a batch.
use vstd::prelude::*;
use vstd::string::*;
use widestring::U16CString;
use crate::identity::IdentityBytes;
use crate::wide::{u16cstring_as_slice_with_nul, wide_units};
use crate::win_error::WinError;
use crate::text::{decimal, push_decimal};

verus! {

/// `CF_PLACEHOLDER_MAX_FILE_IDENTITY_LENGTH`: the longest identity blob a
/// placeholder can carry.
pub const MAX_FILE_IDENTITY_LENGTH: u32 = 4096;

/// The `HRESULT` of `ERROR_ALREADY_EXISTS` (`0x800700B7`).
pub const ALREADY_EXISTS: i32 = -2147024713i32;

/// `CF_PLACEHOLDER_CREATE_FLAG_NONE`.
pub const PLACEHOLDER_CREATE_FLAG_NONE: u32 = 0;

/// The basic information of a file (`FILE_BASIC_INFO`).
#[derive(PartialEq, Eq, Structural, Clone, Copy, Debug)]
pub struct FileBasicInfo {
    pub creation_time: i64,
    pub last_access_time: i64,
    pub last_write_time: i64,
    pub change_time: i64,
    pub file_attributes: u32,
}

/// The metadata of a placeholder (`CF_FS_METADATA`).
#[derive(PartialEq, Eq, Structural, Clone, Copy, Debug)]
pub struct FsMetadata {
    pub basic_info: FileBasicInfo,
    pub file_size: i64,
}

/// Information to create a placeholder; `result` and `create_usn` are filled
/// in from what the system reports.
#[derive(Debug)]
pub struct PlaceholderCreateInfo<Identity> {
    pub relative_file_name: U16CString,
    pub meta_data: FsMetadata,
    pub identity: Identity,
    pub flags: u32,
    pub result: i32,
    pub create_usn: i64,
}

/// The record handed to the system for one placeholder
/// (`CF_PLACEHOLDER_CREATE_INFO`): the name with its nul terminator and the
/// identity blob, with its length.
#[derive(Debug)]
pub struct RawPlaceholderCreateInfo {
    pub relative_file_name: Vec<u16>,
    pub fs_metadata: FsMetadata,
    pub file_identity: Vec<u8>,
    pub file_identity_length: u32,
    pub flags: u32,
    pub result: i32,
    pub create_usn: i64,
}

/// Text that says how many entries a batch processed.
#[derive(PartialEq, Eq, Structural, Clone, Copy, Debug)]
pub struct CreateErrorContext(pub u32);

impl CreateErrorContext {
    /// The text of the context: `Processed <n> entries`.
    pub fn message(&self) -> (r: String)
        ensures
            r@ == "Processed "@ + decimal(self.0 as nat) + " entries"@,
    {
        let mut s = String::from_str("Processed ");
        push_decimal(&mut s, self.0);
        s.append(" entries");
        s
    }
}

/// Why creating placeholders failed.
#[derive(PartialEq, Eq, Structural, Clone, Copy, Debug)]
pub enum PlaceholderError {
    /// A placeholder's identity blob is longer than the system accepts.
    IdentityTooLong { length: usize },
    /// The system refused the batch after processing some of its entries.
    Create { code: WinError, context: CreateErrorContext },
}

/// `raw` is the record for a placeholder named `name`, with metadata
/// `meta_data`, identity blob `identity` and flags `flags`, before the system
/// has filled in its result.
pub open spec fn is_raw_placeholder(
    raw: RawPlaceholderCreateInfo,
    name: U16CString,
    meta_data: FsMetadata,
    identity: Seq<u8>,
    flags: u32,
) -> bool {
    &&& raw.relative_file_name@ == wide_units(name).push(0u16)
    &&& raw.fs_metadata == meta_data
    &&& raw.file_identity@ == identity
    &&& raw.file_identity_length == identity.len()
    &&& raw.flags == flags
    &&& raw.result == 0
    &&& raw.create_usn == 0
}

/// The placeholder's record matches it.
pub open spec fn raw_matches<Identity: IdentityBytes>(
    raw: RawPlaceholderCreateInfo,
    info: PlaceholderCreateInfo<Identity>,
) -> bool {
    is_raw_placeholder(
        raw,
        info.relative_file_name,
        info.meta_data,
        info.identity.identity_bytes(),
        info.flags,
    )
}

impl<Identity: IdentityBytes> PlaceholderCreateInfo<Identity> {
    /// The record to hand to the system for this placeholder; fails when the
    /// identity blob is longer than `MAX_FILE_IDENTITY_LENGTH`.
    pub fn to_inner(&self) -> (r: Result<RawPlaceholderCreateInfo, PlaceholderError>)
        ensures
            r is Ok <==> self.identity.identity_bytes().len() <= MAX_FILE_IDENTITY_LENGTH,
            r matches Ok(raw) ==> raw_matches(raw, *self),
            r matches Err(e) ==> e == (PlaceholderError::IdentityTooLong {
                length: self.identity.identity_bytes().len() as usize,
            }),
    {
        let identity = self.identity.as_identity_bytes();
        let length = identity.len();
        if length > MAX_FILE_IDENTITY_LENGTH as usize {
            return Err(PlaceholderError::IdentityTooLong { length });
        }
        let name = u16cstring_as_slice_with_nul(&self.relative_file_name);
        Ok(RawPlaceholderCreateInfo {
            relative_file_name: vstd::slice::slice_to_vec(name),
            fs_metadata: self.meta_data,
            file_identity: vstd::slice::slice_to_vec(identity),
            file_identity_length: length as u32,
            flags: self.flags,
            result: 0,
            create_usn: 0,
        })
    }
}

/// `k` is the index of the first placeholder whose identity blob is too long.
pub open spec fn first_too_long<Identity: IdentityBytes>(
    infos: Seq<PlaceholderCreateInfo<Identity>>,
    k: int,
) -> bool {
    &&& 0 <= k < infos.len()
    &&& infos[k].identity.identity_bytes().len() > MAX_FILE_IDENTITY_LENGTH
    &&& forall|j: int|
        0 <= j < k ==> #[trigger] infos[j].identity.identity_bytes().len()
            <= MAX_FILE_IDENTITY_LENGTH
}

/// The records for a batch of placeholders, in order; the first placeholder
/// whose identity blob is too long fails the whole batch.
pub fn prepare_placeholders<Identity: IdentityBytes>(
    placeholders: &[PlaceholderCreateInfo<Identity>],
) -> (r: Result<Vec<RawPlaceholderCreateInfo>, PlaceholderError>)
    ensures
        r is Ok <==> forall|i: int|
            0 <= i < placeholders@.len() ==> #[trigger] placeholders@[i].identity.identity_bytes().len()
                <= MAX_FILE_IDENTITY_LENGTH,
        r matches Ok(raws) ==> raws@.len() == placeholders@.len() && forall|i: int|
            0 <= i < raws@.len() ==> raw_matches(#[trigger] raws@[i], placeholders@[i]),
        r matches Err(e) ==> exists|k: int|
            first_too_long(placeholders@, k) && e == (PlaceholderError::IdentityTooLong {
                length: placeholders@[k].identity.identity_bytes().len() as usize,
            }),
{
    let mut raws: Vec<RawPlaceholderCreateInfo> = Vec::new();
    let mut i: usize = 0;
    while i < placeholders.len()
        invariant
            i <= placeholders@.len(),
            raws@.len() == i,
            forall|j: int| 0 <= j < i ==> raw_matches(#[trigger] raws@[j], placeholders@[j]),
            forall|j: int|
                0 <= j < i ==> #[trigger] placeholders@[j].identity.identity_bytes().len()
                    <= MAX_FILE_IDENTITY_LENGTH,
        decreases placeholders@.len() - i,
    {
        match placeholders[i].to_inner() {
            Ok(raw) => raws.push(raw),
            Err(e) => {
                assert(first_too_long(placeholders@, i as int));
                return Err(e);
            },
        }
        i += 1;
    }
    Ok(raws)
}

/// Copies the result and update sequence number that the system reported for
/// each record back into its placeholder; nothing else changes.
pub fn record_placeholder_results<Identity>(
    placeholders: &mut [PlaceholderCreateInfo<Identity>],
    raws: &[RawPlaceholderCreateInfo],
)
    requires
        raws@.len() <= old(placeholders)@.len(),
    ensures
        final(placeholders)@.len() == old(placeholders)@.len(),
        forall|i: int|
            0 <= i < final(placeholders)@.len() ==> {
                let before = #[trigger] old(placeholders)@[i];
                let after = final(placeholders)@[i];
                &&& after.relative_file_name == before.relative_file_name
                &&& after.meta_data == before.meta_data
                &&& after.identity == before.identity
                &&& after.flags == before.flags
                &&& after.result == if i < raws@.len() {
                    raws@[i].result
                } else {
                    before.result
                }
                &&& after.create_usn == if i < raws@.len() {
                    raws@[i].create_usn
                } else {
                    before.create_usn
                }
            },
{
    let mut i: usize = 0;
    while i < raws.len()
        invariant
            i <= raws@.len(),
            raws@.len() <= old(placeholders)@.len(),
            placeholders@.len() == old(placeholders)@.len(),
            forall|j: int|
                0 <= j < placeholders@.len() ==> {
                    let before = #[trigger] old(placeholders)@[j];
                    let after = placeholders@[j];
                    &&& after.relative_file_name == before.relative_file_name
                    &&& after.meta_data == before.meta_data
                    &&& after.identity == before.identity
                    &&& after.flags == before.flags
                    &&& after.result == if j < i {
                        raws@[j].result
                    } else {
                        before.result
                    }
                    &&& after.create_usn == if j < i {
                        raws@[j].create_usn
                    } else {
                        before.create_usn
                    }
                },
        decreases raws@.len() - i,
    {
        let ghost prev = placeholders@;
        placeholders[i].result = raws[i].result;
        placeholders[i].create_usn = raws[i].create_usn;
        assert forall|j: int| 0 <= j < placeholders@.len() implies {
            let before = #[trigger] old(placeholders)@[j];
            let after = placeholders@[j];
            &&& after.relative_file_name == before.relative_file_name
            &&& after.meta_data == before.meta_data
            &&& after.identity == before.identity
            &&& after.flags == before.flags
            &&& after.result == if j < i + 1 {
                raws@[j].result
            } else {
                before.result
            }
            &&& after.create_usn == if j < i + 1 {
                raws@[j].create_usn
            } else {
                before.create_usn
            }
        } by {
            if j != i {
                assert(placeholders@[j] == prev[j]);
            }
        }
        i += 1;
    }
}

/// The outcome of a batch, given what the system answered and how many
/// entries it processed: success, also when some placeholder already existed;
/// otherwise the error, with the count of processed entries.
pub fn placeholders_outcome(created: Result<(), WinError>, entries_processed: u32) -> (r: Result<
    u32,
    PlaceholderError,
>)
    ensures
        match created {
            Ok(()) => r == Ok::<u32, PlaceholderError>(entries_processed),
            Err(e) => if e.code == ALREADY_EXISTS {
                r == Ok::<u32, PlaceholderError>(entries_processed)
            } else {
                r == Err::<u32, PlaceholderError>(
                    (PlaceholderError::Create {
                        code: e,
                        context: CreateErrorContext(entries_processed),
                    }),
                )
            },
        },
{
    match created {
        Ok(()) => Ok(entries_processed),
        Err(e) => {
            if e.code == ALREADY_EXISTS {
                Ok(entries_processed)
            } else {
                Err(PlaceholderError::Create { code: e, context: CreateErrorContext(entries_processed) })
            }
        },
    }
}

/// The metadata of a local file that a placeholder copies: its times and
/// attributes as Windows reports them, and its size.
#[derive(PartialEq, Eq, Structural, Clone, Copy, Debug)]
pub struct FileMetadata {
    pub creation_time: u64,
    pub last_access_time: u64,
    pub last_write_time: u64,
    pub file_attributes: u32,
    pub file_size: u64,
}

/// The basic information that stands for a file's metadata; its change time
/// is its last write time.
pub open spec fn spec_file_basic_info(meta: FileMetadata) -> FileBasicInfo {
    FileBasicInfo {
        creation_time: meta.creation_time as i64,
        last_access_time: meta.last_access_time as i64,
        last_write_time: meta.last_write_time as i64,
        change_time: meta.last_write_time as i64,
        file_attributes: meta.file_attributes,
    }
}

/// The basic information of a file, from its metadata.
pub fn metadata_to_file_basic_info(meta: &FileMetadata) -> (r: FileBasicInfo)
    ensures
        r == spec_file_basic_info(*meta),
{
    #[verifier::truncate]
    let creation_time: i64 = meta.creation_time as i64;
    #[verifier::truncate]
    let last_access_time: i64 = meta.last_access_time as i64;
    #[verifier::truncate]
    let last_write_time: i64 = meta.last_write_time as i64;
    FileBasicInfo {
        creation_time,
        last_access_time,
        last_write_time,
        change_time: last_write_time,
        file_attributes: meta.file_attributes,
    }
}

/// The record for a placeholder of the local file named `relative_name` with
/// metadata `meta`: no identity blob and no flags.
pub fn metadata_to_placeholder(relative_name: &U16CString, meta: &FileMetadata) -> (r:
    RawPlaceholderCreateInfo)
    ensures
        is_raw_placeholder(
            r,
            *relative_name,
            FsMetadata {
                basic_info: spec_file_basic_info(*meta),
                file_size: meta.file_size as i64,
            },
            Seq::empty(),
            PLACEHOLDER_CREATE_FLAG_NONE,
        ),
{
    #[verifier::truncate]
    let file_size: i64 = meta.file_size as i64;
    let name = u16cstring_as_slice_with_nul(relative_name);
    RawPlaceholderCreateInfo {
        relative_file_name: vstd::slice::slice_to_vec(name),
        fs_metadata: FsMetadata { basic_info: metadata_to_file_basic_info(meta), file_size },
        file_identity: Vec::new(),
        file_identity_length: 0,
        flags: PLACEHOLDER_CREATE_FLAG_NONE,
        result: 0,
        create_usn: 0,
    }
}

/// The in-sync state of a placeholder (`CF_IN_SYNC_STATE`).
#[derive(PartialEq, Eq, Structural, Clone, Copy, Debug)]
pub enum InSyncState {
    NotInSync,
    InSync,
}

/// The state that marks a placeholder in sync or not.
pub fn in_sync_state(in_sync: bool) -> (r: InSyncState)
    ensures
        r == (if in_sync {
            InSyncState::InSync
        } else {
            InSyncState::NotInSync
        }),
{
    if in_sync {
        InSyncState::InSync
    } else {
        InSyncState::NotInSync
    }
}

/// The basic information of a file copies its times and attributes, each
/// time cast to `i64`, and takes the last write time as the change time.
pub proof fn lemma_file_basic_info_fields(meta: FileMetadata)
    ensures
        spec_file_basic_info(meta).creation_time == meta.creation_time as i64,
        spec_file_basic_info(meta).last_access_time == meta.last_access_time as i64,
        spec_file_basic_info(meta).last_write_time == meta.last_write_time as i64,
        spec_file_basic_info(meta).change_time == meta.last_write_time as i64,
        spec_file_basic_info(meta).file_attributes == meta.file_attributes,
        meta.last_write_time <= i64::MAX ==> spec_file_basic_info(meta).change_time
            == meta.last_write_time,
{
}

/// The record for a placeholder carries its name followed by a nul
/// terminator, its metadata and flags unchanged, its identity blob with that
/// blob's length, and no result or update sequence number yet; a batch that
/// fails does so at the first placeholder whose blob is too long.
pub proof fn lemma_raw_placeholder_fields<Identity: IdentityBytes>(
    raw: RawPlaceholderCreateInfo,
    info: PlaceholderCreateInfo<Identity>,
    infos: Seq<PlaceholderCreateInfo<Identity>>,
    k: int,
)
    ensures
        raw_matches(raw, info) ==> {
            &&& raw.relative_file_name@ == wide_units(info.relative_file_name).push(0u16)
            &&& raw.fs_metadata == info.meta_data
            &&& raw.file_identity@ == info.identity.identity_bytes()
            &&& raw.file_identity_length == info.identity.identity_bytes().len()
            &&& raw.flags == info.flags
            &&& raw.result == 0
            &&& raw.create_usn == 0
        },
        first_too_long(infos, k) ==> {
            &&& 0 <= k < infos.len()
            &&& infos[k].identity.identity_bytes().len() > 4096
            &&& forall|j: int|
                0 <= j < k ==> #[trigger] infos[j].identity.identity_bytes().len() <= 4096
        },
{
}

} // verus!
