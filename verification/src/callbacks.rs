//! The information that the Cloud Filter API hands to a sync provider's
//! callbacks, in a form that owns or borrows plain values.
use vstd::prelude::*;
use widestring::U16CString;
use crate::wide::{u16cstring_from_vec_truncate, until_nul, wide_units};

verus! {

/// The volume on which a callback's file lives.
#[derive(Debug)]
pub struct CallbackVolumeInfo {
    pub guid_name: U16CString,
    pub dos_name: U16CString,
    pub serial_number: u32,
}

/// The sync root of a callback, with the identity blob the provider gave it.
#[derive(Debug)]
pub struct SyncRootInfo<Identity> {
    pub file_id: i64,
    pub identity: Identity,
}

impl<Identity> SyncRootInfo<Identity> {
    /// Replaces the identity by `f` applied to it; the file id is kept.
    pub fn map_identity<NewIdentity, F: FnOnce(Identity) -> NewIdentity>(self, f: F) -> (r:
        SyncRootInfo<NewIdentity>)
        requires
            call_requires(f, (self.identity,)),
        ensures
            r.file_id == self.file_id,
            call_ensures(f, (self.identity,), r.identity),
    {
        SyncRootInfo { file_id: self.file_id, identity: f(self.identity) }
    }
}

/// The file a callback is about; its size, which the system gives as an
/// `i64`, is held as a `usize`.
#[derive(Debug)]
pub struct FileInfo<Identity> {
    pub id: i64,
    pub size: usize,
    pub identity: Identity,
    pub normalized_path: Option<U16CString>,
}

impl<Identity> FileInfo<Identity> {
    /// Replaces the identity by `f` applied to it; every other field is kept.
    pub fn map_identity<NewIdentity, F: FnOnce(Identity) -> NewIdentity>(self, f: F) -> (r:
        FileInfo<NewIdentity>)
        requires
            call_requires(f, (self.identity,)),
        ensures
            r.id == self.id,
            r.size == self.size,
            r.normalized_path == self.normalized_path,
            call_ensures(f, (self.identity,), r.identity),
    {
        FileInfo {
            id: self.id,
            size: self.size,
            identity: f(self.identity),
            normalized_path: self.normalized_path,
        }
    }
}

/// Everything a callback learns about the request it serves.
#[derive(Debug)]
pub struct CallbackInfo<SyncRootIdentity, FileIdentity> {
    pub connection_key: i64,
    pub volume_info: CallbackVolumeInfo,
    pub sync_root: SyncRootInfo<SyncRootIdentity>,
    pub file: FileInfo<FileIdentity>,
    pub transfer_key: i64,
    pub priority_hint: u8,
    pub request_key: i64,
}

impl<SyncRootIdentity, FileIdentity> CallbackInfo<SyncRootIdentity, FileIdentity> {
    /// Replaces both identities by the two mappers applied to them; every
    /// other field is kept.
    pub fn map_identities<
        NewSyncRootId,
        NewFileId,
        G: FnOnce(SyncRootIdentity) -> NewSyncRootId,
        H: FnOnce(FileIdentity) -> NewFileId,
    >(self, sync_root_mapper: G, file_mapper: H) -> (r: CallbackInfo<NewSyncRootId, NewFileId>)
        requires
            call_requires(sync_root_mapper, (self.sync_root.identity,)),
            call_requires(file_mapper, (self.file.identity,)),
        ensures
            r.connection_key == self.connection_key,
            r.volume_info == self.volume_info,
            r.sync_root.file_id == self.sync_root.file_id,
            call_ensures(sync_root_mapper, (self.sync_root.identity,), r.sync_root.identity),
            r.file.id == self.file.id,
            r.file.size == self.file.size,
            r.file.normalized_path == self.file.normalized_path,
            call_ensures(file_mapper, (self.file.identity,), r.file.identity),
            r.transfer_key == self.transfer_key,
            r.priority_hint == self.priority_hint,
            r.request_key == self.request_key,
    {
        CallbackInfo {
            connection_key: self.connection_key,
            volume_info: self.volume_info,
            sync_root: self.sync_root.map_identity(sync_root_mapper),
            file: self.file.map_identity(file_mapper),
            transfer_key: self.transfer_key,
            priority_hint: self.priority_hint,
            request_key: self.request_key,
        }
    }
}

/// The callback record as the system delivers it: the wide strings and
/// identity blobs are the memory that its pointers designate, read out.
#[derive(Debug)]
pub struct RawCallbackInfo {
    pub connection_key: i64,
    /// The units at the volume GUID name pointer, through its nul terminator.
    pub volume_guid_name: Vec<u16>,
    /// The units at the volume DOS name pointer, through its nul terminator.
    pub volume_dos_name: Vec<u16>,
    pub volume_serial_number: u32,
    pub sync_root_file_id: i64,
    /// The bytes at the sync root identity pointer.
    pub sync_root_identity: Vec<u8>,
    pub sync_root_identity_length: u32,
    pub file_id: i64,
    pub file_size: i64,
    /// The bytes at the file identity pointer.
    pub file_identity: Vec<u8>,
    pub file_identity_length: u32,
    /// The units at the normalized path pointer, or `None` for a null pointer.
    pub normalized_path: Option<Vec<u16>>,
    pub transfer_key: i64,
    pub priority_hint: u8,
    pub request_key: i64,
}

impl RawCallbackInfo {
    /// The record is what the system promises: every string pointer designates
    /// a nul-terminated string, and each identity length stays within the
    /// bytes its pointer designates.
    pub open spec fn wf(&self) -> bool {
        &&& self.volume_guid_name@.contains(0u16)
        &&& self.volume_dos_name@.contains(0u16)
        &&& self.sync_root_identity_length <= self.sync_root_identity@.len()
        &&& self.file_identity_length <= self.file_identity@.len()
        &&& (self.normalized_path matches Some(p) ==> p@.contains(0u16))
    }
}

/// The first `n` bytes of `buf`, as a slice of it.
fn leading_bytes(buf: &Vec<u8>, n: u32) -> (r: &[u8])
    requires
        n <= buf@.len(),
    ensures
        r@ == buf@.subrange(0, n as int),
{
    let len: usize = n as usize;
    &buf.as_slice()[0..len]
}

impl<'a> CallbackInfo<&'a [u8], &'a [u8]> {
    /// Reads a raw callback record: each wide string is taken up to its nul
    /// terminator, each identity is the first `length` bytes at its pointer,
    /// the file size is cast to `usize`, and the other numbers are copied.
    pub fn from(value: &'a RawCallbackInfo) -> (r: CallbackInfo<&'a [u8], &'a [u8]>)
        requires
            value.wf(),
        ensures
            r.connection_key == value.connection_key,
            wide_units(r.volume_info.guid_name) == until_nul(value.volume_guid_name@),
            wide_units(r.volume_info.dos_name) == until_nul(value.volume_dos_name@),
            r.volume_info.serial_number == value.volume_serial_number,
            r.sync_root.file_id == value.sync_root_file_id,
            r.sync_root.identity@ == value.sync_root_identity@.subrange(
                0,
                value.sync_root_identity_length as int,
            ),
            r.file.id == value.file_id,
            r.file.size == value.file_size as usize,
            r.file.identity@ == value.file_identity@.subrange(0, value.file_identity_length as int),
            match value.normalized_path {
                None => r.file.normalized_path is None,
                Some(p) => r.file.normalized_path matches Some(q) && wide_units(q) == until_nul(p@),
            },
            r.transfer_key == value.transfer_key,
            r.priority_hint == value.priority_hint,
            r.request_key == value.request_key,
    {
        #[verifier::truncate]
        let file_size: usize = value.file_size as usize;
        let normalized_path = match &value.normalized_path {
            None => None,
            Some(p) => Some(u16cstring_from_vec_truncate(p.clone())),
        };
        CallbackInfo {
            connection_key: value.connection_key,
            volume_info: CallbackVolumeInfo {
                guid_name: u16cstring_from_vec_truncate(value.volume_guid_name.clone()),
                dos_name: u16cstring_from_vec_truncate(value.volume_dos_name.clone()),
                serial_number: value.volume_serial_number,
            },
            sync_root: SyncRootInfo {
                file_id: value.sync_root_file_id,
                identity: leading_bytes(&value.sync_root_identity, value.sync_root_identity_length),
            },
            file: FileInfo {
                id: value.file_id,
                size: file_size,
                identity: leading_bytes(&value.file_identity, value.file_identity_length),
                normalized_path,
            },
            transfer_key: value.transfer_key,
            priority_hint: value.priority_hint,
            request_key: value.request_key,
        }
    }
}

// ---------------------------------------------------------------------------
// Laws of the identity mappers.
// ---------------------------------------------------------------------------

/// `f` gives back its argument.
pub open spec fn is_identity_fn<A, F: FnOnce(A) -> A>(f: F) -> bool {
    forall|x: A, y: A| #[trigger] call_ensures(f, (x,), y) ==> y == x
}

/// `f` gives at most one result for each argument.
pub open spec fn is_deterministic<A, B, F: FnOnce(A) -> B>(f: F) -> bool {
    forall|x: A, y1: B, y2: B|
        #[trigger] call_ensures(f, (x,), y1) && #[trigger] call_ensures(f, (x,), y2) ==> y1 == y2
}

/// Every result of `h` is a result of `g` applied to a result of `f`.
pub open spec fn composes<A, B, C, F: FnOnce(A) -> B, G: FnOnce(B) -> C, H: FnOnce(A) -> C>(
    f: F,
    g: G,
    h: H,
) -> bool {
    forall|x: A, z: C|
        #[trigger] call_ensures(h, (x,), z) ==> exists|y: B|
            #[trigger] call_ensures(f, (x,), y) && call_ensures(g, (y,), z)
}

/// `r` is what `SyncRootInfo::map_identity` gives for `s` and `f`.
pub open spec fn maps_sync_root<I, J, F: FnOnce(I) -> J>(
    s: SyncRootInfo<I>,
    f: F,
    r: SyncRootInfo<J>,
) -> bool {
    r.file_id == s.file_id && call_ensures(f, (s.identity,), r.identity)
}

/// `r` is what `CallbackInfo::map_identities` gives for `c` and the mappers
/// `f` and `g`.
pub open spec fn maps_callback<S, T, A, B, F: FnOnce(S) -> A, G: FnOnce(T) -> B>(
    c: CallbackInfo<S, T>,
    f: F,
    g: G,
    r: CallbackInfo<A, B>,
) -> bool {
    &&& r.connection_key == c.connection_key
    &&& r.volume_info == c.volume_info
    &&& r.sync_root.file_id == c.sync_root.file_id
    &&& call_ensures(f, (c.sync_root.identity,), r.sync_root.identity)
    &&& r.file.id == c.file.id
    &&& r.file.size == c.file.size
    &&& r.file.normalized_path == c.file.normalized_path
    &&& call_ensures(g, (c.file.identity,), r.file.identity)
    &&& r.transfer_key == c.transfer_key
    &&& r.priority_hint == c.priority_hint
    &&& r.request_key == c.request_key
}

/// Mapping a sync root's identity with a function that gives back its
/// argument leaves the sync root as it was.
pub proof fn lemma_map_identity_by_identity<I, F: FnOnce(I) -> I>(
    s: SyncRootInfo<I>,
    f: F,
    r: SyncRootInfo<I>,
)
    requires
        maps_sync_root(s, f, r),
        is_identity_fn(f),
    ensures
        r == s,
{
}

/// Mapping a sync root's identity with `f` and then with `g` gives what
/// mapping it once with their composition `h` gives, when `f` and `g` are
/// deterministic.
pub proof fn lemma_map_identity_composes<
    I,
    J,
    K,
    F: FnOnce(I) -> J,
    G: FnOnce(J) -> K,
    H: FnOnce(I) -> K,
>(s: SyncRootInfo<I>, f: F, g: G, h: H, r1: SyncRootInfo<J>, r2: SyncRootInfo<K>, r3: SyncRootInfo<K>)
    requires
        maps_sync_root(s, f, r1),
        maps_sync_root(r1, g, r2),
        maps_sync_root(s, h, r3),
        composes(f, g, h),
        is_deterministic(f),
        is_deterministic(g),
    ensures
        r2 == r3,
{
    let y = choose|y: J| call_ensures(f, (s.identity,), y) && call_ensures(g, (y,), r3.identity);
    assert(y == r1.identity);
}

/// Mapping both identities of a callback with functions that give back their
/// arguments leaves the callback as it was.
pub proof fn lemma_map_identities_by_identity<S, T, F: FnOnce(S) -> S, G: FnOnce(T) -> T>(
    c: CallbackInfo<S, T>,
    f: F,
    g: G,
    r: CallbackInfo<S, T>,
)
    requires
        maps_callback(c, f, g, r),
        is_identity_fn(f),
        is_identity_fn(g),
    ensures
        r == c,
{
}

/// Mapping both identities of a callback twice gives what mapping them once
/// with the compositions gives, when the mappers are deterministic.
pub proof fn lemma_map_identities_composes<
    S,
    T,
    S2,
    T2,
    S3,
    T3,
    F1: FnOnce(S) -> S2,
    G1: FnOnce(T) -> T2,
    F2: FnOnce(S2) -> S3,
    G2: FnOnce(T2) -> T3,
    H: FnOnce(S) -> S3,
    K: FnOnce(T) -> T3,
>(
    c: CallbackInfo<S, T>,
    f1: F1,
    g1: G1,
    f2: F2,
    g2: G2,
    h: H,
    k: K,
    r1: CallbackInfo<S2, T2>,
    r2: CallbackInfo<S3, T3>,
    r3: CallbackInfo<S3, T3>,
)
    requires
        maps_callback(c, f1, g1, r1),
        maps_callback(r1, f2, g2, r2),
        maps_callback(c, h, k, r3),
        composes(f1, f2, h),
        composes(g1, g2, k),
        is_deterministic(f1),
        is_deterministic(f2),
        is_deterministic(g1),
        is_deterministic(g2),
    ensures
        r2 == r3,
{
    let y = choose|y: S2|
        call_ensures(f1, (c.sync_root.identity,), y) && call_ensures(f2, (y,), r3.sync_root.identity);
    assert(y == r1.sync_root.identity);
    let w = choose|w: T2|
        call_ensures(g1, (c.file.identity,), w) && call_ensures(g2, (w,), r3.file.identity);
    assert(w == r1.file.identity);
}

} // verus!
