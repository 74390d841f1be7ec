//! Answering a fetch-data callback: the requested range of a file's contents.
use vstd::prelude::*;
use vstd::utf8::*;
use vstd::string::*;
use std::str::Utf8Error;
use crate::callbacks::CallbackInfo;
use crate::identity::NameIdentity;
use crate::operations::{
    OperationInfo, OperationParameters, OperationType, TransferDataParams, OPERATION_INFO_SIZE,
    PARAM_SIZE_FIELD_SIZE, TRANSFER_DATA_FLAG_NONE, TRANSFER_DATA_PARAMS_SIZE,
};

verus! {

broadcast use {is_ascii_spec_bytes, encode_utf8_valid_utf8, valid_utf8_split, is_char_boundary_start_end_of_seq, is_char_boundary_iff_not_is_continuation_byte};

/// The contents every placeholder of this provider hydrates to.
pub const FILE_CONTENTS: &'static str = "Hello, world!\n";

/// `STATUS_SUCCESS`.
pub const STATUS_SUCCESS: i32 = 0;

/// `STATUS_CLOUD_FILE_INVALID_REQUEST`.
pub const STATUS_CLOUD_FILE_INVALID_REQUEST: i32 = -1073688821i32;

/// The parameters of a fetch-data callback (`CF_CALLBACK_PARAMETERS`'s
/// `FetchData` member).
#[derive(PartialEq, Eq, Structural, Clone, Copy, Debug)]
pub struct FetchDataParams {
    pub flags: u32,
    pub required_file_offset: i64,
    pub required_length: i64,
    pub optional_file_offset: i64,
    pub optional_length: i64,
    pub last_dehydration_time: i64,
    pub last_dehydration_reason: i32,
}

/// `start..end` selects a part of the text whose UTF-8 encoding is `bytes`:
/// the offsets are in order and both fall on character boundaries.
pub open spec fn selects_text(bytes: Seq<u8>, start: int, end: int) -> bool {
    &&& start <= end
    &&& is_char_boundary(bytes, start)
    &&& is_char_boundary(bytes, end)
}

proof fn lemma_boundary_in_prefix(bytes: Seq<u8>, start: int, end: int)
    requires
        valid_utf8(bytes),
        selects_text(bytes, start, end),
    ensures
        0 <= start <= end <= bytes.len(),
        valid_utf8(bytes.subrange(0, end)),
        is_char_boundary(bytes.subrange(0, end), start),
{
    let prefix = bytes.subrange(0, end);
    assert(valid_utf8(prefix));
    if start == end {
        assert(is_char_boundary(prefix, prefix.len() as int));
    } else if start == 0 {
        assert(is_char_boundary(prefix, 0));
    } else {
        assert(prefix[start] == bytes[start]);
        assert(is_char_boundary(bytes, start) <==> !is_continuation_byte(bytes[start]));
    }
}

/// `str::get(start..end)`: the part of `s` between two byte offsets, when they
/// select whole characters.
pub fn str_get<'a>(s: &'a str, start: usize, end: usize) -> (r: Option<&'a str>)
    ensures
        r is Some <==> selects_text(s.spec_bytes(), start as int, end as int),
        r matches Some(t) ==> t.spec_bytes() == s.spec_bytes().subrange(start as int, end as int),
{
    if start <= end && s.is_char_boundary(start) && s.is_char_boundary(end) {
        proof {
            lemma_boundary_in_prefix(s.spec_bytes(), start as int, end as int);
        }
        let (head, _) = s.split_at(end);
        let (_, mid) = head.split_at(start);
        proof {
            assert(mid.spec_bytes() =~= s.spec_bytes().subrange(start as int, end as int));
        }
        Some(mid)
    } else {
        None
    }
}

/// The status, bytes and offset of the transfer that answers a request for
/// `required_length` bytes at `required_file_offset` of a file whose contents
/// encode to `bytes`.
pub open spec fn spec_fetch(bytes: Seq<u8>, required_file_offset: i64, required_length: i64) -> (
    i32,
    Seq<u8>,
    i64,
) {
    let start = required_file_offset as usize as int;
    let end = (required_file_offset + required_length) as i64 as usize as int;
    if selects_text(bytes, start, end) {
        (STATUS_SUCCESS, bytes.subrange(start, end), required_file_offset)
    } else {
        (STATUS_CLOUD_FILE_INVALID_REQUEST, Seq::empty(), 0)
    }
}

/// The transfer that answers a request for `required_length` bytes at
/// `required_file_offset` of a file whose contents are `contents`: the
/// requested part when the offsets select whole characters of it, and
/// otherwise an invalid-request status with no bytes at offset zero.
/// Offsets are taken as `usize` the way a cast takes them, so that a negative
/// one selects nothing.
pub fn fetch_transfer<'a>(contents: &'a str, required_file_offset: i64, required_length: i64) -> (r:
    TransferDataParams<'a>)
    requires
        i64::MIN <= required_file_offset + required_length <= i64::MAX,
    ensures
        (r.status, r.buf@, r.offset) == spec_fetch(
            contents.spec_bytes(),
            required_file_offset,
            required_length,
        ),
{
    #[verifier::truncate]
    let start: usize = required_file_offset as usize;
    let last: i64 = required_file_offset + required_length;
    #[verifier::truncate]
    let end: usize = last as usize;
    match str_get(contents, start, end) {
        Some(slice) => TransferDataParams {
            status: STATUS_SUCCESS,
            buf: slice.as_bytes(),
            offset: required_file_offset,
        },
        None => TransferDataParams {
            status: STATUS_CLOUD_FILE_INVALID_REQUEST,
            buf: &[],
            offset: 0,
        },
    }
}

/// Reads both identities of a callback as names: each is the name its bytes
/// encode, or the UTF-8 error.
pub fn name_identities<'a>(info: CallbackInfo<&'a [u8], &'a [u8]>) -> (r: CallbackInfo<
    Result<NameIdentity<&'a str>, Utf8Error>,
    Result<NameIdentity<&'a str>, Utf8Error>,
>)
    ensures
        r.connection_key == info.connection_key,
        r.volume_info == info.volume_info,
        r.sync_root.file_id == info.sync_root.file_id,
        r.sync_root.identity is Ok <==> valid_utf8(info.sync_root.identity@),
        r.sync_root.identity matches Ok(n) ==> n.0@ == decode_utf8(info.sync_root.identity@),
        r.file.id == info.file.id,
        r.file.size == info.file.size,
        r.file.normalized_path == info.file.normalized_path,
        r.file.identity is Ok <==> valid_utf8(info.file.identity@),
        r.file.identity matches Ok(n) ==> n.0@ == decode_utf8(info.file.identity@),
        r.transfer_key == info.transfer_key,
        r.priority_hint == info.priority_hint,
        r.request_key == info.request_key,
{
    info.map_identities(NameIdentity::<&str>::try_from, NameIdentity::<&str>::try_from)
}

/// The answer to a fetch-data callback on a placeholder of this provider: the
/// requested range of `FILE_CONTENTS`.
pub fn fetch_file_contents(params: &FetchDataParams) -> (r: TransferDataParams<'static>)
    requires
        i64::MIN <= params.required_file_offset + params.required_length <= i64::MAX,
    ensures
        (r.status, r.buf@, r.offset) == spec_fetch(
            FILE_CONTENTS.spec_bytes(),
            params.required_file_offset,
            params.required_length,
        ),
{
    fetch_transfer(FILE_CONTENTS, params.required_file_offset, params.required_length)
}

/// The operation that answers the fetch-data callback `info` with parameters
/// `params`: a transfer-data operation for the callback's keys, carrying the
/// requested range of `FILE_CONTENTS` or an invalid-request status.
pub fn the_cooler_fetch_callback<S, F>(info: &CallbackInfo<S, F>, params: &FetchDataParams) -> (r: (
    OperationInfo,
    OperationParameters<'static>,
))
    requires
        i64::MIN <= params.required_file_offset + params.required_length <= i64::MAX,
    ensures
        r.0 == (OperationInfo {
            struct_size: OPERATION_INFO_SIZE,
            op_type: OperationType::TransferData,
            connection_key: info.connection_key,
            transfer_key: info.transfer_key,
            request_key: info.request_key,
        }),
        r.1.param_size == PARAM_SIZE_FIELD_SIZE + TRANSFER_DATA_PARAMS_SIZE,
        r.1.transfer_data.flags == TRANSFER_DATA_FLAG_NONE,
        (r.1.transfer_data.completion_status, r.1.transfer_data.buffer@, r.1.transfer_data.offset)
            == spec_fetch(
            FILE_CONTENTS.spec_bytes(),
            params.required_file_offset,
            params.required_length,
        ),
        r.1.transfer_data.length == r.1.transfer_data.buffer@.len(),
{
    let transfer = fetch_file_contents(params);
    proof {
        reveal_strlit("Hello, world!\n");
        assert(is_ascii(FILE_CONTENTS));
        assert(FILE_CONTENTS.spec_bytes().len() == 14);
    }
    transfer.execute_request(info)
}

/// A request for the whole file, from its first byte to its last, is always
/// served with the whole contents.
pub proof fn lemma_whole_file_is_served(contents: &str)
    ensures
        selects_text(contents.spec_bytes(), 0, contents.spec_bytes().len() as int),
        contents.spec_bytes().subrange(0, contents.spec_bytes().len() as int)
            == contents.spec_bytes(),
{
    assert(valid_utf8(contents.spec_bytes()));
    assert(contents.spec_bytes().subrange(0, contents.spec_bytes().len() as int)
        =~= contents.spec_bytes());
}

/// Byte `i` of `bytes` begins a character, or `i` is the end: no UTF-8
/// continuation byte (`0b10xxxxxx`) sits there.
pub open spec fn starts_character(bytes: Seq<u8>, i: int) -> bool {
    i == bytes.len() || !(0x80 <= bytes[i] <= 0xbf)
}

/// A request that lies within the contents is served exactly when both of
/// its ends fall at the start of a character (or at the end of the
/// contents): it is then answered with success, exactly the requested bytes,
/// and the requested offset; otherwise it is refused with no bytes at offset
/// zero. A request that reaches past the end, or whose length is negative,
/// is refused.
pub proof fn lemma_fetch_serves_whole_characters(
    contents: &str,
    required_file_offset: i64,
    required_length: i64,
)
    requires
        contents.spec_bytes().len() <= usize::MAX,
        0 <= required_file_offset,
        required_file_offset + required_length <= i64::MAX,
        0 <= required_file_offset + required_length <= usize::MAX,
        required_file_offset <= usize::MAX,
    ensures
        ({
            let bytes = contents.spec_bytes();
            let start = required_file_offset as int;
            let end = required_file_offset + required_length;
            let answer = spec_fetch(bytes, required_file_offset, required_length);
            &&& (start <= end <= bytes.len() && starts_character(bytes, start) && starts_character(
                bytes,
                end,
            )) ==> answer == (STATUS_SUCCESS, bytes.subrange(start, end), required_file_offset)
            &&& (start <= end <= bytes.len() && !(starts_character(bytes, start)
                && starts_character(bytes, end))) ==> answer == (
                STATUS_CLOUD_FILE_INVALID_REQUEST,
                Seq::<u8>::empty(),
                0i64,
            )
            &&& (end > bytes.len() || end < start) ==> answer == (
                STATUS_CLOUD_FILE_INVALID_REQUEST,
                Seq::<u8>::empty(),
                0i64,
            )
        }),
{
    let bytes = contents.spec_bytes();
    assert(valid_utf8(bytes));
    let start = required_file_offset as int;
    let end = required_file_offset + required_length;
    assert(required_file_offset as usize as int == start);
    assert((required_file_offset + required_length) as i64 as usize as int == end);
    if 0 <= start < bytes.len() {
        assert(is_char_boundary(bytes, start) <==> !is_continuation_byte(bytes[start]));
    }
    if 0 <= end < bytes.len() {
        assert(is_char_boundary(bytes, end) <==> !is_continuation_byte(bytes[end]));
    }
    if start == bytes.len() || end == bytes.len() {
        assert(is_char_boundary(bytes, bytes.len() as int));
    }
}

/// Every byte of ASCII text begins a character, so every request that lies
/// within ASCII contents is served with exactly the requested bytes at the
/// requested offset.
pub proof fn lemma_ascii_requests_are_served(
    contents: &str,
    required_file_offset: i64,
    required_length: i64,
)
    requires
        is_ascii(contents),
        contents.spec_bytes().len() <= usize::MAX,
        0 <= required_file_offset,
        0 <= required_length,
        required_file_offset + required_length <= contents.spec_bytes().len(),
        required_file_offset + required_length <= i64::MAX,
    ensures
        spec_fetch(contents.spec_bytes(), required_file_offset, required_length) == (
            STATUS_SUCCESS,
            contents.spec_bytes().subrange(
                required_file_offset as int,
                required_file_offset + required_length,
            ),
            required_file_offset,
        ),
{
    let bytes = contents.spec_bytes();
    let start = required_file_offset as int;
    let end = required_file_offset + required_length;
    assert(bytes =~= Seq::new(contents@.len(), |i| contents@.index(i) as u8));
    if start < bytes.len() {
        assert(bytes[start] == contents@[start] as u8);
        assert(is_ascii_chars(contents@));
        assert((contents@[start] as u32) < 128);
    }
    if end < bytes.len() {
        assert(bytes[end] == contents@[end] as u8);
        assert((contents@[end] as u32) < 128);
    }
    lemma_fetch_serves_whole_characters(contents, required_file_offset, required_length);
}

} // verus!
