//! Operations that a sync provider answers a callback with.
use vstd::prelude::*;
use crate::callbacks::CallbackInfo;

verus! {

/// The size in bytes of the `CF_OPERATION_INFO` record: 32 bytes of fixed
/// members (two 32-bit and three 64-bit fields) and two pointers, so 48 on
/// 64-bit Windows and 40 on 32-bit Windows.
pub const OPERATION_INFO_SIZE: u32 = 32 + 2 * (usize::BITS / 8);

/// The size in bytes of the `ParamSize` field of `CF_OPERATION_PARAMETERS`.
pub const PARAM_SIZE_FIELD_SIZE: u32 = 4;

/// The size in bytes of the transfer-data member of `CF_OPERATION_PARAMETERS`
/// on 64-bit Windows.
pub const TRANSFER_DATA_PARAMS_SIZE: u32 = 32;

/// `CF_OPERATION_TRANSFER_DATA_FLAG_NONE`.
pub const TRANSFER_DATA_FLAG_NONE: u32 = 0;

/// The kinds of operation (`CF_OPERATION_TYPE`).
#[derive(PartialEq, Eq, Structural, Clone, Copy, Debug)]
pub enum OperationType {
    TransferData,
    RetrieveData,
    AckData,
    RestartHydration,
    TransferPlaceholders,
    AckDehydrate,
    AckDelete,
    AckRename,
}

/// The header of an operation (`CF_OPERATION_INFO`). Its correlation vector and
/// sync status pointers are null.
#[derive(PartialEq, Eq, Structural, Clone, Copy, Debug)]
pub struct OperationInfo {
    pub struct_size: u32,
    pub op_type: OperationType,
    pub connection_key: i64,
    pub transfer_key: i64,
    pub request_key: i64,
}

/// Builds the header of an operation that answers the callback `info`.
pub fn op_info_from_callback<S, F>(info: &CallbackInfo<S, F>, op_type: OperationType) -> (r:
    OperationInfo)
    ensures
        r == (OperationInfo {
            struct_size: OPERATION_INFO_SIZE,
            op_type,
            connection_key: info.connection_key,
            transfer_key: info.transfer_key,
            request_key: info.request_key,
        }),
{
    OperationInfo {
        struct_size: OPERATION_INFO_SIZE,
        op_type,
        connection_key: info.connection_key,
        transfer_key: info.transfer_key,
        request_key: info.request_key,
    }
}

/// The transfer-data member of the parameters of an operation.
#[derive(Debug)]
pub struct TransferData<'a> {
    pub flags: u32,
    pub completion_status: i32,
    pub buffer: &'a [u8],
    pub offset: i64,
    pub length: i64,
}

/// The parameters of a transfer-data operation (`CF_OPERATION_PARAMETERS`).
#[derive(Debug)]
pub struct OperationParameters<'a> {
    pub param_size: u32,
    pub transfer_data: TransferData<'a>,
}

/// The answer to a fetch-data callback: a completion status and the bytes to
/// place at `offset` in the file.
#[derive(Debug)]
pub struct TransferDataParams<'a> {
    pub status: i32,
    pub buf: &'a [u8],
    pub offset: i64,
}

impl<'a> TransferDataParams<'a> {
    /// The operation parameters that carry this transfer.
    pub fn to_inner(&self) -> (r: OperationParameters<'a>)
        requires
            self.buf@.len() <= i64::MAX,
        ensures
            r.param_size == PARAM_SIZE_FIELD_SIZE + TRANSFER_DATA_PARAMS_SIZE,
            r.transfer_data.flags == TRANSFER_DATA_FLAG_NONE,
            r.transfer_data.completion_status == self.status,
            r.transfer_data.buffer@ == self.buf@,
            r.transfer_data.offset == self.offset,
            r.transfer_data.length == self.buf@.len(),
    {
        let len: usize = self.buf.len();
        OperationParameters {
            param_size: PARAM_SIZE_FIELD_SIZE + TRANSFER_DATA_PARAMS_SIZE,
            transfer_data: TransferData {
                flags: TRANSFER_DATA_FLAG_NONE,
                completion_status: self.status,
                buffer: self.buf,
                offset: self.offset,
                length: len as i64,
            },
        }
    }

    /// What executing this transfer for the callback `info` hands to the
    /// system: a transfer-data header and the parameters of the transfer.
    pub fn execute_request<S, F>(&self, info: &CallbackInfo<S, F>) -> (r: (
        OperationInfo,
        OperationParameters<'a>,
    ))
        requires
            self.buf@.len() <= i64::MAX,
        ensures
            r.0 == (OperationInfo {
                struct_size: OPERATION_INFO_SIZE,
                op_type: OperationType::TransferData,
                connection_key: info.connection_key,
                transfer_key: info.transfer_key,
                request_key: info.request_key,
            }),
            r.1.param_size == PARAM_SIZE_FIELD_SIZE + TRANSFER_DATA_PARAMS_SIZE,
            r.1.transfer_data.flags == TRANSFER_DATA_FLAG_NONE,
            r.1.transfer_data.completion_status == self.status,
            r.1.transfer_data.buffer@ == self.buf@,
            r.1.transfer_data.offset == self.offset,
            r.1.transfer_data.length == self.buf@.len(),
    {
        let op_info = op_info_from_callback(info, OperationType::TransferData);
        let params = self.to_inner();
        (op_info, params)
    }
}

} // verus!
