use cloud_mirror::callbacks::{CallbackInfo, CallbackVolumeInfo, FileInfo, SyncRootInfo};
use cloud_mirror::operations::{
    op_info_from_callback, OperationInfo, OperationType, TransferDataParams, OPERATION_INFO_SIZE,
};
use widestring::U16CString;

fn info() -> CallbackInfo<(), ()> {
    CallbackInfo {
        connection_key: 100,
        volume_info: CallbackVolumeInfo {
            guid_name: U16CString::new(),
            dos_name: U16CString::new(),
            serial_number: 0,
        },
        sync_root: SyncRootInfo { file_id: 0, identity: () },
        file: FileInfo { id: 0, size: 0, identity: (), normalized_path: None },
        transfer_key: 200,
        priority_hint: 0,
        request_key: 300,
    }
}

#[test]
fn op_info_copies_keys() {
    let op = op_info_from_callback(&info(), OperationType::AckData);
    assert_eq!(
        op,
        OperationInfo {
            struct_size: 48,
            op_type: OperationType::AckData,
            connection_key: 100,
            transfer_key: 200,
            request_key: 300,
        }
    );
    assert_eq!(OPERATION_INFO_SIZE, 48);
}

#[test]
fn transfer_params_carry_buffer_and_length() {
    let bytes = b"Hello";
    let t = TransferDataParams { status: 0, buf: bytes, offset: 7 };
    let p = t.to_inner();
    assert_eq!(p.param_size, 36);
    assert_eq!(p.transfer_data.flags, 0);
    assert_eq!(p.transfer_data.completion_status, 0);
    assert_eq!(p.transfer_data.buffer, b"Hello");
    assert_eq!(p.transfer_data.offset, 7);
    assert_eq!(p.transfer_data.length, 5);
}

#[test]
fn execute_request_is_a_transfer_data_operation() {
    let t = TransferDataParams { status: -1073688821, buf: &[], offset: 0 };
    let (op, p) = t.execute_request(&info());
    assert_eq!(op.op_type, OperationType::TransferData);
    assert_eq!(op.request_key, 300);
    assert_eq!(p.transfer_data.completion_status, -1073688821);
    assert_eq!(p.transfer_data.length, 0);
}
