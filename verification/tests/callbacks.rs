use cloud_mirror::callbacks::{CallbackInfo, CallbackVolumeInfo, FileInfo, RawCallbackInfo, SyncRootInfo};
use widestring::U16CString;

fn units(s: &str) -> Vec<u16> {
    s.encode_utf16().collect()
}

fn raw_info() -> RawCallbackInfo {
    let mut guid = units("\\\\?\\Volume{1234}\\");
    guid.push(0);
    guid.extend(units("garbage"));
    let mut dos = units("C:");
    dos.push(0);
    let mut path = units("\\Users\\me\\root\\foo");
    path.push(0);
    path.push(7);
    RawCallbackInfo {
        connection_key: 11,
        volume_guid_name: guid,
        volume_dos_name: dos,
        volume_serial_number: 0xdead,
        sync_root_file_id: 42,
        sync_root_identity: b"rootidXYZ".to_vec(),
        sync_root_identity_length: 6,
        file_id: 99,
        file_size: 14,
        file_identity: b"asdf".to_vec(),
        file_identity_length: 4,
        normalized_path: Some(path),
        transfer_key: -5,
        priority_hint: 3,
        request_key: 77,
    }
}

#[test]
fn from_raw_reads_strings_up_to_nul_and_identities_by_length() {
    let raw = raw_info();
    let info = CallbackInfo::from(&raw);
    assert_eq!(info.connection_key, 11);
    assert_eq!(info.volume_info.guid_name.clone().into_vec(), units("\\\\?\\Volume{1234}\\"));
    assert_eq!(info.volume_info.dos_name.clone().into_vec(), units("C:"));
    assert_eq!(info.volume_info.serial_number, 0xdead);
    assert_eq!(info.sync_root.file_id, 42);
    assert_eq!(info.sync_root.identity, b"rootid");
    assert_eq!(info.file.id, 99);
    assert_eq!(info.file.size, 14);
    assert_eq!(info.file.identity, b"asdf");
    assert_eq!(
        info.file.normalized_path.clone().unwrap().into_vec(),
        units("\\Users\\me\\root\\foo")
    );
    assert_eq!(info.transfer_key, -5);
    assert_eq!(info.priority_hint, 3);
    assert_eq!(info.request_key, 77);
}

#[test]
fn from_raw_null_path_is_none_and_empty_identity() {
    let mut raw = raw_info();
    raw.normalized_path = None;
    raw.file_identity_length = 0;
    raw.file_size = -1;
    let info = CallbackInfo::from(&raw);
    assert!(info.file.normalized_path.is_none());
    assert!(info.file.identity.is_empty());
    assert_eq!(info.file.size, usize::MAX);
}

#[test]
fn sync_root_map_identity_keeps_file_id() {
    let root = SyncRootInfo { file_id: 5, identity: 3u32 };
    let mapped = root.map_identity(|x| x * 2);
    assert_eq!(mapped.file_id, 5);
    assert_eq!(mapped.identity, 6);
}

#[test]
fn file_map_identity_keeps_other_fields() {
    let file = FileInfo {
        id: 1,
        size: 2,
        identity: "abc",
        normalized_path: Some(U16CString::from_str("x").unwrap()),
    };
    let mapped = file.map_identity(|s: &str| s.len());
    assert_eq!(mapped.id, 1);
    assert_eq!(mapped.size, 2);
    assert_eq!(mapped.identity, 3);
    assert_eq!(mapped.normalized_path.unwrap().to_string_lossy(), "x");
}

#[test]
fn map_identities_maps_both() {
    let info = CallbackInfo {
        connection_key: 1,
        volume_info: CallbackVolumeInfo {
            guid_name: U16CString::from_str("g").unwrap(),
            dos_name: U16CString::from_str("d").unwrap(),
            serial_number: 9,
        },
        sync_root: SyncRootInfo { file_id: 2, identity: 10i32 },
        file: FileInfo { id: 3, size: 4, identity: "f", normalized_path: None },
        transfer_key: 5,
        priority_hint: 6,
        request_key: 7,
    };
    let mapped = info.map_identities(|x| x + 1, |s: &str| s.to_uppercase());
    assert_eq!(mapped.sync_root.identity, 11);
    assert_eq!(mapped.file.identity, "F");
    assert_eq!(mapped.connection_key, 1);
    assert_eq!(mapped.sync_root.file_id, 2);
    assert_eq!(mapped.file.id, 3);
    assert_eq!(mapped.file.size, 4);
    assert_eq!(mapped.transfer_key, 5);
    assert_eq!(mapped.priority_hint, 6);
    assert_eq!(mapped.request_key, 7);
    assert_eq!(mapped.volume_info.serial_number, 9);
}
