use cloud_mirror::callbacks::{CallbackInfo, RawCallbackInfo};
use cloud_mirror::fetch::{
    fetch_file_contents, fetch_transfer, name_identities, str_get, FetchDataParams,
    FILE_CONTENTS, STATUS_CLOUD_FILE_INVALID_REQUEST, STATUS_SUCCESS,
};

fn params(offset: i64, length: i64) -> FetchDataParams {
    FetchDataParams {
        flags: 0,
        required_file_offset: offset,
        required_length: length,
        optional_file_offset: 0,
        optional_length: 0,
        last_dehydration_time: 0,
        last_dehydration_reason: 0,
    }
}

#[test]
fn whole_file() {
    let t = fetch_file_contents(&params(0, 14));
    assert_eq!(t.status, STATUS_SUCCESS);
    assert_eq!(t.buf, FILE_CONTENTS.as_bytes());
    assert_eq!(t.offset, 0);
}

#[test]
fn part_of_file() {
    let t = fetch_file_contents(&params(7, 5));
    assert_eq!(t.status, STATUS_SUCCESS);
    assert_eq!(t.buf, b"world");
    assert_eq!(t.offset, 7);
}

#[test]
fn empty_request_at_end() {
    let t = fetch_file_contents(&params(14, 0));
    assert_eq!(t.status, STATUS_SUCCESS);
    assert!(t.buf.is_empty());
    assert_eq!(t.offset, 14);
}

#[test]
fn past_the_end_is_invalid() {
    let t = fetch_file_contents(&params(10, 10));
    assert_eq!(t.status, STATUS_CLOUD_FILE_INVALID_REQUEST);
    assert!(t.buf.is_empty());
    assert_eq!(t.offset, 0);
}

#[test]
fn negative_offset_is_invalid() {
    let t = fetch_file_contents(&params(-1, 3));
    assert_eq!(t.status, STATUS_CLOUD_FILE_INVALID_REQUEST);
    assert_eq!(t.offset, 0);
}

#[test]
fn negative_length_is_invalid() {
    let t = fetch_file_contents(&params(5, -2));
    assert_eq!(t.status, STATUS_CLOUD_FILE_INVALID_REQUEST);
    assert!(t.buf.is_empty());
}

#[test]
fn inside_a_character_is_invalid() {
    let text = "h\u{e9}llo";
    let t = fetch_transfer(text, 0, 2);
    assert_eq!(t.status, STATUS_CLOUD_FILE_INVALID_REQUEST);
    let t = fetch_transfer(text, 1, 2);
    assert_eq!(t.status, STATUS_SUCCESS);
    assert_eq!(t.buf, "\u{e9}".as_bytes());
}

#[test]
fn str_get_matches_std() {
    let text = "a\u{1F600}bc";
    for start in 0..8 {
        for end in 0..8 {
            assert_eq!(str_get(text, start, end), text.get(start..end));
        }
    }
}

#[test]
fn name_identities_decode_both() {
    let raw = RawCallbackInfo {
        connection_key: 1,
        volume_guid_name: vec![0],
        volume_dos_name: vec![0],
        volume_serial_number: 0,
        sync_root_file_id: 0,
        sync_root_identity: vec![0xff, 0xfe],
        sync_root_identity_length: 2,
        file_id: 0,
        file_size: 0,
        file_identity: b"asdf".to_vec(),
        file_identity_length: 4,
        normalized_path: None,
        transfer_key: 0,
        priority_hint: 0,
        request_key: 0,
    };
    let info = name_identities(CallbackInfo::from(&raw));
    assert!(info.sync_root.identity.is_err());
    assert_eq!(info.file.identity.unwrap().0, "asdf");
}
