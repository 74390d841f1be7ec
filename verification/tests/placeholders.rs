use cloud_mirror::identity::NameIdentity;
use cloud_mirror::placeholders::{
    in_sync_state, metadata_to_file_basic_info, metadata_to_placeholder, placeholders_outcome,
    prepare_placeholders, record_placeholder_results, CreateErrorContext, FileBasicInfo,
    FileMetadata, FsMetadata, InSyncState, PlaceholderCreateInfo, PlaceholderError,
    ALREADY_EXISTS, MAX_FILE_IDENTITY_LENGTH,
};
use cloud_mirror::win_error::WinError;
use widestring::U16CString;

fn meta() -> FsMetadata {
    FsMetadata {
        basic_info: FileBasicInfo {
            creation_time: 0,
            last_access_time: 0,
            last_write_time: 0,
            change_time: 0,
            file_attributes: 128,
        },
        file_size: 14,
    }
}

fn info(name: &str, identity: Vec<u8>) -> PlaceholderCreateInfo<Vec<u8>> {
    PlaceholderCreateInfo {
        relative_file_name: U16CString::from_str(name).unwrap(),
        meta_data: meta(),
        identity,
        flags: 0,
        result: 0,
        create_usn: 0,
    }
}

#[test]
fn to_inner_appends_nul_and_copies_identity() {
    let p = info("foo", b"asdf".to_vec());
    let raw = p.to_inner().unwrap();
    assert_eq!(raw.relative_file_name, vec![b'f' as u16, b'o' as u16, b'o' as u16, 0]);
    assert_eq!(raw.file_identity, b"asdf".to_vec());
    assert_eq!(raw.file_identity_length, 4);
    assert_eq!(raw.fs_metadata, meta());
    assert_eq!(raw.flags, 0);
    assert_eq!(raw.result, 0);
    assert_eq!(raw.create_usn, 0);
}

#[test]
fn to_inner_accepts_identity_at_the_limit() {
    let p = info("a", vec![1u8; MAX_FILE_IDENTITY_LENGTH as usize]);
    assert_eq!(p.to_inner().unwrap().file_identity_length, 4096);
}

#[test]
fn to_inner_refuses_identity_over_the_limit() {
    let p = info("a", vec![1u8; 4097]);
    assert_eq!(p.to_inner().unwrap_err(), PlaceholderError::IdentityTooLong { length: 4097 });
}

#[test]
fn to_inner_with_name_identity() {
    let p = PlaceholderCreateInfo {
        relative_file_name: U16CString::from_str("foo").unwrap(),
        meta_data: meta(),
        identity: NameIdentity::from("asdf".to_owned()),
        flags: 0,
        result: 0,
        create_usn: 0,
    };
    assert_eq!(p.to_inner().unwrap().file_identity, b"asdf".to_vec());
}

#[test]
fn prepare_stops_at_first_long_identity() {
    let batch = vec![info("a", vec![]), info("b", vec![0; 5000]), info("c", vec![0; 6000])];
    assert_eq!(
        prepare_placeholders(&batch).unwrap_err(),
        PlaceholderError::IdentityTooLong { length: 5000 }
    );
    let ok = vec![info("a", vec![1]), info("b", vec![2, 3])];
    let raws = prepare_placeholders(&ok).unwrap();
    assert_eq!(raws.len(), 2);
    assert_eq!(raws[1].file_identity, vec![2, 3]);
    assert_eq!(raws[0].relative_file_name, vec![b'a' as u16, 0]);
}

#[test]
fn record_copies_results_back() {
    let mut batch = vec![info("a", vec![1]), info("b", vec![2]), info("c", vec![3])];
    let mut raws = prepare_placeholders(&batch[..2]).unwrap();
    raws[0].result = ALREADY_EXISTS;
    raws[0].create_usn = 10;
    raws[1].result = 0;
    raws[1].create_usn = 20;
    record_placeholder_results(&mut batch, &raws);
    assert_eq!(batch[0].result, ALREADY_EXISTS);
    assert_eq!(batch[0].create_usn, 10);
    assert_eq!(batch[1].result, 0);
    assert_eq!(batch[1].create_usn, 20);
    assert_eq!(batch[2].result, 0);
    assert_eq!(batch[2].create_usn, 0);
    assert_eq!(batch[2].identity, vec![3]);
}

#[test]
fn outcome_success_and_already_exists() {
    assert_eq!(placeholders_outcome(Ok(()), 3), Ok(3));
    assert_eq!(placeholders_outcome(Err(WinError { code: ALREADY_EXISTS }), 1), Ok(1));
    assert_eq!(ALREADY_EXISTS as u32, 0x800700B7);
}

#[test]
fn outcome_other_error_reports_count() {
    let e = placeholders_outcome(Err(WinError { code: -2147024891 }), 2).unwrap_err();
    assert_eq!(
        e,
        PlaceholderError::Create {
            code: WinError { code: -2147024891 },
            context: CreateErrorContext(2)
        }
    );
    match e {
        PlaceholderError::Create { context, .. } => {
            assert_eq!(context.message(), "Processed 2 entries")
        }
        _ => unreachable!(),
    }
}

#[test]
fn context_message_decimal() {
    assert_eq!(CreateErrorContext(0).message(), "Processed 0 entries");
    assert_eq!(CreateErrorContext(10).message(), "Processed 10 entries");
    assert_eq!(CreateErrorContext(1234).message(), "Processed 1234 entries");
    assert_eq!(CreateErrorContext(u32::MAX).message(), "Processed 4294967295 entries");
}

#[test]
fn metadata_change_time_is_last_write() {
    let m = FileMetadata {
        creation_time: 1,
        last_access_time: 2,
        last_write_time: 3,
        file_attributes: 32,
        file_size: 99,
    };
    let b = metadata_to_file_basic_info(&m);
    assert_eq!(
        b,
        FileBasicInfo {
            creation_time: 1,
            last_access_time: 2,
            last_write_time: 3,
            change_time: 3,
            file_attributes: 32
        }
    );
}

#[test]
fn metadata_times_wrap_like_casts() {
    let m = FileMetadata {
        creation_time: u64::MAX,
        last_access_time: 0,
        last_write_time: 1 << 63,
        file_attributes: 0,
        file_size: u64::MAX,
    };
    let b = metadata_to_file_basic_info(&m);
    assert_eq!(b.creation_time, -1);
    assert_eq!(b.last_write_time, i64::MIN);
    let raw = metadata_to_placeholder(&U16CString::from_str("f").unwrap(), &m);
    assert_eq!(raw.fs_metadata.file_size, -1);
    assert_eq!(raw.relative_file_name, vec![b'f' as u16, 0]);
    assert!(raw.file_identity.is_empty());
    assert_eq!(raw.file_identity_length, 0);
    assert_eq!(raw.fs_metadata.basic_info.change_time, i64::MIN);
}

#[test]
fn sync_state_follows_flag() {
    assert_eq!(in_sync_state(true), InSyncState::InSync);
    assert_eq!(in_sync_state(false), InSyncState::NotInSync);
}
