use fanout::errors::CopyError;

#[test]
fn open_for_read_names_the_path() {
    let e = CopyError::OpenForRead {
        path: "missing.bin".to_string(),
    };
    assert_eq!(e.message(), "Failed to open missing.bin for reading");
}

#[test]
fn open_for_write_names_the_path() {
    let e = CopyError::OpenForWrite {
        path: "/nope/out.bin".to_string(),
    };
    assert_eq!(e.message(), "Failed to open file /nope/out.bin for writing");
}

#[test]
fn stream_errors_name_the_path() {
    let e = CopyError::ReadFailed {
        path: "in.bin".to_string(),
    };
    assert_eq!(e.message(), "Failed to read from in.bin");
    let e = CopyError::WriteFailed {
        path: "out.bin".to_string(),
    };
    assert_eq!(e.message(), "Failed to write to out.bin");
    let e = CopyError::SyncFailed {
        path: "out.bin".to_string(),
    };
    assert_eq!(e.message(), "Failed to sync out.bin");
}
