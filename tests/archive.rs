use archivers::{
    classify, detection_plan, entry_kind, path_to_cstring, size_hint, translate,
    translate_open_failure, unicode_path_to_cstring, Archive, DetectionConfig, Detector, Entry,
    EntryHeader, EntryKind, Error, Lifecycle, NextStep, Progress, ReadStep, Registration, Status,
    ARCHIVE_EOF, ARCHIVE_FAILED, ARCHIVE_FATAL, ARCHIVE_OK, ARCHIVE_RETRY, ARCHIVE_WARN,
    ERRNO_FILE_FORMAT, ERRNO_NOT_FOUND,
};

fn open_ok(path: &str) -> Archive {
    let mut opening = Archive::open(path.as_bytes().to_vec()).expect("path encodes");
    let plan = opening.configure(&DetectionConfig::all());
    assert_eq!(plan, vec![Detector::AllFilters, Detector::AllFormats]);
    opening.finish(ARCHIVE_OK, 0, String::new()).expect("opens")
}

fn header(name: &str, size: i64, filetype: u32) -> EntryHeader {
    EntryHeader { pathname: name.to_string(), size_is_set: true, size, filetype }
}

fn next_with(ar: &mut Archive, status: i32, h: EntryHeader) -> Result<Option<Entry>, Error> {
    assert_eq!(ar.begin_next(), Ok(NextStep::ReadHeader));
    ar.finish_next(status, String::new(), h)
}

fn listing(ar: &mut Archive, headers: Vec<EntryHeader>) -> Vec<(String, Option<u64>, EntryKind)> {
    let mut out = Vec::new();
    for h in headers {
        let e = next_with(ar, ARCHIVE_OK, h).unwrap().unwrap();
        out.push((e.name().clone(), e.size_hint(), e.kind()));
    }
    let end = next_with(ar, ARCHIVE_EOF, header("", 0, 0)).unwrap();
    assert!(end.is_none());
    out
}

#[test]
fn test_archive_create() {
    let path = "data/foo.tar";
    let ar = open_ok(path);
    let name = ar.filename();
    assert_eq!(path.as_bytes(), &name[..name.len() - 1]);
    assert_eq!(name.last(), Some(&0u8));
    assert_eq!(ar.state(), Lifecycle::Open);
}

#[test]
fn classify_every_documented_status() {
    assert_eq!(classify(ARCHIVE_OK), Status::Success);
    assert_eq!(classify(ARCHIVE_EOF), Status::EndOfArchive);
    assert_eq!(classify(ARCHIVE_WARN), Status::RecoverableWarning);
    assert_eq!(classify(ARCHIVE_RETRY), Status::OperationFailed);
    assert_eq!(classify(ARCHIVE_FAILED), Status::OperationFailed);
    assert_eq!(classify(ARCHIVE_FATAL), Status::FatalHandleError);
    assert_eq!(classify(-999), Status::OperationFailed);
}

#[test]
fn translate_keeps_code_and_text() {
    assert_eq!(translate(ARCHIVE_OK, "x".to_string()), Ok(Progress::Done));
    assert_eq!(translate(ARCHIVE_EOF, "x".to_string()), Ok(Progress::EndOfArchive));
    assert_eq!(
        translate(ARCHIVE_WARN, "w".to_string()),
        Ok(Progress::Warning { code: -20, message: "w".to_string() })
    );
    assert_eq!(
        translate(77, "odd".to_string()),
        Err(Error::OperationFailed { code: 77, message: "odd".to_string() })
    );
    assert_eq!(
        translate(ARCHIVE_FATAL, "bad".to_string()),
        Err(Error::FatalHandle { code: -30, message: "bad".to_string() })
    );
}

#[test]
fn open_failure_kinds() {
    assert_eq!(
        translate_open_failure(ARCHIVE_FATAL, ERRNO_NOT_FOUND, "missing".to_string()),
        Error::NotFound { code: ARCHIVE_FATAL, message: "missing".to_string() }
    );
    assert_eq!(
        translate_open_failure(ARCHIVE_FATAL, ERRNO_FILE_FORMAT, "unrecognized".to_string()),
        Error::OperationFailed { code: ARCHIVE_FATAL, message: "unrecognized".to_string() }
    );
    assert_eq!(
        translate_open_failure(ARCHIVE_FATAL, 5, "io".to_string()),
        Error::FatalHandle { code: ARCHIVE_FATAL, message: "io".to_string() }
    );
    assert_eq!(
        translate_open_failure(ARCHIVE_FAILED, 5, "io".to_string()),
        Error::OperationFailed { code: ARCHIVE_FAILED, message: "io".to_string() }
    );
}

#[test]
fn missing_file_is_not_found() {
    for _ in 0..3 {
        let mut opening = Archive::open(b"no/such/file.tar".to_vec()).unwrap();
        opening.configure(&DetectionConfig::all());
        let r = opening.finish(ARCHIVE_FATAL, ERRNO_NOT_FOUND, "Failed to open".to_string());
        assert_eq!(
            r.err(),
            Some(Error::NotFound { code: ARCHIVE_FATAL, message: "Failed to open".to_string() })
        );
    }
}

#[test]
fn plain_text_is_not_an_archive() {
    let mut opening = Archive::open(b"data/notes.txt".to_vec()).unwrap();
    opening.configure(&DetectionConfig::all());
    let r = opening.finish(ARCHIVE_FATAL, ERRNO_FILE_FORMAT, "Unrecognized archive format".to_string());
    assert!(matches!(r, Err(Error::OperationFailed { code: ARCHIVE_FATAL, .. })));
}

#[test]
fn open_with_warning_still_opens() {
    let mut opening = Archive::open(b"a.tar".to_vec()).unwrap();
    opening.configure(&DetectionConfig::all());
    let ar = opening.finish(ARCHIVE_WARN, 0, "w".to_string()).unwrap();
    assert_eq!(ar.state(), Lifecycle::Open);
}

#[test]
fn path_encoding() {
    assert_eq!(path_to_cstring(b"a/b".to_vec()), Ok(b"a/b\0".to_vec()));
    assert_eq!(path_to_cstring(Vec::new()), Ok(vec![0u8]));
    assert_eq!(path_to_cstring(b"a\0b".to_vec()), Err(Error::PathEncoding(b"a\0b".to_vec())));
    assert_eq!(
        unicode_path_to_cstring(None, b"bad?".to_vec()),
        Err(Error::PathEncoding(b"bad?".to_vec()))
    );
    assert_eq!(unicode_path_to_cstring(Some(b"x".to_vec()), b"x".to_vec()), Ok(b"x\0".to_vec()));
    assert!(matches!(Archive::open(b"x\0y".to_vec()), Err(Error::PathEncoding(_))));
}

#[test]
fn detection_plan_order() {
    let all = DetectionConfig::all();
    assert_eq!(detection_plan(&all), vec![Detector::AllFilters, Detector::AllFormats]);
    let some = DetectionConfig {
        filters: Registration::Only(vec![1, 2]),
        formats: Registration::All,
    };
    assert_eq!(
        detection_plan(&some),
        vec![Detector::Filter(1), Detector::Filter(2), Detector::AllFormats]
    );
    let formats = DetectionConfig {
        filters: Registration::Only(Vec::new()),
        formats: Registration::Only(vec![0x30000, 0x50000]),
    };
    assert_eq!(
        detection_plan(&formats),
        vec![Detector::Format(0x30000), Detector::Format(0x50000)]
    );
    assert_eq!(detection_plan(&some), detection_plan(&some));
}

#[test]
fn entry_kinds_and_sizes() {
    assert_eq!(entry_kind(0o100644), EntryKind::File);
    assert_eq!(entry_kind(0o040755), EntryKind::Directory);
    assert_eq!(entry_kind(0o120777), EntryKind::Symlink);
    assert_eq!(entry_kind(0o010000), EntryKind::Other);
    assert_eq!(size_hint(true, 5), Some(5));
    assert_eq!(size_hint(false, 5), None);
    assert_eq!(size_hint(true, -1), None);
}

#[test]
fn single_file_tar_scenario() {
    let mut ar = open_ok("data/foo.tar");
    let mut e = next_with(&mut ar, ARCHIVE_OK, header("hello.txt", 5, 0o100644)).unwrap().unwrap();
    assert_eq!(e.name(), "hello.txt");
    assert_eq!(e.size_hint(), Some(5));
    assert_eq!(e.kind(), EntryKind::File);
    assert_eq!(ar.begin_read(&e), Ok(ReadStep::ReadData));
    assert_eq!(ar.finish_read(&mut e, 5, String::new()), Ok(5));
    assert_eq!(ar.begin_read(&e), Ok(ReadStep::ReadData));
    assert_eq!(ar.finish_read(&mut e, 0, String::new()), Ok(0));
    assert_eq!(ar.begin_read(&e), Ok(ReadStep::EndOfData));
    let end = next_with(&mut ar, ARCHIVE_EOF, header("", 0, 0)).unwrap();
    assert!(end.is_none());
    assert_eq!(ar.begin_next(), Ok(NextStep::Finished));
    assert_eq!(ar.close(), true);
}

#[test]
fn compressed_variant_lists_the_same() {
    let headers = || vec![header("hello.txt", 5, 0o100644), header("dir", 0, 0o040755)];
    let mut plain = open_ok("data/foo.tar");
    let mut packed = open_ok("data/foo.tar.gz");
    let a = listing(&mut plain, headers());
    let b = listing(&mut packed, headers());
    assert_eq!(a, b);
    assert_eq!(a.len(), 2);
    assert_eq!(a[0].0, "hello.txt");
    assert_eq!(a[1].2, EntryKind::Directory);
}

#[test]
fn enumeration_yields_each_entry_once_in_order() {
    let mut ar = open_ok("many.zip");
    let names = ["a", "b", "c", "d"];
    let got = listing(&mut ar, names.iter().map(|n| header(n, 1, 0o100644)).collect());
    let got_names: Vec<String> = got.into_iter().map(|t| t.0).collect();
    assert_eq!(got_names, vec!["a", "b", "c", "d"]);
    assert_eq!(ar.advances(), 5);
}

#[test]
fn close_is_idempotent() {
    let mut ar = open_ok("a.tar");
    assert!(ar.close());
    assert!(!ar.close());
    assert_eq!(ar.state(), Lifecycle::Closed);
}

#[test]
fn fatal_header_closes_and_releases_once() {
    let mut ar = open_ok("a.tar");
    let r = next_with(&mut ar, ARCHIVE_FATAL, header("x", 1, 0o100644));
    assert!(matches!(r, Err(Error::FatalHandle { code: ARCHIVE_FATAL, .. })));
    assert_eq!(ar.state(), Lifecycle::Closed);
    assert_eq!(ar.begin_next(), Err(Error::HandleClosed));
    assert!(ar.close());
    assert!(!ar.close());
}

#[test]
fn failed_header_keeps_handle_open() {
    let mut ar = open_ok("a.tar");
    let r = next_with(&mut ar, ARCHIVE_FAILED, header("x", 1, 0o100644));
    assert_eq!(r.err(), Some(Error::OperationFailed { code: ARCHIVE_FAILED, message: String::new() }));
    assert_eq!(ar.state(), Lifecycle::Open);
    let w = next_with(&mut ar, ARCHIVE_WARN, header("y", 2, 0o100644)).unwrap().unwrap();
    assert_eq!(w.name(), "y");
}

#[test]
fn operations_after_close_fail() {
    let mut ar = open_ok("a.tar");
    let e = next_with(&mut ar, ARCHIVE_OK, header("x", 1, 0o100644)).unwrap().unwrap();
    ar.close();
    assert_eq!(ar.begin_next(), Err(Error::HandleClosed));
    assert_eq!(ar.begin_read(&e), Err(Error::HandleClosed));
}

#[test]
fn entry_is_stale_after_next() {
    let mut ar = open_ok("a.tar");
    let e = next_with(&mut ar, ARCHIVE_OK, header("x", 1, 0o100644)).unwrap().unwrap();
    assert_eq!(ar.begin_read(&e), Ok(ReadStep::ReadData));
    assert_eq!(ar.begin_next(), Ok(NextStep::ReadHeader));
    assert_eq!(ar.begin_read(&e), Err(Error::StaleEntry));
}

#[test]
fn data_read_failures() {
    let mut ar = open_ok("a.tar");
    let mut e = next_with(&mut ar, ARCHIVE_OK, header("x", 9, 0o100644)).unwrap().unwrap();
    assert_eq!(
        ar.finish_read(&mut e, ARCHIVE_WARN as isize, "w".to_string()),
        Err(Error::OperationFailed { code: ARCHIVE_WARN, message: "w".to_string() })
    );
    assert_eq!(ar.state(), Lifecycle::Open);
    assert_eq!(
        ar.finish_read(&mut e, ARCHIVE_FATAL as isize, "f".to_string()),
        Err(Error::FatalHandle { code: ARCHIVE_FATAL, message: "f".to_string() })
    );
    assert_eq!(ar.state(), Lifecycle::Closed);
    assert_eq!(ar.begin_read(&e), Err(Error::HandleClosed));
}
