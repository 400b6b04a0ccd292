// The watch set builder, the watched-file constructors, and the filesystem
// timestamp reader.

use filewatch::{date_modified, ErrorKind, FileListBuilder, WatchError, WatchedFile};

type File = WatchedFile<u32, u8>;

#[test]
fn builder_defaults() {
    let set: FileListBuilder<u8, u32, u8> = FileListBuilder::new(9u8);
    assert!(set.files.is_empty());
    assert_eq!(set.interval_millis, 1000);
    assert_eq!(set.max_retries, None);
    assert_eq!(set.open_file_func, 9u8);
    assert!(set.first_pass);
}

#[test]
fn builder_settings_stick() {
    let set: FileListBuilder<u8, u32, u8> = FileListBuilder::new(0u8)
        .with_interval(250)
        .with_max_retries(3);
    assert_eq!(set.interval_millis, 250);
    assert_eq!(set.max_retries, Some(3));
}

#[test]
fn files_keep_insertion_order() {
    let a: File = WatchedFile::with_modified("a".to_string(), 1, 0u8);
    let b: File = WatchedFile::with_modified("b".to_string(), 2, 0u8);
    let set = FileListBuilder::new(0u8).add_file(a).add_file(b);
    assert_eq!(set.files.len(), 2);
    assert_eq!(set.files[0].path, "a");
    assert_eq!(set.files[1].path, "b");
}

#[test]
fn stages_keep_insertion_order() {
    let file: File = WatchedFile::with_modified("a".to_string(), 1, 0u8)
        .add_func(10)
        .add_func(20)
        .add_func(30);
    assert_eq!(file.functions_on_run, vec![10, 20, 30]);
    assert_eq!(file.path, "a");
    assert_eq!(file.date_modified, 1);
}

#[test]
fn watched_file_from_parts() {
    let file: File = WatchedFile::with_modified("x".to_string(), 77, 4u8);
    assert_eq!(file.path, "x");
    assert_eq!(file.date_modified, 77);
    assert!(file.functions_on_run.is_empty());
    assert_eq!(file.function_on_end, 4u8);
}

#[test]
fn watched_file_new_fails_on_missing_path_with_the_path_as_detail() {
    let missing = "surely/not/a/real/path/anywhere.txt";
    let r: Result<File, WatchError> = WatchedFile::new(missing.to_string(), 0u8);
    let err = r.err().unwrap();
    assert_eq!(err.kind, ErrorKind::MetadataUnavailable);
    assert_eq!(err.detail, missing);
}

#[test]
fn date_modified_reads_an_existing_path() {
    // the current directory always has metadata
    let r = date_modified(".");
    assert!(r.is_ok());
}

#[test]
fn date_modified_fails_on_a_missing_path() {
    let missing = "surely/not/a/real/path/anywhere.txt";
    let r = date_modified(missing);
    let err = r.err().unwrap();
    assert_eq!(err.kind, ErrorKind::MetadataUnavailable);
    assert_eq!(err.detail, missing);
}
