use wasi_common::entry::{FileEntry, Filetype, HostFile, ResourceEntry};
use wasi_common::error::Error;
use wasi_common::rights::{HandleRights, FILE_CAPS_READ};
use wasi_common::table::Table;

fn file_entry(token: u64) -> ResourceEntry {
    ResourceEntry::File(FileEntry::new(
        HandleRights::new(FILE_CAPS_READ, 0),
        HostFile { token, filetype: Filetype::RegularFile },
    ))
}

fn entry_token(e: &ResourceEntry) -> u64 {
    match e {
        ResourceEntry::File(f) => f.file.token,
        ResourceEntry::Dir(d) => d.dir.token,
        ResourceEntry::Cipher(_) => panic!("not a file or directory entry"),
    }
}

#[test]
fn insert_then_get_until_removed() {
    let mut t = Table::new();
    t.insert_at(5, file_entry(77));
    assert_eq!(entry_token(t.get(5).unwrap()), 77);
    assert_eq!(entry_token(t.get(5).unwrap()), 77);
    let removed = t.remove(5).unwrap();
    assert_eq!(entry_token(&removed), 77);
    assert_eq!(t.get(5).unwrap_err(), Error::InvalidHandle);
    assert_eq!(t.remove(5).unwrap_err(), Error::InvalidHandle);
}

#[test]
fn insert_at_replaces_existing_entry() {
    let mut t = Table::new();
    t.insert_at(2, file_entry(1));
    t.insert_at(2, file_entry(9));
    assert_eq!(entry_token(t.get(2).unwrap()), 9);
}

#[test]
fn get_of_unknown_handle_is_invalid_handle() {
    let t = Table::new();
    assert_eq!(t.get(0).unwrap_err(), Error::InvalidHandle);
    assert_eq!(t.get(123).unwrap_err(), Error::InvalidHandle);
}

#[test]
fn push_returns_lowest_free_and_distinct_handles() {
    let mut t = Table::new();
    let h0 = t.push(file_entry(10)).unwrap();
    let h1 = t.push(file_entry(11)).unwrap();
    let h2 = t.push(file_entry(12)).unwrap();
    assert_eq!((h0, h1, h2), (0, 1, 2));
    t.remove(1).unwrap();
    let h = t.push(file_entry(13)).unwrap();
    assert_eq!(h, 1);
    let h = t.push(file_entry(14)).unwrap();
    assert_eq!(h, 3);
}

#[test]
fn push_skips_reserved_slots() {
    let mut t = Table::new();
    t.insert_at(0, file_entry(1));
    t.insert_at(2, file_entry(3));
    assert_eq!(t.push(file_entry(20)).unwrap(), 1);
    assert_eq!(t.push(file_entry(21)).unwrap(), 3);
    assert_eq!(t.push(file_entry(22)).unwrap(), 4);
}

#[test]
fn errno_codes_follow_the_wasi_numbering() {
    assert_eq!(Error::InvalidHandle.errno(), 8);
    assert_eq!(Error::OutOfBounds.errno(), 21);
    assert_eq!(Error::MalformedSequence.errno(), 25);
    assert_eq!(Error::InvalidArgument.errno(), 28);
    assert_eq!(Error::TableExhausted.errno(), 41);
    assert_eq!(Error::NotImplemented.errno(), 52);
    assert_eq!(Error::NotSupported.errno(), 58);
}
