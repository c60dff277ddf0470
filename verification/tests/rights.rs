use wasi_common::entry::{DirEntry, HostDir};
use wasi_common::rights::{HandleRights, DIR_CAPS_ALL, FILE_CAPS_ALL, FILE_CAPS_READ, FILE_CAPS_WRITE};

#[test]
fn derive_intersects_with_inheriting_mask() {
    let parent = HandleRights::new(DIR_CAPS_ALL, 0b0110);
    let requested = HandleRights::new(0b1111, 0b1011);
    let derived = parent.derive(requested);
    assert_eq!(derived.base, 0b0110);
    assert_eq!(derived.inheriting, 0b0010);
}

#[test]
fn derive_from_empty_inheriting_grants_nothing() {
    let parent = HandleRights::new(FILE_CAPS_READ | FILE_CAPS_WRITE, 0);
    let derived = parent.derive(HandleRights::new(FILE_CAPS_ALL, FILE_CAPS_ALL));
    assert_eq!(derived.base, 0);
    assert_eq!(derived.inheriting, 0);
}

#[test]
fn directory_derivation_never_widens() {
    let d = DirEntry::new(
        HandleRights::new(DIR_CAPS_ALL, 0b01),
        HandleRights::new(FILE_CAPS_ALL, FILE_CAPS_READ | FILE_CAPS_WRITE),
        None,
        HostDir { token: 4 },
    );
    let requested = HandleRights::new(FILE_CAPS_ALL, FILE_CAPS_ALL);
    let derived = d.derive_file_rights(requested);
    // never beyond the parent's inheriting mask
    assert_eq!(derived.base & !(FILE_CAPS_READ | FILE_CAPS_WRITE), 0);
    // never beyond what was requested
    assert_eq!(derived.base & !requested.base, 0);
    assert_eq!(derived.base, FILE_CAPS_READ | FILE_CAPS_WRITE);

    let narrow = d.derive_file_rights(HandleRights::new(FILE_CAPS_WRITE, 0));
    assert_eq!(narrow.base, FILE_CAPS_WRITE);
    assert_eq!(narrow.inheriting, 0);

    let sub = d.derive_dir_rights(HandleRights::new(DIR_CAPS_ALL, DIR_CAPS_ALL));
    assert_eq!(sub.base, 0b01);
    assert_eq!(sub.inheriting, 0b01);
}
