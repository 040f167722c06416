use record_update::records::{get_toggled_record, toggle_record_flag};
use record_update::Record;

#[test]
fn toggle_in_place_flips_only_flag() {
    let mut r = Record { a: 4, b: 8, c: false };
    toggle_record_flag(&mut r);
    assert_eq!(r, Record { a: 4, b: 8, c: true });
    toggle_record_flag(&mut r);
    assert_eq!(r, Record { a: 4, b: 8, c: false });
}

#[test]
fn toggled_copy_leaves_original() {
    let r = Record { a: 1, b: 2, c: true };
    let t = get_toggled_record(r);
    assert_eq!(t, Record { a: 1, b: 2, c: false });
    assert_eq!(r, Record { a: 1, b: 2, c: true });
}
