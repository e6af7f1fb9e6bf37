use russh::sftp::{
    flags_for_mode, FLAG_APPEND, FLAG_CREATE, FLAG_READ, FLAG_TRUNCATE, FLAG_WRITE,
};

#[test]
fn mode_r_is_read_only() {
    assert_eq!(flags_for_mode("r"), Some(FLAG_READ));
    assert_eq!(flags_for_mode("r"), Some(0x1));
}

#[test]
fn mode_r_plus_is_read_write() {
    assert_eq!(flags_for_mode("r+"), Some(FLAG_READ | FLAG_WRITE));
    assert_eq!(flags_for_mode("r+"), Some(0x3));
}

#[test]
fn mode_w_is_truncate_write() {
    assert_eq!(flags_for_mode("w"), Some(FLAG_TRUNCATE | FLAG_WRITE));
    assert_eq!(flags_for_mode("w"), Some(0x1a));
}

#[test]
fn mode_w_plus_is_truncate_read_write() {
    assert_eq!(flags_for_mode("w+"), Some(FLAG_WRITE | FLAG_TRUNCATE | FLAG_READ));
    assert_eq!(flags_for_mode("w+"), Some(0x1b));
}

#[test]
fn mode_a_is_create_append() {
    assert_eq!(flags_for_mode("a"), Some(FLAG_CREATE | FLAG_APPEND));
    assert_eq!(flags_for_mode("a"), Some(0xc));
}

#[test]
fn mode_a_plus_is_create_append_read_write() {
    assert_eq!(
        flags_for_mode("a+"),
        Some(FLAG_CREATE | FLAG_APPEND | FLAG_READ | FLAG_WRITE)
    );
    assert_eq!(flags_for_mode("a+"), Some(0xf));
}

#[test]
fn unrecognized_modes_are_rejected() {
    assert_eq!(flags_for_mode(""), None);
    assert_eq!(flags_for_mode("x"), None);
    assert_eq!(flags_for_mode("rw"), None);
    assert_eq!(flags_for_mode("r++"), None);
    assert_eq!(flags_for_mode("wb"), None);
    assert_eq!(flags_for_mode("+r"), None);
}
