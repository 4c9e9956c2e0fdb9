use fypm::text::{decimal_string, i32_string, join_strings, repeat_string};
use fypm::uuid::find_uuid;

#[test]
fn decimal_string_renders_numbers() {
    assert_eq!(decimal_string(0), "0");
    assert_eq!(decimal_string(7), "7");
    assert_eq!(decimal_string(10), "10");
    assert_eq!(decimal_string(65535), "65535");
    assert_eq!(decimal_string(u64::MAX), u64::MAX.to_string());
}

#[test]
fn i32_string_renders_signs() {
    assert_eq!(i32_string(2024), "2024");
    assert_eq!(i32_string(-5), "-5");
    assert_eq!(i32_string(i32::MIN), "-2147483648");
    assert_eq!(i32_string(0), "0");
}

#[test]
fn join_strings_matches_slice_join() {
    let parts = vec!["a".to_string(), "bc".to_string(), "".to_string(), "d".to_string()];
    assert_eq!(join_strings(&parts, " "), parts.join(" "));
    assert_eq!(join_strings(&vec![], " "), "");
    assert_eq!(join_strings(&vec!["x".to_string()], ", "), "x");
}

#[test]
fn repeat_string_repeats() {
    assert_eq!(repeat_string("─", 3), "───");
    assert_eq!(repeat_string(" ", 0), "");
}

#[test]
fn find_uuid_takes_leftmost() {
    let out = "Created task 3 (a1b2c3d4-e5f6-7890-abcd-ef0123456789), see also 00000000-0000-0000-0000-000000000000.";
    assert_eq!(find_uuid(out).as_deref(), Some("a1b2c3d4-e5f6-7890-abcd-ef0123456789"));
}

#[test]
fn find_uuid_accepts_upper_case() {
    assert_eq!(find_uuid("X-A1B2C3D4-E5F6-7890-ABCD-EF0123456789-").as_deref(), Some("A1B2C3D4-E5F6-7890-ABCD-EF0123456789"));
}

#[test]
fn find_uuid_rejects_near_misses() {
    assert_eq!(find_uuid("a1b2c3d4-e5f6-7890-abcd-ef012345678"), None);
    assert_eq!(find_uuid("g1b2c3d4-e5f6-7890-abcd-ef0123456789"), None);
    assert_eq!(find_uuid(""), None);
}

#[test]
fn find_uuid_of_a_bare_uuid_is_itself() {
    let u = "0123abcd-4567-89ef-0123-456789abcdef";
    assert_eq!(find_uuid(u).as_deref(), Some(u));
    assert_eq!(find_uuid(&format!("{}{}", u, " trailing")).as_deref(), Some(u));
}

#[test]
fn find_uuid_does_not_return_its_input() {
    let out = "Created task 12 (uuid 0123abcd-4567-89ef-0123-456789abcdef).";
    let found = find_uuid(out).unwrap();
    assert_ne!(found, out);
}
