use hook_printer::jujuenv::{split_relation_id, split_unit_num};

#[test]
fn unit_name_decomposes() {
    let r = split_unit_num("myapp/3");
    assert_eq!(r, Some(("myapp".to_string(), 3)));
}

#[test]
fn unit_name_zero_index() {
    assert_eq!(split_unit_num("app/0"), Some(("app".to_string(), 0)));
}

#[test]
fn unit_name_without_slash() {
    assert_eq!(split_unit_num("app"), None);
}

#[test]
fn unit_name_non_numeric_index() {
    assert_eq!(split_unit_num("app/x"), None);
}

#[test]
fn unit_name_empty_index() {
    assert_eq!(split_unit_num("app/"), None);
}

#[test]
fn unit_name_index_overflow() {
    assert_eq!(split_unit_num("a/99999999999"), None);
}

#[test]
fn unit_name_extra_segment_ignored() {
    assert_eq!(split_unit_num("app/3/9"), Some(("app".to_string(), 3)));
}

#[test]
fn relation_id_decomposes() {
    let r = split_relation_id("db:7");
    assert_eq!(r, Some(("db".to_string(), 7)));
}

#[test]
fn relation_id_non_numeric() {
    assert_eq!(split_relation_id("db:abc"), None);
}

#[test]
fn relation_id_empty_number() {
    assert_eq!(split_relation_id("db:"), None);
}

#[test]
fn relation_id_without_colon() {
    assert_eq!(split_relation_id("db"), None);
}

#[test]
fn relation_id_leading_zeros() {
    assert_eq!(split_relation_id("db:007"), Some(("db".to_string(), 7)));
}

#[test]
fn relation_id_u32_max() {
    assert_eq!(
        split_relation_id("db:4294967295"),
        Some(("db".to_string(), u32::MAX))
    );
}

#[test]
fn relation_id_past_u32_max() {
    assert_eq!(split_relation_id("db:4294967296"), None);
}
