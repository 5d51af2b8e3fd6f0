use sentinel::buckets::{bucket_name, statement_bucket};

#[test]
fn bucket_table_is_in_its_fixed_order() {
    let names = [
        "config", "groups", "users", "flows", "actions", "params", "tables", "queries", "files",
        "links",
    ];
    for (index, name) in names.iter().enumerate() {
        assert_eq!(bucket_name(index as u8), Some(*name));
    }
}

#[test]
fn bucket_table_ends_after_ten_names() {
    for index in 10..=255u8 {
        assert_eq!(bucket_name(index), None);
    }
}

#[test]
fn bucket_names_differ_from_one_another() {
    for a in 0..10u8 {
        for b in 0..10u8 {
            if a != b {
                assert_ne!(bucket_name(a), bucket_name(b));
            }
        }
    }
}

#[test]
fn statement_store_has_the_default_bucket() {
    assert_eq!(statement_bucket(), "Default");
}
