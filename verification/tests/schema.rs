use tsid_database_id::schema::{
    display_name, expected_description, schema_id_name, schema_name, schema_pattern,
};
use tsid_database_id::{IDOrganisation, IDUnknown};

#[test]
fn schema_names() {
    assert_eq!(schema_name::<IDOrganisation>(), "TSID_org");
    assert_eq!(schema_name::<IDUnknown>(), "TSID_unknown");
}

#[test]
fn display_names() {
    assert_eq!(display_name::<IDOrganisation>(), "TSID_org");
    assert_eq!(display_name::<IDUnknown>(), "TSID");
}

#[test]
fn schema_id_names() {
    assert_eq!(schema_id_name::<IDOrganisation>(), "TSID<org>");
    assert_eq!(schema_id_name::<IDUnknown>(), "TSID<unknown>");
}

#[test]
fn schema_patterns() {
    assert_eq!(
        schema_pattern::<IDOrganisation>(),
        Some("^(org_)(\\w|\\d)+$".to_string())
    );
    assert_eq!(schema_pattern::<IDUnknown>(), None);
}

#[test]
fn expected_descriptions() {
    assert_eq!(
        expected_description::<IDOrganisation>(),
        "string TSID prefixed with org_"
    );
    assert_eq!(
        expected_description::<IDUnknown>(),
        "string TSID prefixed with nothing_"
    );
}
