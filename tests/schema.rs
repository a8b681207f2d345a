use bear_query::schema::{
    discover_metadata, generate_normalizing_cte, BearDbMetadata, SchemaDiscoveryError, TableInfo,
};

fn table(name: &str, columns: &[&str]) -> TableInfo {
    TableInfo { name: name.to_string(), columns: columns.iter().map(|c| c.to_string()).collect() }
}

fn bear_catalog(junction: TableInfo) -> Vec<TableInfo> {
    vec![
        table(
            "ZSFNOTE",
            &["Z_PK", "ZUNIQUEIDENTIFIER", "ZTITLE", "ZTEXT", "ZMODIFICATIONDATE", "ZCREATIONDATE",
              "ZPINNED", "ZTRASHED", "ZARCHIVED"],
        ),
        table("ZSFNOTETAG", &["Z_PK", "ZTITLE", "ZMODIFICATIONDATE"]),
        junction,
        table("ZSFNOTEBACKLINK", &["ZLINKEDBY", "ZLINKINGTO"]),
    ]
}

#[test]
fn test_discover_metadata_with_test_schema() {
    let catalog = vec![table("Z_5TAGS", &["Z_5NOTES", "Z_13TAGS"])];

    let metadata = discover_metadata(&catalog).unwrap();

    assert_eq!(metadata.junction_table_name, "Z_5TAGS");
    assert_eq!(metadata.junction_notes_column, "Z_5NOTES");
    assert_eq!(metadata.junction_tags_column, "Z_13TAGS");
}

#[test]
fn test_discover_metadata_with_different_numbers() {
    let catalog = vec![table("Z_7TAGS", &["Z_7NOTES", "Z_15TAGS"])];

    let metadata = discover_metadata(&catalog).unwrap();

    assert_eq!(metadata.junction_table_name, "Z_7TAGS");
    assert_eq!(metadata.junction_notes_column, "Z_7NOTES");
    assert_eq!(metadata.junction_tags_column, "Z_15TAGS");
}

#[test]
fn test_generate_normalizing_cte() {
    let metadata = BearDbMetadata {
        junction_table_name: "Z_5TAGS".to_string(),
        junction_notes_column: "Z_5NOTES".to_string(),
        junction_tags_column: "Z_13TAGS".to_string(),
    };

    let cte = generate_normalizing_cte(&metadata);

    assert!(cte.contains("FROM Z_5TAGS as nt"));
    assert!(cte.contains("nt.Z_5NOTES as note_id"));
    assert!(cte.contains("nt.Z_13TAGS as tag_id"));
}

#[test]
fn discovery_finds_the_junction_among_bear_tables() {
    let catalog = bear_catalog(table("Z_5TAGS", &["Z_5NOTES", "Z_13TAGS"]));
    let metadata = discover_metadata(&catalog).unwrap();
    assert_eq!(metadata.junction_table_name, "Z_5TAGS");
    assert_eq!(metadata.junction_notes_column, "Z_5NOTES");
    assert_eq!(metadata.junction_tags_column, "Z_13TAGS");
}

#[test]
fn discovery_takes_the_first_junction_table_in_catalog_order() {
    let catalog = vec![
        table("Z_9TAGS", &["Z_9NOTES", "Z_21TAGS"]),
        table("Z_5TAGS", &["Z_5NOTES", "Z_13TAGS"]),
    ];
    let metadata = discover_metadata(&catalog).unwrap();
    assert_eq!(metadata.junction_table_name, "Z_9TAGS");
    assert_eq!(metadata.junction_tags_column, "Z_21TAGS");
}

#[test]
fn discovery_rejects_names_without_a_version_number() {
    let catalog = vec![
        table("Z_TAGS", &["Z_5NOTES", "Z_13TAGS"]),
        table("Z_5XTAGS", &["Z_5NOTES", "Z_13TAGS"]),
        table("X_5TAGS", &["Z_5NOTES", "Z_13TAGS"]),
        table("Z_5TAG", &["Z_5NOTES", "Z_13TAGS"]),
    ];
    assert_eq!(discover_metadata(&catalog).unwrap_err(), SchemaDiscoveryError::NoJunctionTable);
}

#[test]
fn discovery_fails_on_a_catalog_without_junction_table() {
    let catalog = vec![table("ZSFNOTE", &["Z_PK"]), table("ZSFNOTETAG", &["Z_PK"])];
    assert_eq!(discover_metadata(&catalog).unwrap_err(), SchemaDiscoveryError::NoJunctionTable);
    assert_eq!(discover_metadata(&Vec::new()).unwrap_err(), SchemaDiscoveryError::NoJunctionTable);
}

#[test]
fn discovery_fails_without_notes_column() {
    let catalog = vec![table("Z_5TAGS", &["Z_PK", "Z_13TAGS"])];
    assert_eq!(discover_metadata(&catalog).unwrap_err(), SchemaDiscoveryError::NoNotesColumn);
}

#[test]
fn discovery_fails_without_tags_column() {
    let catalog = vec![table("Z_5TAGS", &["Z_5NOTES", "Z_PK"])];
    assert_eq!(discover_metadata(&catalog).unwrap_err(), SchemaDiscoveryError::NoTagsColumn);
}

#[test]
fn cte_is_the_same_for_the_same_metadata() {
    let metadata = BearDbMetadata {
        junction_table_name: "Z_5TAGS".to_string(),
        junction_notes_column: "Z_5NOTES".to_string(),
        junction_tags_column: "Z_13TAGS".to_string(),
    };
    let again = metadata.clone();
    assert_eq!(generate_normalizing_cte(&metadata), generate_normalizing_cte(&again));
}

#[test]
fn cte_differs_between_versions_only_in_the_junction_names() {
    let v5 = discover_metadata(&vec![table("Z_5TAGS", &["Z_5NOTES", "Z_13TAGS"])]).unwrap();
    let v7 = discover_metadata(&vec![table("Z_7TAGS", &["Z_7NOTES", "Z_15TAGS"])]).unwrap();
    let cte5 = generate_normalizing_cte(&v5);
    let cte7 = generate_normalizing_cte(&v7)
        .replace("Z_7TAGS", "Z_5TAGS")
        .replace("Z_7NOTES", "Z_5NOTES")
        .replace("Z_15TAGS", "Z_13TAGS");
    assert_eq!(cte5, cte7);
    assert!(cte5.contains("978307200"));
    assert!(cte5.contains("note_tags AS"));
}
