use bear_query::table::{
    build_series, rows_to_table, ColumnData, ColumnKind, ColumnValue, FloatCell, TabulizeError,
};

fn text(s: &str) -> ColumnValue {
    ColumnValue::Text(s.to_string())
}

#[test]
fn zero_rows_give_named_all_absent_text_columns() {
    let names = vec!["id".to_string(), "title".to_string(), "modified".to_string()];
    let table = rows_to_table(names, Vec::new()).unwrap();
    assert_eq!(table.height(), 0);
    assert_eq!(table.width(), 3);
    let columns = table.columns();
    assert_eq!(columns[0].name, "id");
    assert_eq!(columns[1].name, "title");
    assert_eq!(columns[2].name, "modified");
    for column in columns {
        assert_eq!(column.data.kind(), ColumnKind::Text);
        assert_eq!(column.data.len(), 0);
    }
}

#[test]
fn integers_and_doubles_unify_to_a_float_column() {
    let half = 2.5f64.to_bits();
    let column = build_series(
        "n".to_string(),
        vec![ColumnValue::Integer(3), ColumnValue::Real(half), ColumnValue::Null, ColumnValue::Integer(-7)],
    );
    match column.data {
        ColumnData::Float(values) => assert_eq!(
            values,
            vec![
                Some(FloatCell::Widened(3)),
                Some(FloatCell::Real(half)),
                None,
                Some(FloatCell::Widened(-7))
            ]
        ),
        other => panic!("expected a float column, got {:?}", other),
    }
}

#[test]
fn integers_win_over_text_and_text_cells_become_absent() {
    let column = build_series(
        "mixed".to_string(),
        vec![text("a"), ColumnValue::Integer(1), ColumnValue::Null, ColumnValue::Integer(2), text("b")],
    );
    match column.data {
        ColumnData::Int(values) => assert_eq!(values, vec![None, Some(1), None, Some(2), None]),
        other => panic!("expected an integer column, got {:?}", other),
    }
}

#[test]
fn text_wins_over_binary() {
    let column = build_series("t".to_string(), vec![ColumnValue::Blob(vec![1, 2]), text("x"), ColumnValue::Null]);
    match column.data {
        ColumnData::Text(values) => assert_eq!(values, vec![None, Some("x".to_string()), None]),
        other => panic!("expected a text column, got {:?}", other),
    }
}

#[test]
fn binary_column_keeps_blobs() {
    let column = build_series("b".to_string(), vec![ColumnValue::Null, ColumnValue::Blob(vec![0, 255])]);
    match column.data {
        ColumnData::Binary(values) => assert_eq!(values, vec![None, Some(vec![0u8, 255])]),
        other => panic!("expected a binary column, got {:?}", other),
    }
}

#[test]
fn all_null_column_is_text_of_absent_values() {
    let column = build_series("nothing".to_string(), vec![ColumnValue::Null, ColumnValue::Null]);
    assert_eq!(column.name, "nothing");
    match column.data {
        ColumnData::Text(values) => assert_eq!(values, vec![None, None]),
        other => panic!("expected a text column, got {:?}", other),
    }
}

#[test]
fn rows_are_distributed_into_columns_in_order() {
    let names = vec!["id".to_string(), "title".to_string()];
    let rows = vec![
        vec![ColumnValue::Integer(1), text("First Note")],
        vec![ColumnValue::Integer(2), text("Second Note")],
    ];
    let table = rows_to_table(names, rows).unwrap();
    assert_eq!(table.height(), 2);
    let columns = table.into_columns();
    match &columns[0].data {
        ColumnData::Int(values) => assert_eq!(values, &vec![Some(1), Some(2)]),
        other => panic!("expected an integer column, got {:?}", other),
    }
    match &columns[1].data {
        ColumnData::Text(values) => {
            assert_eq!(values, &vec![Some("First Note".to_string()), Some("Second Note".to_string())])
        }
        other => panic!("expected a text column, got {:?}", other),
    }
}

#[test]
fn one_row_one_column_table_holds_the_title() {
    let table = rows_to_table(vec!["title".to_string()], vec![vec![text("First Note")]]).unwrap();
    assert_eq!(table.height(), 1);
    assert_eq!(table.width(), 1);
    match &table.columns()[0].data {
        ColumnData::Text(values) => assert_eq!(values, &vec![Some("First Note".to_string())]),
        other => panic!("expected a text column, got {:?}", other),
    }
}

#[test]
fn a_row_of_the_wrong_width_is_refused() {
    let names = vec!["a".to_string(), "b".to_string()];
    let rows = vec![
        vec![ColumnValue::Integer(1), ColumnValue::Integer(2)],
        vec![ColumnValue::Integer(3)],
        vec![],
    ];
    assert_eq!(
        rows_to_table(names, rows).unwrap_err(),
        TabulizeError::RowWidth { row: 1, expected: 2, found: 1 }
    );
}

#[test]
fn columns_are_found_by_name() {
    let names = vec!["a".to_string(), "b".to_string(), "a".to_string()];
    let rows = vec![vec![ColumnValue::Integer(1), text("x"), ColumnValue::Null]];
    let table = rows_to_table(names, rows).unwrap();
    assert_eq!(table.column("b").unwrap().data.kind(), ColumnKind::Text);
    assert_eq!(table.column("a").unwrap().data.kind(), ColumnKind::Int);
    assert!(table.column("c").is_none());
    assert!(table.column("").is_none());
}
