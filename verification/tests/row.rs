use solana_rows::row::{Column, Operation, Row, RowKey, RowSink, Value};

fn key() -> RowKey {
    RowKey::Instruction { slot: 1, transaction_index: 2, instruction_index: 3 }
}

#[test]
fn row_keeps_columns_in_the_order_in_which_they_were_set() {
    let mut row = Row::new("table", key());
    assert_eq!(row.table, "table");
    assert_eq!(row.key, key());
    assert!(row.columns.is_empty());
    row.set_text("a", "x".to_string());
    row.set_unsigned("b", u64::MAX);
    row.set_signed("c", i64::MIN);
    row.set_boolean("d", true);
    row.set("e", Value::Bytes(vec![1, 2]));
    row.set("f", Value::TextArray(vec!["p".to_string(), "q".to_string()]));
    let names: Vec<&str> = row.columns.iter().map(|c| c.name.as_str()).collect();
    assert_eq!(names, vec!["a", "b", "c", "d", "e", "f"]);
    assert_eq!(row.columns[0].value, Value::Text("x".to_string()));
    assert_eq!(row.columns[1].value, Value::U64(u64::MAX));
    assert_eq!(row.columns[2].value, Value::I64(i64::MIN));
    assert_eq!(row.columns[3].value, Value::Bool(true));
    assert_eq!(row.columns[4].value, Value::Bytes(vec![1, 2]));
    assert_eq!(row.columns[5].value, Value::TextArray(vec!["p".to_string(), "q".to_string()]));
}

#[test]
fn setting_a_column_twice_appends_twice() {
    let mut row = Row::new("table", key());
    row.set_unsigned("a", 1);
    row.set_unsigned("a", 2);
    assert_eq!(
        row.columns,
        vec![
            Column { name: "a".to_string(), value: Value::U64(1) },
            Column { name: "a".to_string(), value: Value::U64(2) }
        ]
    );
}

#[test]
fn sink_surrenders_rows_in_the_order_of_their_arrival() {
    let mut sink = RowSink::new();
    assert_eq!(sink.len(), 0);
    for i in 0..5 {
        let mut row = Row::new(if i % 2 == 0 { "even" } else { "odd" }, RowKey::Block { slot: i });
        row.set_unsigned("i", i);
        sink.push(row);
        assert_eq!(sink.len(), i as usize + 1);
    }
    let batch = sink.into_batch();
    assert_eq!(batch.changes.len(), 5);
    for (i, change) in batch.changes.iter().enumerate() {
        assert_eq!(change.operation, Operation::Create);
        assert_eq!(change.row.key, RowKey::Block { slot: i as u64 });
        assert_eq!(change.row.table, if i % 2 == 0 { "even" } else { "odd" });
    }
}

#[test]
fn sink_keeps_duplicates() {
    let mut sink = RowSink::new();
    sink.push(Row::new("t", key()));
    sink.push(Row::new("t", key()));
    let batch = sink.into_batch();
    assert_eq!(batch.changes.len(), 2);
    assert_eq!(batch.changes[0], batch.changes[1]);
}

#[test]
fn empty_sink_gives_an_empty_batch() {
    assert!(RowSink::new().into_batch().changes.is_empty());
}

#[test]
fn get_reads_the_row_as_a_mapping() {
    let mut row = Row::new("table", key());
    assert_eq!(row.get("a"), None);
    row.set_unsigned("a", 1);
    row.set_text("b", "x".to_string());
    assert_eq!(row.get("a"), Some(&Value::U64(1)));
    assert_eq!(row.get("b"), Some(&Value::Text("x".to_string())));
    assert_eq!(row.get("c"), None);
    assert_eq!(row.get(""), None);
    // A later column of a name replaces an earlier one.
    row.set_unsigned("a", 2);
    assert_eq!(row.get("a"), Some(&Value::U64(2)));
    assert_eq!(row.get("b"), Some(&Value::Text("x".to_string())));
    assert_eq!(row.columns.len(), 3);
}
