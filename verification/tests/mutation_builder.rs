use dbbridge::mutation::{
    build_generic_insert, build_keyed_delete, build_keyed_update, erm_column_allowed,
    item_description_column_allowed, param_encodable, sanitize_identifier,
};

fn s(x: &str) -> String {
    x.to_string()
}

#[test]
fn keyed_update_shape() {
    // Table "T", key column "Id", key value "5", target "Name", value "Bob".
    let st = build_keyed_update("T", "Id", "Name", s("Bob"), s("5"));
    assert_eq!(st.sql, "UPDATE T SET [Name] = ? WHERE [Id] = ?");
    assert_eq!(st.params, vec![s("Bob"), s("5")]);
}

#[test]
fn keyed_update_strips_quotes_from_target() {
    let st = build_keyed_update("Room_Types", "Room_Code", "Ro\"om\"", s("v"), s("k"));
    assert_eq!(st.sql, "UPDATE Room_Types SET [Room] = ? WHERE [Room_Code] = ?");
    assert_eq!(st.params, vec![s("v"), s("k")]);
}

#[test]
fn keyed_delete_shape() {
    let st = build_keyed_delete("Areaslevel2", "ArealevelID", s("7"));
    assert_eq!(st.sql, "DELETE FROM Areaslevel2 WHERE [ArealevelID] = ?");
    assert_eq!(st.params, vec![s("7")]);
}

#[test]
fn generic_insert_two_columns() {
    // Mapping {"X":"1","Y":"2"} in order: two placeholders, values aligned.
    let entries = vec![(s("X"), s("1")), (s("Y"), s("2"))];
    let st = build_generic_insert("T", &entries);
    assert_eq!(st.sql, "INSERT INTO T ([X], [Y]) VALUES (?, ?)");
    assert_eq!(st.sql.matches('?').count(), 2);
    assert_eq!(st.params, vec![s("1"), s("2")]);
}

#[test]
fn generic_insert_single_column() {
    let entries = vec![(s("Notes"), s("hello"))];
    let st = build_generic_insert("Item_Schedule", &entries);
    assert_eq!(st.sql, "INSERT INTO Item_Schedule ([Notes]) VALUES (?)");
    assert_eq!(st.params, vec![s("hello")]);
}

#[test]
fn generic_insert_ten_columns_stays_aligned() {
    let mut entries = Vec::new();
    for i in 0..10 {
        entries.push((format!("C{i}"), format!("v{i}")));
    }
    let st = build_generic_insert("T", &entries);
    assert_eq!(st.sql.matches('?').count(), 10);
    let expected: Vec<String> = (0..10).map(|i| format!("v{i}")).collect();
    assert_eq!(st.params, expected);
    let cols: Vec<String> = (0..10).map(|i| format!("[C{i}]")).collect();
    assert_eq!(
        st.sql,
        format!("INSERT INTO T ({}) VALUES ({})", cols.join(", "), vec!["?"; 10].join(", "))
    );
}

#[test]
fn generic_insert_reordered_keys_follow_payload_order() {
    let forward = vec![(s("X"), s("1")), (s("Y"), s("2"))];
    let reversed = vec![(s("Y"), s("2")), (s("X"), s("1"))];
    let a = build_generic_insert("T", &forward);
    let b = build_generic_insert("T", &reversed);
    assert_eq!(a.sql, "INSERT INTO T ([X], [Y]) VALUES (?, ?)");
    assert_eq!(b.sql, "INSERT INTO T ([Y], [X]) VALUES (?, ?)");
    assert_eq!(a.params, vec![s("1"), s("2")]);
    assert_eq!(b.params, vec![s("2"), s("1")]);
}

#[test]
fn generic_insert_empty_payload() {
    let st = build_generic_insert("T", &Vec::new());
    assert_eq!(st.sql, "INSERT INTO T () VALUES ()");
    assert!(st.params.is_empty());
}

#[test]
fn generic_insert_sanitizes_keys() {
    let entries = vec![(s("Na\"me"), s("v"))];
    let st = build_generic_insert("T", &entries);
    assert_eq!(st.sql, "INSERT INTO T ([Name]) VALUES (?)");
}

#[test]
fn sanitize_identifier_strips_only_quotes() {
    assert_eq!(sanitize_identifier("plain"), s("plain"));
    assert_eq!(sanitize_identifier("\"a\"b\""), s("ab"));
    assert_eq!(sanitize_identifier("\"\""), s(""));
    assert_eq!(sanitize_identifier("sp ace-and_More1"), s("sp ace-and_More1"));
}

#[test]
fn param_encodable_rejects_interior_nul() {
    assert!(param_encodable("ordinary value"));
    assert!(param_encodable(""));
    assert!(!param_encodable("bad\0value"));
    assert!(!param_encodable("\0"));
}

#[test]
fn narrow_write_allow_lists() {
    assert!(item_description_column_allowed(&s("Item_Description")));
    assert!(item_description_column_allowed(&s("Unit_Cost")));
    assert!(!item_description_column_allowed(&s("ADB_Ref")));
    assert!(erm_column_allowed(&s("Cat")));
    assert!(erm_column_allowed(&s("Group")));
    assert!(!erm_column_allowed(&s("Item_Description")));
}
