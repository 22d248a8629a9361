use filter_design::table::{
    csv_from_schema, impulse_row_count, operation_row_count, sample_row_count, split_fields, TableSchema,
};

fn strings(v: &[&str]) -> Vec<String> {
    v.iter().map(|s| s.to_string()).collect()
}

#[test]
fn csv_joins_headers_and_rows() {
    let schema = TableSchema {
        headers: strings(&["N", "t", "F(t)"]),
        rows: vec![strings(&["1", "0.000000e0", "1.5e-1"]), strings(&["2", "1.0e-2", "-2.5e-1"])],
    };
    assert_eq!(csv_from_schema(schema), "N,t,F(t)\n1,0.000000e0,1.5e-1\n2,1.0e-2,-2.5e-1\n");
}

#[test]
fn csv_of_empty_table_is_header_line() {
    let schema = TableSchema { headers: strings(&["N", "t", "w"]), rows: vec![] };
    assert_eq!(csv_from_schema(schema), "N,t,w\n");
    let schema = TableSchema { headers: vec![], rows: vec![vec![], strings(&["x"])] };
    assert_eq!(csv_from_schema(schema), "\n\nx\n");
}

#[test]
fn split_keeps_empty_pieces() {
    assert_eq!(split_fields("N,ω,|H|,φ"), strings(&["N", "ω", "|H|", "φ"]));
    assert_eq!(split_fields(""), strings(&[""]));
    assert_eq!(split_fields(",a,,"), strings(&["", "a", "", ""]));
    assert_eq!(split_fields("abc"), strings(&["abc"]));
}

#[test]
fn split_then_join_gives_back_the_line() {
    for line in ["N,ω,|H|,φ", "", ",,", "a", "x(t),y(t)"] {
        let joined = split_fields(line).join(",");
        assert_eq!(joined, line);
    }
}

#[test]
fn row_counts() {
    assert_eq!(impulse_row_count(-3), 1);
    assert_eq!(impulse_row_count(0), 1);
    assert_eq!(impulse_row_count(10), 21);
    assert_eq!(sample_row_count(-1), 0);
    assert_eq!(sample_row_count(0), 0);
    assert_eq!(sample_row_count(42), 42);
    assert_eq!(operation_row_count(7, 100), 7);
    assert_eq!(operation_row_count(0, 100), 100);
    assert_eq!(operation_row_count(-2, 3), 3);
}

#[test]
fn csv_has_one_line_per_row() {
    let schema = TableSchema {
        headers: strings(&["N", "t", "x(t)", "y(t)"]),
        rows: (1..=7).map(|i| strings(&[&i.to_string(), "0", "1", "2"])).collect(),
    };
    let text = csv_from_schema(schema);
    assert_eq!(text.matches('\n').count(), 8);
    assert!(text.ends_with('\n'));
}
