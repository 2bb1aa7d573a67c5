use pastureen::table::print_table;

fn rows(data: &[&[&str]]) -> Vec<Vec<String>> {
    data.iter().map(|r| r.iter().map(|c| c.to_string()).collect()).collect()
}

fn headers(h: &[&str]) -> Vec<String> {
    h.iter().map(|c| c.to_string()).collect()
}

#[test]
fn test_table() {
    let sample_data = vec![
        vec!["Abel", "34", "male"],
        vec!["Tong tong wowwwww such long length", "34", "female"],
        vec!["Casper", "25", "male"],
    ];

    let mut sample_ref: Vec<Vec<String>> = Vec::with_capacity(3);
    for row in sample_data.iter() {
        sample_ref.push(row.iter().map(|c| c.to_string()).collect());
    }
    let headers = headers(&["Name", "Points", "Gender"]);
    let table = print_table(&sample_ref, &headers);

    // Adds new line at the end, because the expected output ends in one.
    let generated_output = format!("{}\n", table.join("\n"));

    let sample_output = "\
+------------------------------------+--------+--------+
| Name                               | Points | Gender |
+------------------------------------+--------+--------+
| Abel                               | 34     | male   |
| Tong tong wowwwww such long length | 34     | female |
| Casper                             | 25     | male   |
+------------------------------------+--------+--------+
";
    assert_eq!(sample_output, generated_output);
}

#[test]
fn table_with_no_rows() {
    let table = print_table(&Vec::new(), &headers(&["Ignored"]));
    assert_eq!(table, vec!["+", "|", "+", "+"]);
}

#[test]
fn table_pads_missing_cells_and_headers() {
    let table = print_table(&rows(&[&["aa", "b"], &["c"]]), &headers(&["H"]));
    assert_eq!(
        table,
        vec![
            "+----+---+",
            "| H  |   |",
            "+----+---+",
            "| aa | b |",
            "| c  |   |",
            "+----+---+",
        ]
    );
}
