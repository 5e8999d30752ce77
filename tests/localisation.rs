use eu4_stats::localisation::{collect_entries, localisation_table};

fn pair(a: &str, b: &str) -> (String, String) {
    (a.to_string(), b.to_string())
}

#[test]
fn entries_keep_present_captures_in_order() {
    let caps = vec![Some(pair("A01", "Alpha")), None, Some(pair("B02", "Beta"))];
    assert_eq!(collect_entries(&caps), vec![pair("A01", "Alpha"), pair("B02", "Beta")]);
    assert_eq!(collect_entries(&Vec::new()), Vec::new());
}

#[test]
fn localisation_lines_declare_names() {
    let lines: Vec<String> = vec![
        "l_english:".to_string(),
        " A01:0 \"Kingdom of Alpha\"".to_string(),
        "# a comment".to_string(),
        " B02:0 \"The \"Quoted\" Realm\"".to_string(),
        " C03_ADJ:0 \"Adjective\"".to_string(),
    ];
    assert_eq!(
        localisation_table(&lines),
        vec![pair("A01", "Kingdom of Alpha"), pair("B02", "The \"Quoted\" Realm")]
    );
}
