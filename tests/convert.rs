use rcli::convert::pair_fields;
use rcli::http::{directory_listing, ListedEntry};

fn strings(v: &[&str]) -> Vec<String> {
    v.iter().map(|s| s.to_string()).collect()
}

#[test]
fn pairs_headers_with_fields() {
    let headers = strings(&["Name", "Position", "DOB"]);
    let fields = strings(&["Messi", "Forward", "1987-06-24"]);
    assert_eq!(
        pair_fields(&headers, &fields),
        vec![
            ("Name".to_string(), "Messi".to_string()),
            ("Position".to_string(), "Forward".to_string()),
            ("DOB".to_string(), "1987-06-24".to_string()),
        ]
    );
    let short = strings(&["Messi"]);
    assert_eq!(
        pair_fields(&headers, &short),
        vec![("Name".to_string(), "Messi".to_string())]
    );
    assert!(pair_fields(&Vec::new(), &fields).is_empty());
}

#[test]
fn lists_directory_entries() {
    let entries = vec![
        ListedEntry { name: "src".to_string(), is_dir: true },
        ListedEntry { name: "a.txt".to_string(), is_dir: false },
    ];
    assert_eq!(
        directory_listing(&entries),
        "<html><body><ul><li><a href=\"src/\">src/</a></li><li><a href=\"a.txt\">a.txt</a></li></ul></body></html>"
    );
    assert_eq!(directory_listing(&Vec::new()), "<html><body><ul></ul></body></html>");
}
