use list_file_cgi::listing::{is_listing_name, list_file, list_names, EntryMeta, ScanEntry};

fn entry(path: &str, meta: EntryMeta) -> ScanEntry {
    ScanEntry { path: path.to_string(), meta }
}

fn header_value(resp: &list_file_cgi::response::HttpResponse, name: &str) -> Option<String> {
    resp.headers.iter().find(|h| h.name == name).map(|h| h.value.clone())
}

#[test]
fn keeps_exactly_matching_regular_files() {
    let entries = vec![
        entry("a.html", EntryMeta::File),
        entry("b.txt", EntryMeta::File),
        entry("c.htm", EntryMeta::File),
        entry("sub", EntryMeta::NotFile),
        entry(".html", EntryMeta::File),
    ];
    let names = list_names(&entries);
    assert_eq!(names, vec!["a.html".to_string(), "c.htm".to_string()]);
}

#[test]
fn reports_base_names_of_full_paths() {
    let entries = vec![
        entry("/var/www/pages/a.html", EntryMeta::File),
        entry("/var/www/pages/notes.txt", EntryMeta::File),
        entry("/var/www/pages/old.htm", EntryMeta::File),
    ];
    let names = list_names(&entries);
    assert_eq!(names, vec!["a.html".to_string(), "old.htm".to_string()]);
}

#[test]
fn skips_entries_whose_metadata_failed() {
    let entries = vec![
        entry("gone.html", EntryMeta::Unknown),
        entry("kept.html", EntryMeta::File),
    ];
    let names = list_names(&entries);
    assert_eq!(names, vec!["kept.html".to_string()]);
}

#[test]
fn success_response_carries_json_list() {
    let entries = vec![
        entry("a.html", EntryMeta::File),
        entry("b.txt", EntryMeta::File),
        entry("c.htm", EntryMeta::File),
        entry("sub", EntryMeta::NotFile),
        entry(".html", EntryMeta::File),
    ];
    let resp = list_file(Some(entries));
    assert_eq!(resp.status, 200);
    assert_eq!(resp.body, "[\"a.html\",\"c.htm\"]");
    assert_eq!(
        header_value(&resp, "Content-type").as_deref(),
        Some("application/json")
    );
    assert_eq!(
        header_value(&resp, "Content-length").as_deref(),
        Some(resp.body.len().to_string().as_str())
    );
}

#[test]
fn empty_directory_is_empty_array_not_an_error() {
    let resp = list_file(Some(Vec::new()));
    assert_eq!(resp.status, 200);
    assert_eq!(resp.body, "[]");
    assert_eq!(
        header_value(&resp, "Content-type").as_deref(),
        Some("application/json")
    );
    assert_eq!(header_value(&resp, "Content-length").as_deref(), Some("2"));
}

#[test]
fn failed_scan_is_plain_text_500() {
    let resp = list_file(None);
    assert_eq!(resp.status, 500);
    assert_eq!(resp.body, "can't list files");
    assert_eq!(
        header_value(&resp, "Content-type").as_deref(),
        Some("text/plain")
    );
    assert!(header_value(&resp, "Content-length").is_none());
    assert!(!resp.body.starts_with('['));
}

#[test]
fn same_entries_in_any_order_give_same_set() {
    let forward = vec![
        entry("a.html", EntryMeta::File),
        entry("b.txt", EntryMeta::File),
        entry("c.htm", EntryMeta::File),
        entry("sub", EntryMeta::NotFile),
    ];
    let backward = vec![
        entry("sub", EntryMeta::NotFile),
        entry("c.htm", EntryMeta::File),
        entry("b.txt", EntryMeta::File),
        entry("a.html", EntryMeta::File),
    ];
    let mut first = list_names(&forward);
    let mut second = list_names(&backward);
    first.sort();
    second.sort();
    assert_eq!(first, second);
}

#[test]
fn repeated_scans_give_same_list() {
    let entries = vec![
        entry("a.html", EntryMeta::File),
        entry("c.htm", EntryMeta::File),
    ];
    let first = list_names(&entries);
    let second = list_names(&entries);
    assert_eq!(first, second);
}

#[test]
fn multibyte_names_are_listed_and_counted_in_bytes() {
    let entries = vec![entry("/www/\u{00f6}.html", EntryMeta::File)];
    let resp = list_file(Some(entries));
    assert_eq!(resp.status, 200);
    assert_eq!(resp.body, "[\"\u{00f6}.html\"]");
    assert!(resp.body.len() > resp.body.chars().count());
    assert_eq!(
        header_value(&resp, "Content-length").as_deref(),
        Some(resp.body.len().to_string().as_str())
    );
}

#[test]
fn name_filter_edges() {
    assert!(is_listing_name("a.htm"));
    assert!(is_listing_name("a.html"));
    assert!(is_listing_name("index.html"));
    assert!(!is_listing_name(".htm"));
    assert!(!is_listing_name(".html"));
    assert!(!is_listing_name("a.htmx"));
    assert!(!is_listing_name("b.txt"));
    assert!(!is_listing_name("A.HTML"));
    assert!(!is_listing_name("html"));
    assert!(!is_listing_name(""));
}
