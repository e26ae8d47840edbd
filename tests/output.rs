use kroeg::output::{member_lines, query_rows, response_head, row_cells};

#[test]
fn members_one_per_line() {
    let items = vec!["https://x/a".to_string(), "https://x/b".to_string()];
    assert_eq!(member_lines(&items), "https://x/a\nhttps://x/b\n");
    assert_eq!(member_lines(&vec![]), "");
}

#[test]
fn rows_are_tab_separated() {
    let rows = vec![
        vec!["a".to_string(), "b".to_string()],
        vec!["c".to_string()],
    ];
    assert_eq!(query_rows(&rows), "a\tb\nc\n");
    assert_eq!(query_rows(&vec![]), "");
    assert_eq!(query_rows(&vec![vec![]]), "\n");
    assert_eq!(row_cells(&vec!["x".to_string(), "y".to_string()]), "x\ty");
    assert_eq!(row_cells(&vec!["x".to_string()]), "x");
    assert_eq!(row_cells(&vec![]), "");
}

#[test]
fn response_head_lines() {
    let headers = vec![
        ("content-type".to_string(), "application/ld+json".to_string()),
        ("vary".to_string(), "accept".to_string()),
    ];
    assert_eq!(
        response_head("200 OK", &headers),
        "HTTP/1.0 200 OK\ncontent-type: application/ld+json\nvary: accept\n\n"
    );
    assert_eq!(response_head("404 Not Found", &vec![]), "HTTP/1.0 404 Not Found\n\n");
}
