use scan_renamer::inbox::{get_next_filename, is_pending_document};

fn names(list: &[&str]) -> Vec<String> {
    list.iter().map(|s| s.to_string()).collect()
}

#[test]
fn pending_names() {
    assert!(is_pending_document("E77.pdf"));
    assert!(is_pending_document("E77_0001.pdf"));
    assert!(is_pending_document("E77.pdf.pdf"));
    assert!(is_pending_document("E77 \u{e4}\u{f6}.pdf"));
    assert!(!is_pending_document("E77.PDF"));
    assert!(!is_pending_document("e77.pdf"));
    assert!(!is_pending_document("E7.pdf"));
    assert!(!is_pending_document("E77pdf"));
    assert!(!is_pending_document("E77.pd"));
    assert!(!is_pending_document("xE77.pdf"));
    assert!(!is_pending_document("E77.pdf "));
    assert!(!is_pending_document(""));
    for name in ["E77.pdf", "E77a.pdf", "E7.pdf", "E77.pdfx", "E77", ".pdf", "E77.p.pdf"] {
        assert_eq!(is_pending_document(name), name.starts_with("E77") && name.ends_with(".pdf"));
    }
}

#[test]
fn next_filename_is_the_first_pending_one() {
    let listing = names(&["notes.txt", "Bank", "E77_b.pdf", "E77_a.pdf", "other.pdf"]);
    assert_eq!(get_next_filename(&listing), Some("E77_b.pdf".to_string()));
}

#[test]
fn next_filename_of_an_inbox_without_pending_documents() {
    assert_eq!(get_next_filename(&names(&[])), None);
    assert_eq!(get_next_filename(&names(&["Bank", "2023", "scan.pdf", "E77.txt"])), None);
}
