use scan_renamer::targets::{is_year_directory, read_targets, stops_at, visit_target, TreeEntry};

fn dir(name: &str, relative: &str, children: Vec<TreeEntry>) -> TreeEntry {
    TreeEntry { is_dir: true, name: name.to_string(), relative: relative.to_string(), children }
}

fn file(name: &str, relative: &str) -> TreeEntry {
    TreeEntry { is_dir: false, name: name.to_string(), relative: relative.to_string(), children: vec![] }
}

#[test]
fn year_directory_names() {
    assert!(is_year_directory("2023"));
    assert!(is_year_directory("2000"));
    assert!(is_year_directory("2099"));
    assert!(is_year_directory("20ab"));
    assert!(!is_year_directory("1999"));
    assert!(!is_year_directory("2100"));
    assert!(!is_year_directory("202"));
    assert!(!is_year_directory("20234"));
    assert!(!is_year_directory(" 2023"));
    assert!(!is_year_directory(""));
    assert!(!is_year_directory("Bank"));
}

#[test]
fn year_folder_and_what_lies_below_are_left_out() {
    let root = dir(
        "inbox",
        "",
        vec![dir("A", "A", vec![dir("2023", "A/2023", vec![dir("B", "A/2023/B", vec![])])])],
    );
    assert_eq!(read_targets(&root), vec!["A".to_string()]);
}

#[test]
fn targets_come_depth_first_in_listing_order() {
    let root = dir(
        "inbox",
        "",
        vec![
            file("E77_1.pdf", "E77_1.pdf"),
            dir(
                "Versicherung",
                "Versicherung",
                vec![
                    dir("Auto", "Versicherung/Auto", vec![dir("2021", "Versicherung/Auto/2021", vec![])]),
                    file("liste.txt", "Versicherung/liste.txt"),
                    dir("Haus", "Versicherung/Haus", vec![]),
                ],
            ),
            dir("2024", "2024", vec![dir("Bank", "2024/Bank", vec![])]),
            dir("Bank", "Bank", vec![]),
        ],
    );
    assert_eq!(
        read_targets(&root),
        vec![
            "Versicherung".to_string(),
            "Versicherung/Auto".to_string(),
            "Versicherung/Haus".to_string(),
            "Bank".to_string(),
        ]
    );
}

#[test]
fn root_is_never_a_target() {
    assert_eq!(read_targets(&dir("inbox", "", vec![])), Vec::<String>::new());
    let named_like_a_year = dir("2024", "", vec![dir("Bank", "Bank", vec![])]);
    assert_eq!(read_targets(&named_like_a_year), vec!["Bank".to_string()]);
    assert_eq!(read_targets(&file("inbox", "")), Vec::<String>::new());
}

#[test]
fn visit_appends_to_what_is_there() {
    let mut found = vec!["first".to_string()];
    let entry = dir("A", "A", vec![dir("B", "A/B", vec![]), dir("2001", "A/2001", vec![])]);
    visit_target(true, &entry, &mut found);
    assert_eq!(found, vec!["first".to_string(), "A".to_string(), "A/B".to_string()]);
    visit_target(false, &entry, &mut found);
    assert_eq!(
        found,
        vec!["first".to_string(), "A".to_string(), "A/B".to_string(), "A/B".to_string()]
    );
    visit_target(true, &dir("2001", "2001", vec![dir("B", "2001/B", vec![])]), &mut found);
    visit_target(true, &file("C", "C"), &mut found);
    assert_eq!(found.len(), 4);
}

#[test]
fn where_a_visit_stops() {
    assert!(stops_at(true, true, "2023"));
    assert!(!stops_at(false, true, "2023"));
    assert!(!stops_at(true, true, "Bank"));
    assert!(!stops_at(false, true, "Bank"));
    assert!(stops_at(true, false, "Bank"));
    assert!(stops_at(false, false, "Bank"));
    assert!(stops_at(false, false, "2023"));
}
