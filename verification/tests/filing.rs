use scan_renamer::command::{get_pdf_content, Argument, Invocation};
use scan_renamer::filing::{
    begin, file_document, parse_page_boundary, Filing, FilingOutcome, FilingRequest, Operation,
    RejectReason, Reply, Stage,
};
use scan_renamer::session::SessionState;

fn request(date: &str, description: &str, boundary: Option<u8>) -> FilingRequest {
    FilingRequest {
        source: "E77_0001.pdf".to_string(),
        category: "Bank/Giro".to_string(),
        date: date.to_string(),
        description: description.to_string(),
        boundary,
    }
}

fn place(segments: &[&str]) -> Vec<String> {
    segments.iter().map(|s| s.to_string()).collect()
}

fn text(s: &str) -> Argument {
    Argument::Text(s.to_string())
}

#[test]
fn whole_document_is_moved() {
    let mut session = SessionState::new();
    let filing = file_document(request("2024-08-01", "Kontoauszug", None), &mut session, false);
    assert_eq!(
        filing,
        Filing {
            outcome: FilingOutcome::Accepted,
            operations: vec![
                Operation::CreateDirectory { directory: place(&["Bank/Giro", "2024"]) },
                Operation::Probe { target: place(&["Bank/Giro", "2024", "2024-08-01 Kontoauszug.pdf"]) },
                Operation::Move {
                    source: place(&["E77_0001.pdf"]),
                    target: place(&["Bank/Giro", "2024", "2024-08-01 Kontoauszug.pdf"]),
                },
            ],
        }
    );
    assert_eq!(session.get(), Some("Bank/Giro".to_string()));
    assert!(filing.operations.iter().all(|operation| operation.command().is_none()));
}

#[test]
fn split_files_leading_pages_and_keeps_the_rest() {
    let mut session = SessionState::new();
    let filing = file_document(request("2023-03-05", "Rechnung", Some(3)), &mut session, false);
    let target = place(&["Bank/Giro", "2023", "2023-03-05 Rechnung.pdf"]);
    assert_eq!(filing.outcome, FilingOutcome::Accepted);
    assert_eq!(
        filing.operations,
        vec![
            Operation::CreateDirectory { directory: place(&["Bank/Giro", "2023"]) },
            Operation::Probe { target: target.clone() },
            Operation::ExtractPages {
                source: place(&["E77_0001.pdf"]),
                first: 1,
                last: 3,
                target: target.clone(),
            },
            Operation::TrimPages { source: place(&["E77_0001.pdf"]), first: 4 },
        ]
    );
    assert_eq!(
        filing.operations[2].command(),
        Some(Invocation {
            program: "qpdf".to_string(),
            arguments: vec![
                Argument::Place(place(&["E77_0001.pdf"])),
                text("--pages"),
                text("."),
                text("1-3"),
                text("--"),
                Argument::Place(target),
            ],
        })
    );
    assert_eq!(
        filing.operations[3].command(),
        Some(Invocation {
            program: "qpdf".to_string(),
            arguments: vec![
                Argument::Place(place(&["E77_0001.pdf"])),
                text("--pages"),
                text("."),
                text("4-z"),
                text("--"),
                text("--replace-input"),
            ],
        })
    );
    assert_eq!(filing.operations[0].command(), None);
    assert_eq!(filing.operations[1].command(), None);
}

#[test]
fn split_pages_are_conserved() {
    for n in [0u8, 1, 2, 9, 10, 254, 255] {
        let mut session = SessionState::new();
        let filing = file_document(request("2023-03-05", "x", Some(n)), &mut session, false);
        match (&filing.operations[2], &filing.operations[3]) {
            (Operation::ExtractPages { first, last, .. }, Operation::TrimPages { first: rest, .. }) => {
                assert_eq!(*first, 1);
                assert_eq!(*last, n as u16);
                assert_eq!(*rest, n as u16 + 1);
                let total = 300u16;
                for page in 1..=total {
                    let filed = *first <= page && page <= *last;
                    let kept = *rest <= page;
                    assert!(filed != kept);
                }
            }
            other => panic!("{:?}", other),
        }
        let head = filing.operations[2].command().unwrap();
        let tail = filing.operations[3].command().unwrap();
        assert_eq!(head.arguments[3], text(&format!("1-{}", n)));
        assert_eq!(tail.arguments[3], text(&format!("{}-z", n as u16 + 1)));
    }
}

#[test]
fn largest_boundary_does_not_wrap() {
    let mut session = SessionState::new();
    let filing = file_document(request("2023-03-05", "x", Some(255)), &mut session, false);
    assert_eq!(filing.operations[2].command().unwrap().arguments[3], text("1-255"));
    assert_eq!(filing.operations[3].command().unwrap().arguments[3], text("256-z"));
}

#[test]
fn existing_target_is_a_conflict_each_time() {
    let mut session = SessionState::new();
    let first = file_document(request("2024-08-01", "Kontoauszug", Some(2)), &mut session, true);
    let second = file_document(request("2024-08-01", "Kontoauszug", Some(2)), &mut session, true);
    assert_eq!(first, second);
    assert_eq!(first.outcome, FilingOutcome::Conflict);
    assert_eq!(
        first.operations,
        vec![
            Operation::CreateDirectory { directory: place(&["Bank/Giro", "2024"]) },
            Operation::Probe { target: place(&["Bank/Giro", "2024", "2024-08-01 Kontoauszug.pdf"]) },
        ]
    );
    assert_eq!(session.get(), Some("Bank/Giro".to_string()));
}

#[test]
fn filing_again_after_success_changes_nothing() {
    let mut session = SessionState::new();
    let first = file_document(request("2024-08-01", "Kontoauszug", None), &mut session, false);
    assert!(first.operations.iter().any(|op| matches!(op, Operation::Move { .. })));
    let second = file_document(request("2024-08-01", "Kontoauszug", None), &mut session, true);
    assert_eq!(second.outcome, FilingOutcome::Conflict);
    assert!(second.operations.iter().all(|op| {
        matches!(op, Operation::CreateDirectory { .. } | Operation::Probe { .. })
    }));
}

#[test]
fn short_date_or_empty_description_asks_nothing() {
    let cases = [
        ("2024", "Kontoauszug", RejectReason::DateTooShort),
        ("", "Kontoauszug", RejectReason::DateTooShort),
        ("\u{e4}\u{e4}\u{e4}\u{e4}", "Kontoauszug", RejectReason::DateTooShort),
        ("2024-08-01", "", RejectReason::EmptyDescription),
        ("2024", "", RejectReason::DateTooShort),
    ];
    for (date, description, reason) in cases {
        for exists in [false, true] {
            let mut session = SessionState::new();
            session.set("Alt".to_string());
            let filing = file_document(request(date, description, Some(1)), &mut session, exists);
            assert_eq!(filing.outcome, FilingOutcome::Rejected(reason));
            assert_eq!(filing.operations, vec![]);
            assert_eq!(session.get(), Some("Alt".to_string()));
            assert_eq!(begin(request(date, description, None), &mut session), Err(reason));
            assert_eq!(session.get(), Some("Alt".to_string()));
        }
    }
}

#[test]
fn date_of_five_characters_is_long_enough() {
    let mut session = SessionState::new();
    let filing = file_document(request("2024-", "x", None), &mut session, false);
    assert_eq!(filing.outcome, FilingOutcome::Accepted);
    assert_eq!(
        filing.operations[1],
        Operation::Probe { target: place(&["Bank/Giro", "2024", "2024- x.pdf"]) }
    );
}

#[test]
fn year_folder_is_the_first_four_characters() {
    let mut session = SessionState::new();
    let filing = file_document(request("gestern", "Brief", None), &mut session, false);
    assert_eq!(
        filing.operations[0],
        Operation::CreateDirectory { directory: place(&["Bank/Giro", "gest"]) }
    );
    let filing = file_document(request("\u{e4}\u{f6}\u{fc}\u{df}-01", "Brief", None), &mut session, false);
    assert_eq!(
        filing.operations[0],
        Operation::CreateDirectory { directory: place(&["Bank/Giro", "\u{e4}\u{f6}\u{fc}\u{df}"]) }
    );
}

#[test]
fn job_runs_step_by_step() {
    let mut session = SessionState::new();
    let mut job = begin(request("2024-08-01", "Kontoauszug", Some(7)), &mut session).unwrap();
    assert_eq!(session.get(), Some("Bank/Giro".to_string()));
    assert_eq!(job.stage(), Stage::Ensuring);
    assert_eq!(job.outcome(), None);
    assert!(matches!(job.pending(), Some(Operation::CreateDirectory { .. })));
    job.advance(Reply::Completed);
    assert_eq!(job.stage(), Stage::Probing);
    assert!(matches!(job.pending(), Some(Operation::Probe { .. })));
    job.advance(Reply::Absent);
    assert_eq!(job.stage(), Stage::Extracting);
    assert!(matches!(job.pending(), Some(Operation::ExtractPages { first: 1, last: 7, .. })));
    job.advance(Reply::Completed);
    assert_eq!(job.stage(), Stage::Trimming);
    assert!(matches!(job.pending(), Some(Operation::TrimPages { first: 8, .. })));
    assert_eq!(job.outcome(), None);
    job.advance(Reply::Completed);
    assert_eq!(job.stage(), Stage::Filed);
    assert_eq!(job.pending(), None);
    assert_eq!(job.outcome(), Some(FilingOutcome::Accepted));
}

#[test]
fn reply_that_does_not_fit_is_ignored() {
    let mut session = SessionState::new();
    let mut job = begin(request("2024-08-01", "Kontoauszug", None), &mut session).unwrap();
    let fresh = job.clone();
    job.advance(Reply::Present);
    job.advance(Reply::Absent);
    assert_eq!(job, fresh);
    job.advance(Reply::Completed);
    let probing = job.clone();
    job.advance(Reply::Completed);
    assert_eq!(job, probing);
    job.advance(Reply::Present);
    assert_eq!(job.stage(), Stage::Conflict);
    assert_eq!(job.outcome(), Some(FilingOutcome::Conflict));
    let ended = job.clone();
    for reply in [Reply::Completed, Reply::Present, Reply::Absent] {
        job.advance(reply);
        assert_eq!(job, ended);
        assert_eq!(job.pending(), None);
    }
}

#[test]
fn whole_document_job_moves_after_the_probe() {
    let mut session = SessionState::new();
    let mut job = begin(request("2024-08-01", "Kontoauszug", None), &mut session).unwrap();
    job.advance(Reply::Completed);
    job.advance(Reply::Absent);
    assert_eq!(job.stage(), Stage::Moving);
    job.advance(Reply::Absent);
    assert_eq!(job.stage(), Stage::Moving);
    job.advance(Reply::Completed);
    assert_eq!(job.outcome(), Some(FilingOutcome::Accepted));
}

#[test]
fn page_boundary_of_a_form_field() {
    assert_eq!(parse_page_boundary(""), None);
    assert_eq!(parse_page_boundary("3"), Some(3));
    assert_eq!(parse_page_boundary("+3"), Some(3));
    assert_eq!(parse_page_boundary("0"), Some(0));
    assert_eq!(parse_page_boundary("255"), Some(255));
    assert_eq!(parse_page_boundary("256"), None);
    assert_eq!(parse_page_boundary("007"), Some(7));
    assert_eq!(parse_page_boundary("-1"), None);
    assert_eq!(parse_page_boundary(" 3"), None);
    assert_eq!(parse_page_boundary("3 "), None);
    assert_eq!(parse_page_boundary("drei"), None);
}

#[test]
fn text_extraction_command_line() {
    assert_eq!(
        get_pdf_content("E77_0001.pdf"),
        Invocation {
            program: "pdftotext".to_string(),
            arguments: vec![Argument::Place(place(&["E77_0001.pdf"])), text("-")],
        }
    );
}
