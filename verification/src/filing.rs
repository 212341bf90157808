//! Filing one document: what is checked, where the document goes, and which
//! operations on the file store are asked for, one after the other.
//!
//! The library touches no file. A [`FilingJob`] names the next operation, the
//! caller performs it and reports back, and the job moves on.

use crate::command::{
    place1, place2, place3, texts, Argument, ArgumentView, Invocation, InvocationView,
};
use crate::decimal::{decimal_text, format_decimal, parse_small_number, small_number};
use crate::session::SessionState;
use vstd::prelude::*;

verus! {

/// Why a request was turned away before anything was asked of the file store.
#[derive(Clone, Copy, Debug, PartialEq, Eq, Structural)]
pub enum RejectReason {
    /// The date has four characters or fewer.
    DateTooShort,
    /// The description is empty.
    EmptyDescription,
}

/// How a filing ended.
#[derive(Clone, Copy, Debug, PartialEq, Eq, Structural)]
pub enum FilingOutcome {
    /// The document was moved or split.
    Accepted,
    /// The request failed validation; nothing was asked of the file store.
    Rejected(RejectReason),
    /// A file already stands at the target; nothing was moved or written.
    Conflict,
}

/// What the operator submitted for one document.
#[derive(Clone, Debug, PartialEq, Eq)]
pub struct FilingRequest {
    /// The document's file name in the inbox.
    pub source: String,
    /// The category to file it under, a path below the inbox root.
    pub category: String,
    /// The document's date, `YYYY-MM-DD`.
    pub date: String,
    /// The free text that follows the date in the target's name.
    pub description: String,
    /// Where to split: the number of leading pages to file; `None` files the
    /// whole document.
    pub boundary: Option<u8>,
}

/// What a [`FilingRequest`] holds.
pub struct RequestView {
    pub source: Seq<char>,
    pub category: Seq<char>,
    pub date: Seq<char>,
    pub description: Seq<char>,
    pub boundary: Option<u8>,
}

impl View for FilingRequest {
    type V = RequestView;

    open spec fn view(&self) -> RequestView {
        RequestView {
            source: self.source@,
            category: self.category@,
            date: self.date@,
            description: self.description@,
            boundary: self.boundary,
        }
    }
}

/// Why `request` is turned away, if it is: the date is checked first.
pub open spec fn rejection(request: RequestView) -> Option<RejectReason> {
    if request.date.len() <= 4 {
        Some(RejectReason::DateTooShort)
    } else if request.description.len() == 0 {
        Some(RejectReason::EmptyDescription)
    } else {
        None
    }
}

/// The year folder of a date: its first four characters, whatever they are.
pub open spec fn year_of(date: Seq<char>) -> Seq<char> {
    date.subrange(0, 4)
}

/// The name under which a document is filed: date, a space, description,
/// and the extension.
pub open spec fn file_name_of(date: Seq<char>, description: Seq<char>) -> Seq<char> {
    date + " "@ + description + ".pdf"@
}

/// The page boundary that the text of a form field gives: a number from 0 to
/// 255 written in decimal, with an optional `+` in front; any other text
/// gives none.
pub open spec fn page_boundary(page: Seq<char>) -> Option<u8> {
    small_number(page)
}

/// Reads the page boundary from the text of a form field.
pub fn parse_page_boundary(page: &str) -> (r: Option<u8>)
    ensures
        r == page_boundary(page@),
{
    parse_small_number(page)
}

/// One operation on the file store that a filing asks its caller for. Every
/// place is a list of path segments below the inbox root, outermost first.
#[derive(Clone, Debug, PartialEq, Eq)]
pub enum Operation {
    /// Create the directory and every missing one above it; no fault if it
    /// is already there.
    CreateDirectory { directory: Vec<String> },
    /// Find out whether a file stands at `target`.
    Probe { target: Vec<String> },
    /// Rename `source` to `target` in one step.
    Move { source: Vec<String>, target: Vec<String> },
    /// Write the pages `first` to `last` of `source` into a new file at
    /// `target`; `source` stays as it is.
    ExtractPages { source: Vec<String>, first: u16, last: u16, target: Vec<String> },
    /// Replace `source` by its pages from `first` to its last page.
    TrimPages { source: Vec<String>, first: u16 },
}

/// What an [`Operation`] holds.
pub enum OperationView {
    CreateDirectory { directory: Seq<Seq<char>> },
    Probe { target: Seq<Seq<char>> },
    Move { source: Seq<Seq<char>>, target: Seq<Seq<char>> },
    ExtractPages { source: Seq<Seq<char>>, first: u16, last: u16, target: Seq<Seq<char>> },
    TrimPages { source: Seq<Seq<char>>, first: u16 },
}

impl View for Operation {
    type V = OperationView;

    open spec fn view(&self) -> OperationView {
        match self {
            Operation::CreateDirectory { directory } => OperationView::CreateDirectory {
                directory: texts(directory@),
            },
            Operation::Probe { target } => OperationView::Probe { target: texts(target@) },
            Operation::Move { source, target } => OperationView::Move {
                source: texts(source@),
                target: texts(target@),
            },
            Operation::ExtractPages { source, first, last, target } => OperationView::ExtractPages {
                source: texts(source@),
                first: *first,
                last: *last,
                target: texts(target@),
            },
            Operation::TrimPages { source, first } => OperationView::TrimPages {
                source: texts(source@),
                first: *first,
            },
        }
    }
}

impl OperationView {
    /// Whether the operation moves or rewrites a document. Creating a
    /// directory that may already be there and probing for a file do not.
    pub open spec fn changes_documents(self) -> bool {
        self is Move || self is ExtractPages || self is TrimPages
    }

    /// Whether the operation takes page `page` of a source of `total` pages
    /// into what it writes. Pages count from 1.
    pub open spec fn takes_page(self, page: int, total: int) -> bool {
        match self {
            OperationView::ExtractPages { first, last, .. } => first <= page <= last && page
                <= total,
            OperationView::TrimPages { first, .. } => first <= page <= total,
            OperationView::Move { .. } => 1 <= page <= total,
            _ => false,
        }
    }

    /// The command line of the page tool that performs the operation, for the
    /// two operations that need the tool: source, `--pages`, `.`, the page
    /// range, `--`, and then the target or, to replace the source,
    /// `--replace-input`. In a range `z` stands for the last page.
    pub open spec fn command(self) -> Option<InvocationView> {
        match self {
            OperationView::ExtractPages { source, first, last, target } => Some(
                InvocationView {
                    program: "qpdf"@,
                    arguments: seq![
                        ArgumentView::Place(source),
                        ArgumentView::Text("--pages"@),
                        ArgumentView::Text("."@),
                        ArgumentView::Text(
                            decimal_text(first as nat) + "-"@ + decimal_text(last as nat),
                        ),
                        ArgumentView::Text("--"@),
                        ArgumentView::Place(target),
                    ],
                },
            ),
            OperationView::TrimPages { source, first } => Some(
                InvocationView {
                    program: "qpdf"@,
                    arguments: seq![
                        ArgumentView::Place(source),
                        ArgumentView::Text("--pages"@),
                        ArgumentView::Text("."@),
                        ArgumentView::Text(decimal_text(first as nat) + "-z"@),
                        ArgumentView::Text("--"@),
                        ArgumentView::Text("--replace-input"@),
                    ],
                },
            ),
            _ => None,
        }
    }
}

/// What a list of operations holds, operation by operation.
pub open spec fn operations(v: Seq<Operation>) -> Seq<OperationView> {
    Seq::new(v.len(), |i: int| v[i]@)
}

/// A copy of a place.
fn copy_place(place: &Vec<String>) -> (r: Vec<String>)
    ensures
        texts(r@) == texts(place@),
{
    let mut r: Vec<String> = Vec::new();
    let mut i: usize = 0;
    while i < place.len()
        invariant
            i <= place.len(),
            r.len() == i,
            forall|j: int| 0 <= j < i ==> r[j]@ == place[j]@,
        decreases place.len() - i,
    {
        r.push(place[i].clone());
        i = i + 1;
    }
    assert(texts(r@) =~= texts(place@));
    r
}

impl Operation {
    /// The command line of the page tool that performs the operation, if the
    /// operation needs the tool.
    pub fn command(&self) -> (r: Option<Invocation>)
        ensures
            r is Some <==> self@.command() is Some,
            r matches Some(invocation) ==> self@.command() == Some(invocation@),
    {
        match self {
            Operation::ExtractPages { source, first, last, target } => {
                let mut range = format_decimal(*first);
                range.append("-");
                range.append(format_decimal(*last).as_str());
                let mut list: Vec<Argument> = Vec::new();
                list.push(Argument::Place(copy_place(source)));
                list.push(Argument::Text(String::from_str("--pages")));
                list.push(Argument::Text(String::from_str(".")));
                list.push(Argument::Text(range));
                list.push(Argument::Text(String::from_str("--")));
                list.push(Argument::Place(copy_place(target)));
                let r = Invocation { program: String::from_str("qpdf"), arguments: list };
                assert(r@.arguments =~= self@.command()->0.arguments);
                Some(r)
            },
            Operation::TrimPages { source, first } => {
                let mut range = format_decimal(*first);
                range.append("-z");
                let mut list: Vec<Argument> = Vec::new();
                list.push(Argument::Place(copy_place(source)));
                list.push(Argument::Text(String::from_str("--pages")));
                list.push(Argument::Text(String::from_str(".")));
                list.push(Argument::Text(range));
                list.push(Argument::Text(String::from_str("--")));
                list.push(Argument::Text(String::from_str("--replace-input")));
                let r = Invocation { program: String::from_str("qpdf"), arguments: list };
                assert(r@.arguments =~= self@.command()->0.arguments);
                Some(r)
            },
            _ => None,
        }
    }
}

/// Where a filing stands: which operation it is waiting for, or how it ended.
#[derive(Clone, Copy, Debug, PartialEq, Eq, Structural)]
pub enum Stage {
    /// Waiting for the target directory to be there.
    Ensuring,
    /// Waiting to learn whether a file stands at the target.
    Probing,
    /// Waiting for the leading pages to be written to the target.
    Extracting,
    /// Waiting for the source to be cut down to the remaining pages.
    Trimming,
    /// Waiting for the whole document to be moved.
    Moving,
    /// Ended: the document was moved or split.
    Filed,
    /// Ended: a file already stood at the target.
    Conflict,
}

/// What the caller reports after it has performed an operation.
#[derive(Clone, Copy, Debug, PartialEq, Eq, Structural)]
pub enum Reply {
    /// The operation was carried out. For a run of the page tool this means
    /// that the tool has ended, whatever its exit status.
    Completed,
    /// The probe found a file at the target.
    Present,
    /// The probe found no file at the target.
    Absent,
}

/// An accepted filing under way.
#[derive(Clone, Debug, PartialEq, Eq)]
pub struct FilingJob {
    source: String,
    category: String,
    year: String,
    file_name: String,
    boundary: Option<u8>,
    stage: Stage,
}

/// What a [`FilingJob`] holds.
pub struct JobView {
    pub source: Seq<char>,
    pub category: Seq<char>,
    pub year: Seq<char>,
    pub file_name: Seq<char>,
    pub boundary: Option<u8>,
    pub stage: Stage,
}

impl View for FilingJob {
    type V = JobView;

    closed spec fn view(&self) -> JobView {
        JobView {
            source: self.source@,
            category: self.category@,
            year: self.year@,
            file_name: self.file_name@,
            boundary: self.boundary,
            stage: self.stage,
        }
    }
}

/// The job that an accepted request opens: the target directory is the
/// category's year folder, and the first thing to do is to create it.
pub open spec fn opened(request: RequestView) -> JobView {
    JobView {
        source: request.source,
        category: request.category,
        year: year_of(request.date),
        file_name: file_name_of(request.date, request.description),
        boundary: request.boundary,
        stage: Stage::Ensuring,
    }
}

/// The reply that answers `operation` when the operation goes through, given
/// whether a file stands at the target.
pub open spec fn answer(operation: OperationView, target_exists: bool) -> Reply {
    if operation is Probe {
        if target_exists {
            Reply::Present
        } else {
            Reply::Absent
        }
    } else {
        Reply::Completed
    }
}

impl JobView {
    /// Where the document lies in the inbox.
    pub open spec fn source_place(self) -> Seq<Seq<char>> {
        seq![self.source]
    }

    /// The directory that receives the document.
    pub open spec fn directory(self) -> Seq<Seq<char>> {
        seq![self.category, self.year]
    }

    /// The file that the document becomes.
    pub open spec fn target(self) -> Seq<Seq<char>> {
        seq![self.category, self.year, self.file_name]
    }

    /// The operation that the job is waiting for; none once it has ended.
    pub open spec fn pending(self) -> Option<OperationView> {
        match self.stage {
            Stage::Ensuring => Some(OperationView::CreateDirectory { directory: self.directory() }),
            Stage::Probing => Some(OperationView::Probe { target: self.target() }),
            Stage::Extracting => Some(
                OperationView::ExtractPages {
                    source: self.source_place(),
                    first: 1,
                    last: self.split_at() as u16,
                    target: self.target(),
                },
            ),
            Stage::Trimming => Some(
                OperationView::TrimPages {
                    source: self.source_place(),
                    first: (self.split_at() + 1) as u16,
                },
            ),
            Stage::Moving => Some(
                OperationView::Move { source: self.source_place(), target: self.target() },
            ),
            Stage::Filed => None,
            Stage::Conflict => None,
        }
    }

    /// The number of leading pages that a split files; zero without a split.
    pub open spec fn split_at(self) -> nat {
        match self.boundary {
            Some(n) => n as nat,
            None => 0,
        }
    }

    /// The stage that follows when `reply` comes in. A reply that does not
    /// answer the pending operation changes nothing.
    pub open spec fn next_stage(self, reply: Reply) -> Stage {
        match (self.stage, reply) {
            (Stage::Ensuring, Reply::Completed) => Stage::Probing,
            (Stage::Probing, Reply::Present) => Stage::Conflict,
            (Stage::Probing, Reply::Absent) => if self.boundary is Some {
                Stage::Extracting
            } else {
                Stage::Moving
            },
            (Stage::Extracting, Reply::Completed) => Stage::Trimming,
            (Stage::Trimming, Reply::Completed) => Stage::Filed,
            (Stage::Moving, Reply::Completed) => Stage::Filed,
            (stage, _) => stage,
        }
    }

    /// The job after `reply` has come in.
    pub open spec fn advanced(self, reply: Reply) -> JobView {
        JobView { stage: self.next_stage(reply), ..self }
    }

    /// How the job ended, once it has.
    pub open spec fn outcome(self) -> Option<FilingOutcome> {
        match self.stage {
            Stage::Filed => Some(FilingOutcome::Accepted),
            Stage::Conflict => Some(FilingOutcome::Conflict),
            _ => None,
        }
    }

    /// An upper bound on the operations that the job will still ask for.
    pub open spec fn steps_left(self) -> nat {
        match self.stage {
            Stage::Ensuring => 4,
            Stage::Probing => 3,
            Stage::Extracting => 2,
            Stage::Trimming => 1,
            Stage::Moving => 1,
            Stage::Filed => 0,
            Stage::Conflict => 0,
        }
    }

    /// The operations that the job asks for from here to its end, in order,
    /// when each one goes through and the probe finds what `target_exists`
    /// says.
    pub open spec fn remaining(self, target_exists: bool) -> Seq<OperationView>
        decreases self.steps_left(),
    {
        match self.pending() {
            Some(operation) => seq![operation] + self.advanced(
                answer(operation, target_exists),
            ).remaining(target_exists),
            None => Seq::empty(),
        }
    }

    /// How the job ends when each operation goes through and the probe finds
    /// what `target_exists` says.
    pub open spec fn ending(self, target_exists: bool) -> Stage
        decreases self.steps_left(),
    {
        match self.pending() {
            Some(operation) => self.advanced(answer(operation, target_exists)).ending(
                target_exists,
            ),
            None => self.stage,
        }
    }
}

/// Opens a filing. A request with a date of four characters or fewer, or
/// with an empty description, is turned away and leaves the session as it
/// was. An accepted request makes its category the session's last one,
/// before any operation is asked for, and yields the job to run.
pub fn begin(request: FilingRequest, session: &mut SessionState) -> (r: Result<
    FilingJob,
    RejectReason,
>)
    ensures
        match rejection(request@) {
            Some(reason) => r == Err::<FilingJob, RejectReason>(reason) && final(session)@ == old(
                session,
            )@,
            None => r is Ok && r->Ok_0@ == opened(request@) && final(session)@ == Some(
                request@.category,
            ),
        },
{
    if request.date.as_str().unicode_len() <= 4 {
        return Err(RejectReason::DateTooShort);
    }
    if request.description.as_str().is_empty() {
        return Err(RejectReason::EmptyDescription);
    }
    let year = String::from_str(request.date.as_str().substring_char(0, 4));
    let mut file_name = request.date.clone();
    file_name.append(" ");
    file_name.append(request.description.as_str());
    file_name.append(".pdf");
    session.set(request.category.clone());
    Ok(
        FilingJob {
            source: request.source,
            category: request.category,
            year,
            file_name,
            boundary: request.boundary,
            stage: Stage::Ensuring,
        },
    )
}

impl FilingJob {
    /// The operation to perform now; none once the filing has ended.
    pub fn pending(&self) -> (r: Option<Operation>)
        ensures
            r is Some <==> self@.pending() is Some,
            r matches Some(operation) ==> self@.pending() == Some(operation@),
    {
        let split: u8 = match self.boundary {
            Some(n) => n,
            None => 0,
        };
        match self.stage {
            Stage::Ensuring => Some(
                Operation::CreateDirectory {
                    directory: place2(self.category.as_str(), self.year.as_str()),
                },
            ),
            Stage::Probing => Some(
                Operation::Probe {
                    target: place3(
                        self.category.as_str(),
                        self.year.as_str(),
                        self.file_name.as_str(),
                    ),
                },
            ),
            Stage::Extracting => Some(
                Operation::ExtractPages {
                    source: place1(self.source.as_str()),
                    first: 1,
                    last: split as u16,
                    target: place3(
                        self.category.as_str(),
                        self.year.as_str(),
                        self.file_name.as_str(),
                    ),
                },
            ),
            Stage::Trimming => Some(
                Operation::TrimPages { source: place1(self.source.as_str()), first: split as u16 + 1 },
            ),
            Stage::Moving => Some(
                Operation::Move {
                    source: place1(self.source.as_str()),
                    target: place3(
                        self.category.as_str(),
                        self.year.as_str(),
                        self.file_name.as_str(),
                    ),
                },
            ),
            Stage::Filed => None,
            Stage::Conflict => None,
        }
    }

    /// Takes in the caller's report on the pending operation and moves on. A
    /// reply that does not answer the pending operation is ignored.
    pub fn advance(&mut self, reply: Reply)
        ensures
            final(self)@ == old(self)@.advanced(reply),
    {
        let next = match (self.stage, reply) {
            (Stage::Ensuring, Reply::Completed) => Stage::Probing,
            (Stage::Probing, Reply::Present) => Stage::Conflict,
            (Stage::Probing, Reply::Absent) => if self.boundary.is_some() {
                Stage::Extracting
            } else {
                Stage::Moving
            },
            (Stage::Extracting, Reply::Completed) => Stage::Trimming,
            (Stage::Trimming, Reply::Completed) => Stage::Filed,
            (Stage::Moving, Reply::Completed) => Stage::Filed,
            (stage, _) => stage,
        };
        self.stage = next;
    }

    /// Where the filing stands.
    pub fn stage(&self) -> (r: Stage)
        ensures
            r == self@.stage,
    {
        self.stage
    }

    /// How the filing ended; none while an operation is pending.
    pub fn outcome(&self) -> (r: Option<FilingOutcome>)
        ensures
            r == self@.outcome(),
    {
        match self.stage {
            Stage::Filed => Some(FilingOutcome::Accepted),
            Stage::Conflict => Some(FilingOutcome::Conflict),
            _ => None,
        }
    }
}

/// A filing from its request to its end.
#[derive(Clone, Debug, PartialEq, Eq)]
pub struct Filing {
    /// How it ended.
    pub outcome: FilingOutcome,
    /// The operations that were asked for, in order.
    pub operations: Vec<Operation>,
}

/// The operations that filing `request` asks for, in order, when each one
/// goes through and the probe finds what `target_exists` says.
pub open spec fn filing_operations(request: RequestView, target_exists: bool) -> Seq<
    OperationView,
> {
    if rejection(request) is Some {
        Seq::empty()
    } else {
        opened(request).remaining(target_exists)
    }
}

/// How filing `request` ends when each operation goes through and the probe
/// finds what `target_exists` says.
pub open spec fn filing_outcome(request: RequestView, target_exists: bool) -> FilingOutcome {
    match rejection(request) {
        Some(reason) => FilingOutcome::Rejected(reason),
        None => if target_exists {
            FilingOutcome::Conflict
        } else {
            FilingOutcome::Accepted
        },
    }
}

/// A job that has ended stays as it is, whatever is reported to it.
pub proof fn lemma_ended_job_stays(job: JobView, reply: Reply)
    requires
        job.pending() is None,
    ensures
        job.advanced(reply) == job,
        job.outcome() is Some,
{
}

/// No document is moved or rewritten before the probe has found the target
/// absent, and the source is cut down only after the extraction of the
/// leading pages has been reported complete.
pub proof fn lemma_order_of_operations(job: JobView, reply: Reply)
    ensures
        job.stage == Stage::Ensuring ==> !job.advanced(reply).pending()->0.changes_documents(),
        job.stage == Stage::Probing && reply != Reply::Absent ==> job.advanced(reply).pending()
            is None || job.advanced(reply).pending() == job.pending(),
        job.advanced(reply).stage == Stage::Trimming && job.stage != Stage::Trimming
            ==> job.stage == Stage::Extracting && reply == Reply::Completed,
{
}

/// A request that fails validation asks nothing of the file store.
pub proof fn lemma_rejected_filing_asks_nothing(request: RequestView, target_exists: bool)
    requires
        request.date.len() <= 4 || request.description.len() == 0,
    ensures
        filing_operations(request, target_exists) == Seq::<OperationView>::empty(),
        filing_outcome(request, target_exists) is Rejected,
{
}

/// Filing onto a target that is already there ends in a conflict after the
/// directory has been ensured and the target probed: no operation moves or
/// rewrites a document. Filing the same request again meets the same end.
pub proof fn lemma_conflict_changes_nothing(request: RequestView)
    requires
        rejection(request) is None,
    ensures
        filing_outcome(request, true) == FilingOutcome::Conflict,
        filing_operations(request, true) == seq![
            OperationView::CreateDirectory { directory: opened(request).directory() },
            OperationView::Probe { target: opened(request).target() },
        ],
        forall|i: int|
            0 <= i < filing_operations(request, true).len() ==> !(
            #[trigger] filing_operations(request, true)[i]).changes_documents(),
{
    let job = opened(request);
    reveal_with_fuel(JobView::remaining, 3);
    assert(filing_operations(request, true) =~= seq![
        OperationView::CreateDirectory { directory: job.directory() },
        OperationView::Probe { target: job.target() },
    ]);
}

/// Without a page boundary and with the target absent, the document is
/// moved as a whole, with every page of it: directory, probe, one rename.
pub proof fn lemma_whole_filing(request: RequestView)
    requires
        rejection(request) is None,
        request.boundary is None,
    ensures
        filing_operations(request, false) == seq![
            OperationView::CreateDirectory { directory: opened(request).directory() },
            OperationView::Probe { target: opened(request).target() },
            OperationView::Move {
                source: opened(request).source_place(),
                target: opened(request).target(),
            },
        ],
        forall|page: int, total: int|
            1 <= page <= total ==> #[trigger] filing_operations(request, false)[2].takes_page(
                page,
                total,
            ),
{
    let job = opened(request);
    reveal_with_fuel(JobView::remaining, 4);
    assert(filing_operations(request, false) =~= seq![
        OperationView::CreateDirectory { directory: job.directory() },
        OperationView::Probe { target: job.target() },
        OperationView::Move { source: job.source_place(), target: job.target() },
    ]);
}

/// With page boundary `n` and the target absent, the pages 1 to `n` go to
/// the target and the source keeps the pages from `n + 1` on, in that order.
/// Of a source of `total` pages, `total` at least `n`, every page is taken by
/// exactly one of the two, so none is lost and none is doubled.
pub proof fn lemma_split_filing(request: RequestView, n: u8)
    requires
        rejection(request) is None,
        request.boundary == Some(n),
    ensures
        filing_operations(request, false) == seq![
            OperationView::CreateDirectory { directory: opened(request).directory() },
            OperationView::Probe { target: opened(request).target() },
            OperationView::ExtractPages {
                source: opened(request).source_place(),
                first: 1,
                last: n as u16,
                target: opened(request).target(),
            },
            OperationView::TrimPages {
                source: opened(request).source_place(),
                first: (n + 1) as u16,
            },
        ],
        forall|page: int, total: int|
            1 <= page <= total && n <= total ==> (#[trigger] filing_operations(
                request,
                false,
            )[2].takes_page(page, total) <==> !filing_operations(request, false)[3].takes_page(
                page,
                total,
            )),
{
    let job = opened(request);
    reveal_with_fuel(JobView::remaining, 5);
    assert(filing_operations(request, false) =~= seq![
        OperationView::CreateDirectory { directory: job.directory() },
        OperationView::Probe { target: job.target() },
        OperationView::ExtractPages {
            source: job.source_place(),
            first: 1,
            last: n as u16,
            target: job.target(),
        },
        OperationView::TrimPages { source: job.source_place(), first: (n + 1) as u16 },
    ]);
}

/// A job that was just opened ends in a conflict if the target is there and
/// filed if it is not.
proof fn lemma_ending(job: JobView, target_exists: bool)
    requires
        job.stage == Stage::Ensuring,
    ensures
        job.ending(target_exists) == if target_exists {
            Stage::Conflict
        } else {
            Stage::Filed
        },
{
    reveal_with_fuel(JobView::ending, 5);
}

/// Files `request` from beginning to end, given whether a file already
/// stands at the target: runs the job that [`begin`] opens, answers each
/// operation as done and the probe with `target_exists`, and returns the
/// operations in the order in which a caller would have had to perform them.
pub fn file_document(
    request: FilingRequest,
    session: &mut SessionState,
    target_exists: bool,
) -> (r: Filing)
    ensures
        r.outcome == filing_outcome(request@, target_exists),
        operations(r.operations@) == filing_operations(request@, target_exists),
        final(session)@ == if rejection(request@) is Some {
            old(session)@
        } else {
            Some(request@.category)
        },
{
    let ghost asked = request@;
    let mut job = match begin(request, session) {
        Ok(job) => job,
        Err(reason) => {
            let r = Filing { outcome: FilingOutcome::Rejected(reason), operations: Vec::new() };
            assert(operations(r.operations@) =~= Seq::<OperationView>::empty());
            return r;
        },
    };
    let mut done: Vec<Operation> = Vec::new();
    assert(operations(done@) + job@.remaining(target_exists) =~= opened(asked).remaining(
        target_exists,
    ));
    loop
        invariant
            operations(done@) + job@.remaining(target_exists) == opened(asked).remaining(
                target_exists,
            ),
            job@.ending(target_exists) == opened(asked).ending(target_exists),
        ensures
            job@.pending() is None,
            operations(done@) == opened(asked).remaining(target_exists),
            job@.stage == opened(asked).ending(target_exists),
        decreases job@.steps_left(),
    {
        let ghost before = job@;
        let ghost listed = operations(done@);
        match job.pending() {
            None => {
                assert(operations(done@) + Seq::<OperationView>::empty() =~= operations(done@));
                break ;
            },
            Some(operation) => {
                let reply = match &operation {
                    Operation::Probe { .. } => if target_exists {
                        Reply::Present
                    } else {
                        Reply::Absent
                    },
                    _ => Reply::Completed,
                };
                assert(reply == answer(operation@, target_exists));
                done.push(operation);
                job.advance(reply);
                assert(operations(done@) =~= listed + seq![operation@]);
                assert(operations(done@) + job@.remaining(target_exists) =~= listed
                    + before.remaining(target_exists));
            },
        }
    }
    proof {
        lemma_ending(opened(asked), target_exists);
    }
    let outcome = match job.stage() {
        Stage::Conflict => FilingOutcome::Conflict,
        _ => FilingOutcome::Accepted,
    };
    Filing { outcome, operations: done }
}

} // verus!
