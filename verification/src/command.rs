//! Places below the inbox root and the command lines of the outside tools.

use vstd::prelude::*;

verus! {

/// What a list of texts holds, text by text.
pub open spec fn texts(v: Seq<String>) -> Seq<Seq<char>> {
    Seq::new(v.len(), |i: int| v[i]@)
}

/// The place below the inbox root that one segment names.
pub(crate) fn place1(a: &str) -> (r: Vec<String>)
    ensures
        texts(r@) == seq![a@],
{
    let mut r: Vec<String> = Vec::new();
    r.push(String::from_str(a));
    assert(texts(r@) =~= seq![a@]);
    r
}

/// The place below the inbox root that two segments name, outermost first.
pub(crate) fn place2(a: &str, b: &str) -> (r: Vec<String>)
    ensures
        texts(r@) == seq![a@, b@],
{
    let mut r: Vec<String> = Vec::new();
    r.push(String::from_str(a));
    r.push(String::from_str(b));
    assert(texts(r@) =~= seq![a@, b@]);
    r
}

/// The place below the inbox root that three segments name, outermost first.
pub(crate) fn place3(a: &str, b: &str, c: &str) -> (r: Vec<String>)
    ensures
        texts(r@) == seq![a@, b@, c@],
{
    let mut r: Vec<String> = Vec::new();
    r.push(String::from_str(a));
    r.push(String::from_str(b));
    r.push(String::from_str(c));
    assert(texts(r@) =~= seq![a@, b@, c@]);
    r
}

/// One argument of a command line: a fixed text, or a place below the inbox
/// root, which the caller turns into a path before it starts the tool.
#[derive(Clone, Debug, PartialEq, Eq)]
pub enum Argument {
    Text(String),
    Place(Vec<String>),
}

/// What an [`Argument`] holds.
pub enum ArgumentView {
    Text(Seq<char>),
    Place(Seq<Seq<char>>),
}

impl View for Argument {
    type V = ArgumentView;

    open spec fn view(&self) -> ArgumentView {
        match self {
            Argument::Text(t) => ArgumentView::Text(t@),
            Argument::Place(p) => ArgumentView::Place(texts(p@)),
        }
    }
}

/// What a list of arguments holds, argument by argument.
pub open spec fn arguments(v: Seq<Argument>) -> Seq<ArgumentView> {
    Seq::new(v.len(), |i: int| v[i]@)
}

/// A tool to start and the arguments to start it with.
#[derive(Clone, Debug, PartialEq, Eq)]
pub struct Invocation {
    pub program: String,
    pub arguments: Vec<Argument>,
}

/// What an [`Invocation`] holds.
pub struct InvocationView {
    pub program: Seq<char>,
    pub arguments: Seq<ArgumentView>,
}

impl View for Invocation {
    type V = InvocationView;

    open spec fn view(&self) -> InvocationView {
        InvocationView { program: self.program@, arguments: arguments(self.arguments@) }
    }
}

/// The command line that writes the text of one document to standard
/// output: the tool, the document, and `-` for where the text goes.
pub open spec fn text_extraction(file: Seq<char>) -> InvocationView {
    InvocationView {
        program: "pdftotext"@,
        arguments: seq![ArgumentView::Place(seq![file]), ArgumentView::Text("-"@)],
    }
}

/// The command line that prints the text of the document `filename` of the
/// inbox. What the tool prints is the document's text whatever its exit
/// status says.
pub fn get_pdf_content(filename: &str) -> (r: Invocation)
    ensures
        r@ == text_extraction(filename@),
{
    let mut arguments: Vec<Argument> = Vec::new();
    arguments.push(Argument::Place(place1(filename)));
    arguments.push(Argument::Text(String::from_str("-")));
    let r = Invocation { program: String::from_str("pdftotext"), arguments };
    assert(r@.arguments =~= text_extraction(filename@).arguments);
    r
}

} // verus!
