//! What the operator is shown: the next document with a proposed date, or
//! the word that nothing is left.

use crate::date::{extract_date, extracted, is_canonical, pattern_token, DateError, DATE_PATTERN};
use crate::session::SessionState;
use vstd::prelude::*;

verus! {

/// A document of the inbox with the text that was read out of it.
#[derive(Clone, Debug, PartialEq, Eq)]
pub struct Document {
    /// The document's file name in the inbox.
    pub filename: String,
    /// The text of the document.
    pub raw_text: String,
}

/// The form that is offered for one document.
#[derive(Clone, Debug, PartialEq, Eq)]
pub struct Form {
    /// The date found in the document's text, or the empty text.
    pub date: String,
    /// The document's file name in the inbox.
    pub source_filename: String,
    /// The category of the latest accepted filing, or the empty text.
    pub last_target: String,
}

/// What is shown in answer to a request.
#[derive(Clone, Debug, PartialEq, Eq)]
pub enum Page {
    /// The inbox holds no waiting document.
    Done,
    /// The next document, to be confirmed and filed.
    Form(Form),
}

/// The text of a category that may be missing.
pub open spec fn or_empty(text: Option<Seq<char>>) -> Seq<char> {
    match text {
        Some(text) => text,
        None => Seq::empty(),
    }
}

/// The page for the next document. Without a document the page says that
/// all is done. With one, the form proposes the date found in its text, in
/// the shape `20YY-MM-DD`, or no date, and the category that was used last. A document whose first
/// date token stands for no date gives that token's error.
pub fn index(next: Option<Document>, session: &SessionState) -> (r: Result<Page, DateError>)
    ensures
        match next {
            None => r is Ok && r->Ok_0 is Done,
            Some(document) => match extracted(pattern_token(DATE_PATTERN@, document.raw_text@)) {
                Err(e) => r == Err::<Page, DateError>(e),
                Ok(date) => {
                    &&& r is Ok
                    &&& r->Ok_0 is Form
                    &&& r->Ok_0->Form_0.date@ == or_empty(date)
                    &&& date matches Some(found) ==> is_canonical(found)
                    &&& r->Ok_0->Form_0.source_filename@ == document.filename@
                    &&& r->Ok_0->Form_0.last_target@ == or_empty(session@)
                },
            },
        },
{
    match next {
        None => Ok(Page::Done),
        Some(document) => {
            let date = match extract_date(document.raw_text.as_str()) {
                Err(e) => {
                    return Err(e);
                },
                Ok(Some(date)) => date,
                Ok(None) => String::new(),
            };
            Ok(
                Page::Form(
                    Form {
                        date,
                        source_filename: document.filename,
                        last_target: session.get_or_empty(),
                    },
                ),
            )
        },
    }
}

} // verus!
