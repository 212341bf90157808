//! The category that was used last, kept between filings.

use vstd::prelude::*;

verus! {

/// Remembers the category of the latest accepted filing, so that the next
/// document can be offered the same one. It starts out empty.
pub struct SessionState {
    last_category: Option<String>,
}

impl View for SessionState {
    type V = Option<Seq<char>>;

    closed spec fn view(&self) -> Option<Seq<char>> {
        match self.last_category {
            Some(category) => Some(category@),
            None => None,
        }
    }
}

impl SessionState {
    /// A session in which nothing has been filed yet.
    pub fn new() -> (r: SessionState)
        ensures
            r@ is None,
    {
        SessionState { last_category: None }
    }

    /// The category that was set last, if any.
    pub fn get(&self) -> (r: Option<String>)
        ensures
            r is Some <==> self@ is Some,
            r matches Some(category) ==> self@ == Some(category@),
    {
        match &self.last_category {
            Some(category) => Some(category.clone()),
            None => None,
        }
    }

    /// Replaces the remembered category by `value`.
    pub fn set(&mut self, value: String)
        ensures
            final(self)@ == Some(value@),
    {
        self.last_category = Some(value);
    }

    /// The remembered category, or the empty text where there is none.
    pub fn get_or_empty(&self) -> (r: String)
        ensures
            r@ == match self@ {
                Some(category) => category,
                None => Seq::<char>::empty(),
            },
    {
        match &self.last_category {
            Some(category) => category.clone(),
            None => String::new(),
        }
    }
}

} // verus!
