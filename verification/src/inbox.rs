//! Picking the next document out of the inbox.

use vstd::prelude::*;

verus! {

/// Whether a file name is that of a document waiting to be filed: it begins
/// with `E77` and ends with `.pdf`.
pub open spec fn is_pending(name: Seq<char>) -> bool {
    let n = name.len() as int;
    &&& n >= 7
    &&& name[0] == 'E'
    &&& name[1] == '7'
    &&& name[2] == '7'
    &&& name[n - 4] == '.'
    &&& name[n - 3] == 'p'
    &&& name[n - 2] == 'd'
    &&& name[n - 1] == 'f'
}

/// A name is that of a waiting document exactly if it is `E77`, anything or
/// nothing, and `.pdf`.
pub proof fn lemma_pending_shape(name: Seq<char>)
    ensures
        is_pending(name) <==> exists|middle: Seq<char>|
            name == seq!['E', '7', '7'] + middle + seq!['.', 'p', 'd', 'f'],
{
    if is_pending(name) {
        let middle = name.subrange(3, name.len() - 4);
        assert(name =~= seq!['E', '7', '7'] + middle + seq!['.', 'p', 'd', 'f']);
    }
    if exists|middle: Seq<char>| name == seq!['E', '7', '7'] + middle + seq!['.', 'p', 'd', 'f'] {
        let middle = choose|middle: Seq<char>|
            name == seq!['E', '7', '7'] + middle + seq!['.', 'p', 'd', 'f'];
        let built = seq!['E', '7', '7'] + middle + seq!['.', 'p', 'd', 'f'];
        assert(built.len() == middle.len() + 7);
        assert(built[0] == 'E' && built[1] == '7' && built[2] == '7');
        let n = built.len() as int;
        assert(built[n - 4] == '.' && built[n - 3] == 'p' && built[n - 2] == 'd' && built[n - 1]
            == 'f');
    }
}

/// Decides whether `name` is the name of a document waiting to be filed.
pub fn is_pending_document(name: &str) -> (r: bool)
    ensures
        r == is_pending(name@),
{
    let n = name.unicode_len();
    n >= 7 && name.get_char(0) == 'E' && name.get_char(1) == '7' && name.get_char(2) == '7'
        && name.get_char(n - 4) == '.' && name.get_char(n - 3) == 'p' && name.get_char(n - 2)
        == 'd' && name.get_char(n - 1) == 'f'
}

/// The next document to file: the first of `names`, the entries of the inbox
/// in the order in which the file store lists them, that is the name of a
/// waiting document. `None` means that nothing is left to file.
pub fn get_next_filename(names: &Vec<String>) -> (r: Option<String>)
    ensures
        r is None <==> forall|i: int| 0 <= i < names.len() ==> !is_pending(#[trigger] names[i]@),
        r matches Some(name) ==> exists|i: int|
            0 <= i < names.len() && #[trigger] names[i]@ == name@ && is_pending(name@)
                && forall|j: int| 0 <= j < i ==> !is_pending(#[trigger] names[j]@),
{
    let mut i: usize = 0;
    while i < names.len()
        invariant
            i <= names.len(),
            forall|j: int| 0 <= j < i ==> !is_pending(#[trigger] names[j]@),
        decreases names.len() - i,
    {
        if is_pending_document(names[i].as_str()) {
            let name = names[i].clone();
            assert(names[i as int]@ == name@);
            return Some(name);
        }
        i = i + 1;
    }
    None
}

} // verus!
