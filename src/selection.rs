use vstd::prelude::*;
use crate::text::chars_of;

verus! {

/// What kind of entry the selection is.
#[derive(Clone, Copy, Debug, PartialEq, Eq, Structural)]
pub enum SelectionType {
    File,
    Directory,
    Other,
}

/// Which selections a verb is offered for.
#[derive(Clone, Copy, Debug, PartialEq, Eq, Structural)]
pub enum SelectionFilter {
    Any,
    FileOnly,
    DirectoryOnly,
}

pub open spec fn accepts(f: SelectionFilter, t: SelectionType) -> bool {
    match f {
        SelectionFilter::Any => true,
        SelectionFilter::FileOnly => t == SelectionType::File,
        SelectionFilter::DirectoryOnly => t == SelectionType::Directory,
    }
}

/// Whether a verb with this filter is offered for a selection of this type.
pub fn filter_accepts(f: SelectionFilter, t: SelectionType) -> (r: bool)
    ensures
        r == accepts(f, t),
{
    match f {
        SelectionFilter::Any => true,
        SelectionFilter::FileOnly => t == SelectionType::File,
        SelectionFilter::DirectoryOnly => t == SelectionType::Directory,
    }
}

/// The selection a verb is invoked on: the entry's path, its type, its parent
/// directory and, when two panels are open, the other panel's directory.
pub struct Selection {
    pub path: Vec<char>,
    pub stype: SelectionType,
    pub parent: Vec<char>,
    pub other_panel: Option<Vec<char>>,
}

impl Selection {
    /// A selection at `path`, of type `stype`, in directory `parent`, with the
    /// other panel's directory when two panels are open.
    pub fn new(path: &str, stype: SelectionType, parent: &str, other_panel: Option<&str>) -> (r: Selection)
        ensures
            r.path@ == path@,
            r.stype == stype,
            r.parent@ == parent@,
            match other_panel {
                Some(d) => r.other_panel is Some && r.other_panel->Some_0@ == d@,
                None => r.other_panel is None,
            },
    {
        let other = match other_panel {
            Some(d) => Some(chars_of(d)),
            None => None,
        };
        Selection { path: chars_of(path), stype, parent: chars_of(parent), other_panel: other }
    }
}

} // verus!
