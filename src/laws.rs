use vstd::prelude::*;
use crate::dispatch::{Request, resolves_to};
use crate::error::VerbError;
use crate::keys::KeyChord;
use crate::pattern::{ArgKind, SegModel, view_segs};
use crate::registry::{key_hit, key_result, text_result, text_hit};
use crate::selection::{Selection, SelectionFilter, SelectionType, accepts};
use crate::substitute::{expand, placeholder_value};
use crate::verb::{Verb, declaration_error};

verus! {

/// A key that exactly one verb answers reaches that verb.
pub proof fn law_key_single_binding(
    verbs: Seq<Verb>,
    nb: int,
    key: KeyChord,
    stype: SelectionType,
    i: int,
    r: Option<usize>,
)
    requires
        key_result(verbs, nb, key, stype, r),
        0 <= i < verbs.len(),
        key_hit(verbs, nb, i, key, stype),
        forall|j: int| 0 <= j < verbs.len() && j != i ==> !key_hit(verbs, nb, j, key, stype),
    ensures
        r is Some,
        r->Some_0 == i,
{
}

/// Binding a key again on a verb registered later makes lookups of that key
/// return the later verb, and it alone.
pub proof fn law_key_later_binding_wins(
    verbs: Seq<Verb>,
    nb: int,
    later: Verb,
    key: KeyChord,
    stype: SelectionType,
    r: Option<usize>,
)
    requires
        key_result(verbs.push(later), nb, key, stype, r),
        0 <= nb <= verbs.len(),
        later.keys@.contains(key),
        accepts(later.selection_filter, stype),
    ensures
        r is Some,
        r->Some_0 == verbs.len(),
{
    let all = verbs.push(later);
    assert(all[verbs.len() as int] == later);
    assert(key_hit(all, nb, verbs.len() as int, key, stype));
}

/// A key lookup never gives a verb that is not offered for the selection type:
/// no file-only verb for a directory, no directory-only verb for a file.
pub proof fn law_key_respects_filter(verbs: Seq<Verb>, nb: int, key: KeyChord, stype: SelectionType, r: Option<usize>)
    requires
        key_result(verbs, nb, key, stype, r),
        r is Some,
    ensures
        stype == SelectionType::Directory ==> verbs[r->Some_0 as int].selection_filter != SelectionFilter::FileOnly,
        stype == SelectionType::File ==> verbs[r->Some_0 as int].selection_filter != SelectionFilter::DirectoryOnly,
{
}

/// The candidates for typed text never hold a verb that is not offered for the
/// selection type.
pub proof fn law_text_respects_filter(verbs: Seq<Verb>, nb: int, t: Seq<char>, stype: SelectionType, r: Seq<usize>)
    requires
        text_result(verbs, nb, t, stype, r),
    ensures
        forall|a: int| 0 <= a < r.len() && stype == SelectionType::Directory ==> verbs[#[trigger] r[a] as int].selection_filter != SelectionFilter::FileOnly,
        forall|a: int| 0 <= a < r.len() && stype == SelectionType::File ==> verbs[#[trigger] r[a] as int].selection_filter != SelectionFilter::DirectoryOnly,
{
    assert forall|a: int| 0 <= a < r.len() implies accepts(verbs[#[trigger] r[a] as int].selection_filter, stype) by {
        assert(text_hit(verbs, nb, r[a] as int, t, stype));
    }
}

/// Two outcomes of resolution that agree: the same error, the same command and
/// mode, or the same internal request.
pub open spec fn same_outcome(a: Result<Request, VerbError>, b: Result<Request, VerbError>) -> bool {
    match (a, b) {
        (Err(e), Err(f)) => e == f,
        (Ok(Request::External(x)), Ok(Request::External(y))) => x.command@ == y.command@ && x.mode == y.mode,
        (Ok(Request::Internal(x)), Ok(Request::Internal(y))) => x.internal == y.internal && x.bang == y.bang
            && match (x.argument, y.argument) {
            (Some(p), Some(q)) => p@ == q@,
            (None, None) => true,
            _ => false,
        },
        _ => false,
    }
}

/// Resolving the same verb on the same selection with the same bound text
/// always gives the same command.
pub proof fn law_resolution_deterministic(
    v: Verb,
    sel: Selection,
    b: Seq<(Seq<char>, Seq<char>)>,
    r1: Result<Request, VerbError>,
    r2: Result<Request, VerbError>,
)
    requires
        resolves_to(v, sel, b, r1),
        resolves_to(v, sel, b, r2),
    ensures
        same_outcome(r1, r2),
{
}

/// The placeholder needs the other panel's directory.
pub open spec fn needs_other_panel(s: SegModel) -> bool {
    s is Ph && (s->Ph_1 == ArgKind::OtherPanelDirectory || s->Ph_0 == "other-panel-directory"@)
}

/// No placeholder of the template lacks a value bound by typed text.
pub open spec fn no_missing_argument(segs: Seq<SegModel>, sel: Selection, b: Seq<(Seq<char>, Seq<char>)>) -> bool {
    forall|j: int| 0 <= j < segs.len() && (#[trigger] segs[j]) is Ph ==> placeholder_value(segs[j]->Ph_0, segs[j]->Ph_1, sel, b) != Err::<Seq<char>, VerbError>(VerbError::MissingArgument)
}

proof fn lemma_expand_err_source(segs: Seq<SegModel>, sel: Selection, b: Seq<(Seq<char>, Seq<char>)>)
    requires
        expand(segs, sel, b) is Err,
    ensures
        exists|j: int| 0 <= j < segs.len() && (#[trigger] segs[j]) is Ph && placeholder_value(segs[j]->Ph_0, segs[j]->Ph_1, sel, b) == Err::<Seq<char>, VerbError>(expand(segs, sel, b)->Err_0),
    decreases segs.len(),
{
    let init = segs.drop_last();
    if expand(init, sel, b) is Err {
        lemma_expand_err_source(init, sel, b);
        let j = choose|j: int| 0 <= j < init.len() && (#[trigger] init[j]) is Ph && placeholder_value(init[j]->Ph_0, init[j]->Ph_1, sel, b) == Err::<Seq<char>, VerbError>(expand(init, sel, b)->Err_0);
        assert(segs[j] == init[j]);
    } else {
        assert(segs[segs.len() - 1] == segs.last());
    }
}

proof fn lemma_expand_needs_panel(segs: Seq<SegModel>, sel: Selection, b: Seq<(Seq<char>, Seq<char>)>, j: int)
    requires
        sel.other_panel is None,
        0 <= j < segs.len(),
        needs_other_panel(segs[j]),
    ensures
        expand(segs, sel, b) is Err,
    decreases segs.len(),
{
    let init = segs.drop_last();
    if j < segs.len() - 1 {
        assert(init[j] == segs[j]);
        lemma_expand_needs_panel(init, sel, b, j);
    }
}

/// Invoking an external verb whose command needs the other panel's directory,
/// with a single panel open, gives no request; the error is `NoOtherPanel`
/// unless a placeholder lacks its typed argument.
pub proof fn law_no_other_panel(
    v: Verb,
    sel: Selection,
    b: Seq<(Seq<char>, Seq<char>)>,
    r: Result<Request, VerbError>,
    j: int,
)
    requires
        resolves_to(v, sel, b, r),
        v.execution is External,
        sel.other_panel is None,
        0 <= j < v.command@.len(),
        needs_other_panel(view_segs(v.command@)[j]),
    ensures
        r is Err,
        no_missing_argument(view_segs(v.command@), sel, b) ==> r == Err::<Request, VerbError>(VerbError::NoOtherPanel),
{
    let segs = view_segs(v.command@);
    lemma_expand_needs_panel(segs, sel, b, j);
    lemma_expand_err_source(segs, sel, b);
}

/// A verb declared with no pattern, no key and no shortcut is refused as
/// invalid.
pub proof fn law_unreachable_verb_refused()
    ensures
        declaration_error(None, Seq::empty(), Seq::empty()) == Some(VerbError::InvalidVerb),
{
    assert(Seq::<KeyChord>::empty().no_duplicates());
    assert(Seq::<Seq<char>>::empty().no_duplicates());
}

} // verus!
