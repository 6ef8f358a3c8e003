use vstd::prelude::*;
use crate::error::VerbError;
use crate::internal::Internal;
use crate::keys::KeyChord;
use crate::pattern::{Binding, match_segs, match_segments, view_bindings, view_segs};
use crate::registry::{Registry, key_result, shortcut_result, text_hit, ranks_before};
use crate::selection::Selection;
use crate::substitute::{expand, expand_template};
use crate::text::{chars_of, copy_chars, string_of};
use crate::verb::{ExternalExecutionMode, Verb, VerbExecution, opt_chars};

verus! {

/// An in-process action for the application's state machine.
#[derive(Debug)]
pub struct InternalRequest {
    pub internal: Internal,
    pub bang: bool,
    pub argument: Option<Vec<char>>,
}

/// A command line for the shell, with how it is run.
#[derive(Debug)]
pub struct ExternalRequest {
    pub command: Vec<char>,
    pub mode: ExternalExecutionMode,
}

impl ExternalRequest {
    /// The command line as a string.
    pub fn command_string(&self) -> (r: String)
        ensures
            r@ == self.command@,
    {
        string_of(&self.command)
    }
}

/// What invoking a verb asks of the application.
#[derive(Debug)]
pub enum Request {
    Internal(InternalRequest),
    External(ExternalRequest),
}

/// The value bound to the first placeholder, if any.
pub open spec fn first_argument(b: Seq<(Seq<char>, Seq<char>)>) -> Option<Seq<char>> {
    if b.len() > 0 {
        Some(b[0].1)
    } else {
        None
    }
}

/// `r` is what invoking the verb on the selection with these bound values gives:
/// an internal verb passes its action, bang flag and first argument on; an
/// external one gives its filled command and mode, or the error of filling it.
pub open spec fn resolves_to(
    v: Verb,
    sel: Selection,
    b: Seq<(Seq<char>, Seq<char>)>,
    r: Result<Request, VerbError>,
) -> bool {
    match v.execution {
        VerbExecution::Internal(ie) => match r {
            Ok(Request::Internal(q)) => q.internal == ie.internal && q.bang == ie.bang && opt_chars(
                q.argument,
            ) == first_argument(b),
            _ => false,
        },
        VerbExecution::External(x) => match (r, expand(view_segs(v.command@), sel, b)) {
            (Ok(Request::External(q)), Ok(c)) => q.command@ == c && q.mode == x.mode,
            (Err(e), Err(f)) => e == f,
            _ => false,
        },
    }
}

/// Resolves a verb into the request for its execution.
pub fn resolve(v: &Verb, sel: &Selection, b: &Vec<Binding>) -> (r: Result<Request, VerbError>)
    ensures
        resolves_to(*v, *sel, view_bindings(b@), r),
{
    match &v.execution {
        VerbExecution::Internal(ie) => {
            let argument = if b.len() > 0 {
                Some(copy_chars(&b[0].value))
            } else {
                None
            };
            Ok(Request::Internal(InternalRequest { internal: ie.internal, bang: ie.bang, argument }))
        },
        VerbExecution::External(x) => {
            match expand_template(&v.command, sel, b) {
                Ok(command) => Ok(Request::External(ExternalRequest { command, mode: x.mode })),
                Err(e) => Err(e),
            }
        },
    }
}

/// Invokes the verb that a key chord reaches on the selection; `None` when no
/// verb answers the key.
pub fn invoke_key(reg: &Registry, key: KeyChord, sel: &Selection) -> (r: Option<Result<Request, VerbError>>)
    requires
        reg.wf(),
    ensures
        match r {
            Some(q) => exists|i: usize| #[trigger] key_result(reg.verbs@, reg.builtin_count as int, key, sel.stype, Some(i)) && resolves_to(
                reg.verbs@[i as int],
                *sel,
                Seq::empty(),
                q,
            ),
            None => key_result(reg.verbs@, reg.builtin_count as int, key, sel.stype, None),
        },
{
    match reg.by_key(key, sel.stype) {
        Some(i) => {
            let b: Vec<Binding> = Vec::new();
            assert(view_bindings(b@) =~= Seq::empty());
            Some(resolve(reg.verb(i), sel, &b))
        },
        None => None,
    }
}

/// Invokes the verb that a shortcut reaches on the selection; `None` when no
/// verb declares the shortcut.
pub fn invoke_shortcut(reg: &Registry, shortcut: &str, sel: &Selection) -> (r: Option<
    Result<Request, VerbError>,
>)
    requires
        reg.wf(),
    ensures
        match r {
            Some(q) => exists|i: usize| #[trigger] shortcut_result(reg.verbs@, reg.builtin_count as int, shortcut@, Some(i)) && resolves_to(
                reg.verbs@[i as int],
                *sel,
                Seq::empty(),
                q,
            ),
            None => shortcut_result(reg.verbs@, reg.builtin_count as int, shortcut@, None),
        },
{
    match reg.by_shortcut(shortcut) {
        Some(i) => {
            let b: Vec<Binding> = Vec::new();
            assert(view_bindings(b@) =~= Seq::empty());
            Some(resolve(reg.verb(i), sel, &b))
        },
        None => None,
    }
}

/// Invokes the best ranked verb whose pattern matches the typed text, with the
/// values the text binds; `None` when no verb is offered for it.
pub fn invoke_text(reg: &Registry, text: &str, sel: &Selection) -> (r: Option<Result<Request, VerbError>>)
    requires
        reg.wf(),
    ensures
        match r {
            Some(q) => exists|i: int|
                0 <= i < reg.verbs@.len() && #[trigger] text_hit(reg.verbs@, reg.builtin_count as int, i, text@, sel.stype) && (forall|j: int|
                    0 <= j < reg.verbs@.len() && j != i && text_hit(reg.verbs@, reg.builtin_count as int, j, text@, sel.stype)
                        ==> ranks_before(reg.verbs@, i, j)) && resolves_to(
                    reg.verbs@[i],
                    *sel,
                    match_segs(view_segs(reg.verbs@[i].pattern@), text@)->Some_0,
                    q,
                ),
            None => forall|j: int| 0 <= j < reg.verbs@.len() ==> !text_hit(reg.verbs@, reg.builtin_count as int, j, text@, sel.stype),
        },
{
    let cands = reg.by_invocation_prefix(text, sel.stype);
    let n = reg.len();
    if cands.len() == 0 {
        assert forall|j: int| 0 <= j < reg.verbs@.len() implies !text_hit(reg.verbs@, reg.builtin_count as int, j, text@, sel.stype) by {
            if text_hit(reg.verbs@, reg.builtin_count as int, j, text@, sel.stype) {
                assert(j <= n);
                assert(cands@.contains(j as usize));
            }
        }
        return None;
    }
    let i = cands[0];
    assert(text_hit(reg.verbs@, reg.builtin_count as int, i as int, text@, sel.stype));
    assert forall|j: int| 0 <= j < reg.verbs@.len() && j != i && text_hit(reg.verbs@, reg.builtin_count as int, j, text@, sel.stype) implies ranks_before(reg.verbs@, i as int, j) by {
        assert(j <= n);
        assert(cands@.contains(j as usize));
        let a = choose|a: int| 0 <= a < cands@.len() && cands@[a] == j as usize;
        assert(cands@[a] as int == j);
        assert(a != 0);
        assert(ranks_before(reg.verbs@, cands@[0] as int, cands@[a] as int));
    }
    let t = chars_of(text);
    let v = reg.verb(i);
    let b = match_segments(&v.pattern, &t).unwrap();
    Some(resolve(v, sel, &b))
}

} // verus!
