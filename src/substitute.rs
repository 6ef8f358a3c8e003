use vstd::prelude::*;
use crate::error::VerbError;
use crate::path::{resolve, resolve_path};
use crate::pattern::{ArgKind, Binding, SegModel, Segment, view_bindings, view_segs};
use crate::selection::{Selection, SelectionType};
use crate::text::{chars_eq, chars_eq_str, copy_chars, extend_chars};

verus! {

/// Characters that a shell reads as part of a plain word.
pub open spec fn is_safe(c: char) -> bool {
    ('a' <= c && c <= 'z') || ('A' <= c && c <= 'Z') || ('0' <= c && c <= '9') || c == '/'
        || c == '.' || c == '_' || c == '-' || c == '+' || c == ',' || c == ':' || c == '='
        || c == '@' || c == '%'
}

pub open spec fn all_safe(s: Seq<char>) -> bool {
    forall|i: int| 0 <= i < s.len() ==> is_safe(#[trigger] s[i])
}

/// The text with each single quote written as `'\''`.
pub open spec fn escape(s: Seq<char>) -> Seq<char>
    decreases s.len(),
{
    if s.len() == 0 {
        Seq::empty()
    } else {
        escape(s.drop_last()) + if s.last() == '\'' {
            seq!['\'', '\\', '\'', '\'']
        } else {
            seq![s.last()]
        }
    }
}

/// The text as one shell argument: as it is when every character is plain,
/// else between single quotes.
pub open spec fn quote(s: Seq<char>) -> Seq<char> {
    if s.len() > 0 && all_safe(s) {
        s
    } else {
        seq!['\''] + escape(s) + seq!['\'']
    }
}

fn is_safe_exec(c: char) -> (r: bool)
    ensures
        r == is_safe(c),
{
    ('a' <= c && c <= 'z') || ('A' <= c && c <= 'Z') || ('0' <= c && c <= '9') || c == '/'
        || c == '.' || c == '_' || c == '-' || c == '+' || c == ',' || c == ':' || c == '='
        || c == '@' || c == '%'
}

/// Quotes a value so that a shell takes it as one argument.
pub fn quote_exec(s: &Vec<char>) -> (r: Vec<char>)
    ensures
        r@ == quote(s@),
{
    let mut safe = s.len() > 0;
    let mut i: usize = 0;
    while i < s.len()
        invariant
            i <= s@.len(),
            safe == (s@.len() > 0 && forall|j: int| 0 <= j < i ==> is_safe(#[trigger] s@[j])),
        decreases s.len() - i,
    {
        if !is_safe_exec(s[i]) {
            safe = false;
        }
        i = i + 1;
    }
    if safe {
        return copy_chars(s);
    }
    let mut r: Vec<char> = Vec::new();
    r.push('\'');
    let mut i: usize = 0;
    assert(s@.take(0) =~= Seq::<char>::empty());
    while i < s.len()
        invariant
            i <= s@.len(),
            r@ == seq!['\''] + escape(s@.take(i as int)),
        decreases s.len() - i,
    {
        assert(s@.take(i + 1).drop_last() =~= s@.take(i as int));
        let c = s[i];
        if c == '\'' {
            r.push('\'');
            r.push('\\');
            r.push('\'');
            r.push('\'');
        } else {
            r.push(c);
        }
        i = i + 1;
        assert(r@ =~= seq!['\''] + escape(s@.take(i as int)));
    }
    assert(s@.take(s@.len() as int) =~= s@);
    r.push('\'');
    assert(r@ =~= quote(s@));
    r
}

/// The value that typed text bound to the first placeholder of this name.
pub open spec fn bound_value(b: Seq<(Seq<char>, Seq<char>)>, n: Seq<char>) -> Option<Seq<char>>
    decreases b.len(),
{
    if b.len() == 0 {
        None
    } else if b[0].0 == n {
        Some(b[0].1)
    } else {
        bound_value(b.drop_first(), n)
    }
}

/// The selected directory itself, or the parent of a selected file.
pub open spec fn directory_of(sel: Selection) -> Seq<char> {
    if sel.stype == SelectionType::Directory {
        sel.path@
    } else {
        sel.parent@
    }
}

/// The unquoted value that a template placeholder stands for.
pub open spec fn placeholder_value(
    n: Seq<char>,
    k: ArgKind,
    sel: Selection,
    b: Seq<(Seq<char>, Seq<char>)>,
) -> Result<Seq<char>, VerbError> {
    if k == ArgKind::OtherPanelDirectory || n == "other-panel-directory"@ {
        match sel.other_panel {
            Some(d) => Ok(d@),
            None => Err(VerbError::NoOtherPanel),
        }
    } else if n == "file"@ {
        Ok(sel.path@)
    } else if n == "directory"@ {
        Ok(directory_of(sel))
    } else if n == "parent"@ {
        Ok(sel.parent@)
    } else {
        match bound_value(b, n) {
            None => Err(VerbError::MissingArgument),
            Some(v) => Ok(
                match k {
                    ArgKind::PathFromParent => resolve(sel.parent@, v),
                    ArgKind::PathFromDirectory => resolve(directory_of(sel), v),
                    _ => v,
                },
            ),
        }
    }
}

/// The command that a template gives: literals as they are, each placeholder by
/// its quoted value; the first placeholder without a value decides the error.
pub open spec fn expand(
    segs: Seq<SegModel>,
    sel: Selection,
    b: Seq<(Seq<char>, Seq<char>)>,
) -> Result<Seq<char>, VerbError>
    decreases segs.len(),
{
    if segs.len() == 0 {
        Ok(Seq::empty())
    } else {
        match expand(segs.drop_last(), sel, b) {
            Err(e) => Err(e),
            Ok(acc) => match segs.last() {
                SegModel::Lit(l) => Ok(acc + l),
                SegModel::Ph(n, k) => match placeholder_value(n, k, sel, b) {
                    Err(e) => Err(e),
                    Ok(v) => Ok(acc + quote(v)),
                },
            },
        }
    }
}

fn find_bound(b: &Vec<Binding>, n: &Vec<char>) -> (r: Option<Vec<char>>)
    ensures
        match r {
            Some(v) => bound_value(view_bindings(b@), n@) == Some(v@),
            None => bound_value(view_bindings(b@), n@) is None,
        },
{
    let ghost bv = view_bindings(b@);
    let mut i: usize = 0;
    assert(bv.skip(0) =~= bv);
    while i < b.len()
        invariant
            bv == view_bindings(b@),
            i <= b@.len(),
            bound_value(bv, n@) == bound_value(bv.skip(i as int), n@),
        decreases b.len() - i,
    {
        assert(bv.skip(i as int)[0] == b@[i as int]@);
        assert(bv.skip(i as int).drop_first() =~= bv.skip(i + 1));
        if chars_eq(&b[i].name, n) {
            return Some(copy_chars(&b[i].value));
        }
        i = i + 1;
    }
    None
}

fn directory_exec(sel: &Selection) -> (r: Vec<char>)
    ensures
        r@ == directory_of(*sel),
{
    if sel.stype == SelectionType::Directory {
        copy_chars(&sel.path)
    } else {
        copy_chars(&sel.parent)
    }
}

fn value_exec(n: &Vec<char>, k: ArgKind, sel: &Selection, b: &Vec<Binding>) -> (r: Result<
    Vec<char>,
    VerbError,
>)
    ensures
        match r {
            Ok(v) => placeholder_value(n@, k, *sel, view_bindings(b@)) == Ok::<Seq<char>, VerbError>(v@),
            Err(e) => placeholder_value(n@, k, *sel, view_bindings(b@)) == Err::<Seq<char>, VerbError>(e),
        },
{
    if k == ArgKind::OtherPanelDirectory || chars_eq_str(n, "other-panel-directory") {
        match &sel.other_panel {
            Some(d) => Ok(copy_chars(d)),
            None => Err(VerbError::NoOtherPanel),
        }
    } else if chars_eq_str(n, "file") {
        Ok(copy_chars(&sel.path))
    } else if chars_eq_str(n, "directory") {
        Ok(directory_exec(sel))
    } else if chars_eq_str(n, "parent") {
        Ok(copy_chars(&sel.parent))
    } else {
        match find_bound(b, n) {
            None => Err(VerbError::MissingArgument),
            Some(v) => {
                match k {
                    ArgKind::PathFromParent => Ok(resolve_path(&sel.parent, &v)),
                    ArgKind::PathFromDirectory => {
                        let d = directory_exec(sel);
                        Ok(resolve_path(&d, &v))
                    },
                    _ => Ok(v),
                }
            },
        }
    }
}

/// Fills a command template from the selection and the bound arguments.
pub fn expand_template(segs: &Vec<Segment>, sel: &Selection, b: &Vec<Binding>) -> (r: Result<
    Vec<char>,
    VerbError,
>)
    ensures
        match r {
            Ok(v) => expand(view_segs(segs@), *sel, view_bindings(b@)) == Ok::<Seq<char>, VerbError>(v@),
            Err(e) => expand(view_segs(segs@), *sel, view_bindings(b@)) == Err::<Seq<char>, VerbError>(e),
        },
{
    let ghost sv = view_segs(segs@);
    let mut out: Vec<char> = Vec::new();
    let mut i: usize = 0;
    assert(sv.take(0) =~= Seq::<SegModel>::empty());
    while i < segs.len()
        invariant
            sv == view_segs(segs@),
            i <= segs@.len(),
            expand(sv.take(i as int), *sel, view_bindings(b@)) == Ok::<Seq<char>, VerbError>(out@),
        decreases segs.len() - i,
    {
        assert(sv.take(i + 1).drop_last() =~= sv.take(i as int));
        assert(sv.take(i + 1).last() == segs@[i as int]@);
        match &segs[i] {
            Segment::Literal(l) => {
                extend_chars(&mut out, l);
            },
            Segment::Placeholder(n, k) => {
                match value_exec(n, *k, sel, b) {
                    Err(e) => {
                        assert(sv.take(i + 1).len() <= sv.len());
                        proof {
                            lemma_expand_err_extends(sv, i + 1, *sel, view_bindings(b@));
                        }
                        return Err(e);
                    },
                    Ok(v) => {
                        let q = quote_exec(&v);
                        extend_chars(&mut out, &q);
                    },
                }
            },
        }
        i = i + 1;
    }
    assert(sv.take(sv.len() as int) =~= sv);
    Ok(out)
}

/// An error of a template's first segments is the error of the whole template.
proof fn lemma_expand_err_extends(
    segs: Seq<SegModel>,
    i: int,
    sel: Selection,
    b: Seq<(Seq<char>, Seq<char>)>,
)
    requires
        0 <= i <= segs.len(),
        expand(segs.take(i), sel, b) is Err,
    ensures
        expand(segs, sel, b) == expand(segs.take(i), sel, b),
    decreases segs.len() - i,
{
    if i < segs.len() {
        assert(segs.take(i + 1).drop_last() =~= segs.take(i));
        lemma_expand_err_extends(segs, i + 1, sel, b);
    } else {
        assert(segs.take(i) =~= segs);
    }
}

} // verus!
