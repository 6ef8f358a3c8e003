use vstd::prelude::*;
use crate::text::{chars_eq_str, extend_chars};

verus! {

/// The components stack after one more component: `.` and empty ones are
/// skipped, `..` drops the last one kept.
pub open spec fn apply_component(stack: Seq<Seq<char>>, comp: Seq<char>) -> Seq<Seq<char>> {
    if comp.len() == 0 || comp == "."@ {
        stack
    } else if comp == ".."@ {
        if stack.len() > 0 {
            stack.drop_last()
        } else {
            stack
        }
    } else {
        stack.push(comp)
    }
}

/// The stack of kept components and the component being read, after a scan of `s`.
pub open spec fn path_scan(s: Seq<char>) -> (Seq<Seq<char>>, Seq<char>)
    decreases s.len(),
{
    if s.len() == 0 {
        (Seq::empty(), Seq::empty())
    } else {
        let (stack, cur) = path_scan(s.drop_last());
        if s.last() == '/' {
            (apply_component(stack, cur), Seq::empty())
        } else {
            (stack, cur.push(s.last()))
        }
    }
}

/// The components of a path once `.`, `..` and repeated separators are resolved.
pub open spec fn components(s: Seq<char>) -> Seq<Seq<char>> {
    let (stack, cur) = path_scan(s);
    apply_component(stack, cur)
}

/// The absolute path text of a components stack.
pub open spec fn join(stack: Seq<Seq<char>>) -> Seq<char>
    decreases stack.len(),
{
    if stack.len() == 0 {
        Seq::empty()
    } else {
        join(stack.drop_last()) + seq!['/'] + stack.last()
    }
}

pub open spec fn path_text(stack: Seq<Seq<char>>) -> Seq<char> {
    if stack.len() == 0 {
        seq!['/']
    } else {
        join(stack)
    }
}

/// `rel` taken from `base` and normalized: an absolute `rel` stands alone.
pub open spec fn resolve(base: Seq<char>, rel: Seq<char>) -> Seq<char> {
    if rel.len() > 0 && rel[0] == '/' {
        path_text(components(rel))
    } else {
        path_text(components(base + seq!['/'] + rel))
    }
}

pub open spec fn view_stack(s: Seq<Vec<char>>) -> Seq<Seq<char>> {
    s.map_values(|v: Vec<char>| v@)
}

fn apply_exec(stack: &mut Vec<Vec<char>>, comp: Vec<char>)
    ensures
        view_stack(final(stack)@) == apply_component(view_stack(old(stack)@), comp@),
{
    if comp.len() == 0 || chars_eq_str(&comp, ".") {
    } else if chars_eq_str(&comp, "..") {
        if stack.len() > 0 {
            let _ = stack.pop();
            assert(view_stack(stack@) =~= view_stack(old(stack)@).drop_last());
        }
    } else {
        stack.push(comp);
        assert(view_stack(stack@) =~= view_stack(old(stack)@).push(comp@));
    }
}

fn components_exec(s: &Vec<char>) -> (r: Vec<Vec<char>>)
    ensures
        view_stack(r@) == components(s@),
{
    let mut stack: Vec<Vec<char>> = Vec::new();
    let mut cur: Vec<char> = Vec::new();
    let mut i: usize = 0;
    assert(s@.take(0) =~= Seq::<char>::empty());
    assert(view_stack(stack@) =~= Seq::<Seq<char>>::empty());
    while i < s.len()
        invariant
            i <= s@.len(),
            path_scan(s@.take(i as int)) == (view_stack(stack@), cur@),
        decreases s.len() - i,
    {
        let c = s[i];
        assert(s@.take(i + 1).drop_last() =~= s@.take(i as int));
        if c == '/' {
            apply_exec(&mut stack, cur);
            cur = Vec::new();
        } else {
            cur.push(c);
        }
        i = i + 1;
    }
    assert(s@.take(s@.len() as int) =~= s@);
    apply_exec(&mut stack, cur);
    stack
}

fn path_text_exec(stack: &Vec<Vec<char>>) -> (r: Vec<char>)
    ensures
        r@ == path_text(view_stack(stack@)),
{
    let mut r: Vec<char> = Vec::new();
    if stack.len() == 0 {
        r.push('/');
        assert(r@ =~= seq!['/']);
        return r;
    }
    let mut i: usize = 0;
    while i < stack.len()
        invariant
            i <= stack@.len(),
            r@ == join(view_stack(stack@).take(i as int)),
        decreases stack.len() - i,
    {
        assert(view_stack(stack@).take(i + 1).drop_last() =~= view_stack(stack@).take(i as int));
        r.push('/');
        extend_chars(&mut r, &stack[i]);
        i = i + 1;
        assert(r@ =~= join(view_stack(stack@).take(i as int)));
    }
    assert(view_stack(stack@).take(stack@.len() as int) =~= view_stack(stack@));
    r
}

/// Resolves `rel` against the directory `base`.
pub fn resolve_path(base: &Vec<char>, rel: &Vec<char>) -> (r: Vec<char>)
    ensures
        r@ == resolve(base@, rel@),
{
    if rel.len() > 0 && rel[0] == '/' {
        let st = components_exec(rel);
        path_text_exec(&st)
    } else {
        let mut full: Vec<char> = Vec::new();
        extend_chars(&mut full, base);
        full.push('/');
        extend_chars(&mut full, rel);
        assert(full@ =~= base@ + seq!['/'] + rel@);
        let st = components_exec(&full);
        path_text_exec(&st)
    }
}

} // verus!
