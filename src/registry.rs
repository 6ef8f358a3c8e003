use vstd::prelude::*;
use crate::error::VerbError;
use crate::keys::KeyChord;
use crate::pattern::{SegModel, Segment, match_segs, match_segments, view_segs};
use crate::selection::{SelectionType, accepts, filter_accepts};
use crate::text::{chars_of, chars_eq};
use crate::verb::{Verb, VerbDeclaration, declaration_outcome, declared_from, has_key, has_shortcut, view_shortcuts};

verus! {

/// The ordered verbs in force: built-in ones first, then the user's.
pub struct Registry {
    pub verbs: Vec<Verb>,
    /// How many of the verbs, at the start, are built-in.
    pub builtin_count: usize,
}

/// Both verbs are declared with the same invocation text.
pub open spec fn same_invocation(a: Verb, b: Verb) -> bool {
    a.invocation is Some && b.invocation is Some && a.invocation->Some_0@ == b.invocation->Some_0@
}

/// The verb at `i` is in force: a user verb, or a built-in one that no user
/// verb with the same invocation text replaces. `nb` counts the built-in verbs.
pub open spec fn live(verbs: Seq<Verb>, nb: int, i: int) -> bool {
    i >= nb || forall|j: int| nb <= j < verbs.len() ==> !same_invocation(verbs[i], #[trigger] verbs[j])
}

/// The verb at `i` answers the key for this selection type.
pub open spec fn key_hit(verbs: Seq<Verb>, nb: int, i: int, key: KeyChord, stype: SelectionType) -> bool {
    &&& verbs[i].keys@.contains(key)
    &&& accepts(verbs[i].selection_filter, stype)
    &&& live(verbs, nb, i)
}

/// The verb at `i` answers the shortcut.
pub open spec fn shortcut_hit(verbs: Seq<Verb>, nb: int, i: int, s: Seq<char>) -> bool {
    view_shortcuts(verbs[i].shortcuts@).contains(s) && live(verbs, nb, i)
}

/// The number of literal characters of a pattern.
pub open spec fn literal_len(segs: Seq<SegModel>) -> nat
    decreases segs.len(),
{
    if segs.len() == 0 {
        0
    } else {
        literal_len(segs.drop_last()) + match segs.last() {
            SegModel::Lit(l) => l.len(),
            SegModel::Ph(_, _) => 0,
        }
    }
}

pub open spec fn capped(n: nat) -> nat {
    if n > usize::MAX {
        usize::MAX as nat
    } else {
        n
    }
}

/// How specific a verb's pattern is: its literal characters.
pub open spec fn specificity(v: Verb) -> nat {
    capped(literal_len(view_segs(v.pattern@)))
}

/// The verb at `i` is offered for typed text and this selection type.
pub open spec fn text_hit(verbs: Seq<Verb>, nb: int, i: int, t: Seq<char>, stype: SelectionType) -> bool {
    &&& verbs[i].pattern@.len() > 0
    &&& match_segs(view_segs(verbs[i].pattern@), t) is Some
    &&& accepts(verbs[i].selection_filter, stype)
    &&& live(verbs, nb, i)
}

/// The order of candidates: more specific first, then later ones first.
pub open spec fn ranks_before(verbs: Seq<Verb>, i: int, j: int) -> bool {
    specificity(verbs[i]) > specificity(verbs[j]) || (specificity(verbs[i]) == specificity(verbs[j])
        && i > j)
}

fn specificity_exec(v: &Verb) -> (r: usize)
    ensures
        r == specificity(*v),
{
    let ghost sv = view_segs(v.pattern@);
    let mut acc: usize = 0;
    let mut k: usize = 0;
    assert(sv.take(0) =~= Seq::<SegModel>::empty());
    while k < v.pattern.len()
        invariant
            sv == view_segs(v.pattern@),
            k <= v.pattern@.len(),
            acc == capped(literal_len(sv.take(k as int))),
        decreases v.pattern.len() - k,
    {
        assert(sv.take(k + 1).drop_last() =~= sv.take(k as int));
        assert(sv.take(k + 1).last() == v.pattern@[k as int]@);
        match &v.pattern[k] {
            Segment::Literal(l) => {
                if acc > usize::MAX - l.len() {
                    acc = usize::MAX;
                } else {
                    acc = acc + l.len();
                }
            },
            Segment::Placeholder(_, _) => {},
        }
        k = k + 1;
    }
    assert(sv.take(sv.len() as int) =~= sv);
    acc
}

/// `r` is the verb that a key reaches: the last one that answers it.
pub open spec fn key_result(verbs: Seq<Verb>, nb: int, key: KeyChord, stype: SelectionType, r: Option<usize>) -> bool {
    match r {
        Some(i) => {
            &&& i < verbs.len()
            &&& key_hit(verbs, nb, i as int, key, stype)
            &&& forall|j: int| i < j < verbs.len() ==> !key_hit(verbs, nb, j, key, stype)
        },
        None => forall|j: int| 0 <= j < verbs.len() ==> !key_hit(verbs, nb, j, key, stype),
    }
}

/// `r` is the verb that a shortcut reaches: the last one that answers it.
pub open spec fn shortcut_result(verbs: Seq<Verb>, nb: int, s: Seq<char>, r: Option<usize>) -> bool {
    match r {
        Some(i) => {
            &&& i < verbs.len()
            &&& shortcut_hit(verbs, nb, i as int, s)
            &&& forall|j: int| i < j < verbs.len() ==> !shortcut_hit(verbs, nb, j, s)
        },
        None => forall|j: int| 0 <= j < verbs.len() ==> !shortcut_hit(verbs, nb, j, s),
    }
}

/// `r` holds exactly the verbs offered for the typed text, in rank order.
pub open spec fn text_result(verbs: Seq<Verb>, nb: int, t: Seq<char>, stype: SelectionType, r: Seq<usize>) -> bool {
    &&& forall|a: int| 0 <= a < r.len() ==> (#[trigger] r[a]) < verbs.len() && text_hit(verbs, nb, r[a] as int, t, stype)
    &&& forall|j: int| 0 <= j < verbs.len() && text_hit(verbs, nb, j, t, stype) ==> r.contains(j as usize)
    &&& forall|a: int, b: int| 0 <= a < b < r.len() ==> ranks_before(verbs, #[trigger] r[a] as int, #[trigger] r[b] as int)
}

/// `r` is sorted by rank, and `sp` holds the specificity of each of its verbs.
pub open spec fn ranked(vs: Seq<Verb>, r: Seq<usize>, sp: Seq<usize>) -> bool {
    &&& r.len() == sp.len()
    &&& forall|a: int| 0 <= a < r.len() ==> (#[trigger] r[a]) < vs.len() && sp[a] == specificity(vs[r[a] as int])
    &&& forall|a: int, b: int| 0 <= a < b < r.len() ==> ranks_before(vs, #[trigger] r[a] as int, #[trigger] r[b] as int)
}

/// Inserting a verb that comes before all ranked ones in the registry, at the
/// first place whose specificity is below its own, keeps the order.
proof fn lemma_insert_ranked(vs: Seq<Verb>, r: Seq<usize>, sp: Seq<usize>, p: int, i: usize, s: usize)
    requires
        ranked(vs, r, sp),
        i < vs.len(),
        s == specificity(vs[i as int]),
        forall|a: int| 0 <= a < r.len() ==> i < #[trigger] r[a],
        0 <= p <= r.len(),
        forall|a: int| 0 <= a < p ==> sp[a] >= s,
        p < r.len() ==> sp[p] < s,
    ensures
        ranked(vs, r.insert(p, i), sp.insert(p, s)),
{
    assert forall|a: int| p <= a < r.len() implies sp[a] < s by {
        if a > p {
            assert(ranks_before(vs, r[p] as int, r[a] as int));
        }
    }
    let r1 = r.insert(p, i);
    let sp1 = sp.insert(p, s);
    assert forall|a: int| 0 <= a < r1.len() implies (#[trigger] r1[a]) < vs.len() && sp1[a] == specificity(vs[r1[a] as int]) by {
        if a < p { assert(r1[a] == r[a] && sp1[a] == sp[a]); } else if a > p { assert(r1[a] == r[a - 1] && sp1[a] == sp[a - 1]); }
    }
    assert forall|a: int, b: int| 0 <= a < b < r1.len() implies ranks_before(vs, #[trigger] r1[a] as int, #[trigger] r1[b] as int) by {
        if b < p {
            assert(r1[a] == r[a] && r1[b] == r[b]);
        } else if b == p {
            assert(r1[a] == r[a]);
            assert(sp[a] >= s);
        } else if a == p {
            assert(r1[b] == r[b - 1]);
            assert(sp[b - 1] < s);
        } else if a < p {
            assert(r1[a] == r[a] && r1[b] == r[b - 1]);
        } else {
            assert(r1[a] == r[a - 1] && r1[b] == r[b - 1]);
        }
    }
}

impl Registry {
    pub open spec fn wf(&self) -> bool {
        &&& self.builtin_count <= self.verbs@.len()
        &&& forall|i: int| 0 <= i < self.verbs@.len() ==> (#[trigger] self.verbs@[i]).wf()
    }

    /// The built-in verbs followed by the user's, which override them.
    pub fn new(builtins: Vec<Verb>, user: Vec<Verb>) -> (r: Registry)
        requires
            forall|i: int| 0 <= i < builtins@.len() ==> (#[trigger] builtins@[i]).wf(),
            forall|i: int| 0 <= i < user@.len() ==> (#[trigger] user@[i]).wf(),
        ensures
            r.wf(),
            r.verbs@ == builtins@ + user@,
            r.builtin_count == builtins@.len(),
    {
        let builtin_count = builtins.len();
        let mut verbs = builtins;
        let mut user = user;
        verbs.append(&mut user);
        Registry { verbs, builtin_count }
    }

    pub fn len(&self) -> (r: usize)
        ensures
            r == self.verbs@.len(),
    {
        self.verbs.len()
    }

    pub fn verb(&self, i: usize) -> (r: &Verb)
        requires
            i < self.verbs@.len(),
        ensures
            *r == self.verbs@[i as int],
    {
        &self.verbs[i]
    }

    fn is_live(&self, i: usize) -> (r: bool)
        requires
            i < self.verbs@.len(),
            self.builtin_count <= self.verbs@.len(),
        ensures
            r == live(self.verbs@, self.builtin_count as int, i as int),
    {
        if i >= self.builtin_count {
            return true;
        }
        let mut j: usize = self.builtin_count;
        while j < self.verbs.len()
            invariant
                i < self.builtin_count,
                self.builtin_count <= j <= self.verbs@.len(),
                forall|q: int| self.builtin_count <= q < j ==> !same_invocation(self.verbs@[i as int], #[trigger] self.verbs@[q]),
            decreases self.verbs.len() - j,
        {
            match (&self.verbs[i].invocation, &self.verbs[j].invocation) {
                (Some(a), Some(b)) => {
                    if chars_eq(a, b) {
                        return false;
                    }
                },
                _ => {},
            }
            j = j + 1;
        }
        true
    }

    /// The verb that a key chord reaches for this selection type: the last one
    /// binding it, among those offered for the type and not replaced.
    pub fn by_key(&self, key: KeyChord, stype: SelectionType) -> (r: Option<usize>)
        requires
            self.wf(),
        ensures
            key_result(self.verbs@, self.builtin_count as int, key, stype, r),
    {
        let mut i: usize = self.verbs.len();
        while i > 0
            invariant
                self.wf(),
                i <= self.verbs@.len(),
                forall|j: int| i <= j < self.verbs@.len() ==> !key_hit(self.verbs@, self.builtin_count as int, j, key, stype),
            decreases i,
        {
            i = i - 1;
            let v = &self.verbs[i];
            if has_key(&v.keys, key) && filter_accepts(v.selection_filter, stype) && self.is_live(i) {
                return Some(i);
            }
        }
        None
    }

    /// The verb that a shortcut reaches: the last one declaring it, among those
    /// not replaced.
    pub fn by_shortcut(&self, shortcut: &str) -> (r: Option<usize>)
        requires
            self.wf(),
        ensures
            shortcut_result(self.verbs@, self.builtin_count as int, shortcut@, r),
    {
        let s = chars_of(shortcut);
        let mut i: usize = self.verbs.len();
        while i > 0
            invariant
                self.wf(),
                s@ == shortcut@,
                i <= self.verbs@.len(),
                forall|j: int| i <= j < self.verbs@.len() ==> !shortcut_hit(self.verbs@, self.builtin_count as int, j, shortcut@),
            decreases i,
        {
            i = i - 1;
            if has_shortcut(&self.verbs[i].shortcuts, &s) && self.is_live(i) {
                return Some(i);
            }
        }
        None
    }

    /// The verbs whose pattern matches the typed text, offered for this
    /// selection type and not replaced, most specific first, later first among
    /// equals.
    pub fn by_invocation_prefix(&self, text: &str, stype: SelectionType) -> (r: Vec<usize>)
        requires
            self.wf(),
        ensures
            text_result(self.verbs@, self.builtin_count as int, text@, stype, r@),
    {
        let t = chars_of(text);
        let ghost vs = self.verbs@;
        let ghost nb = self.builtin_count as int;
        let mut r: Vec<usize> = Vec::new();
        let mut sp: Vec<usize> = Vec::new();
        let mut i: usize = self.verbs.len();
        while i > 0
            invariant
                self.wf(),
                vs == self.verbs@,
                nb == self.builtin_count,
                t@ == text@,
                i <= vs.len(),
                ranked(vs, r@, sp@),
                forall|a: int| 0 <= a < r@.len() ==> i <= (#[trigger] r@[a]) < vs.len() && text_hit(vs, nb, r@[a] as int, text@, stype),
                forall|j: int| i <= j < vs.len() && text_hit(vs, nb, j, text@, stype) ==> r@.contains(j as usize),
            decreases i,
        {
            i = i - 1;
            let v = &self.verbs[i];
            let hit = v.pattern.len() > 0 && match_segments(&v.pattern, &t).is_some()
                && filter_accepts(v.selection_filter, stype) && self.is_live(i);
            if hit {
                let s = specificity_exec(v);
                let mut p: usize = 0;
                while p < sp.len() && sp[p] >= s
                    invariant
                        p <= sp@.len(),
                        sp@.len() == r@.len(),
                        forall|a: int| 0 <= a < p ==> sp@[a] >= s,
                    decreases sp.len() - p,
                {
                    p = p + 1;
                }
                let ghost r0 = r@;
                let ghost sp0 = sp@;
                proof {
                    lemma_insert_ranked(vs, r0, sp0, p as int, i, s);
                }
                r.insert(p, i);
                sp.insert(p, s);
                assert forall|a: int| 0 <= a < r@.len() implies i <= (#[trigger] r@[a]) < vs.len() && text_hit(vs, nb, r@[a] as int, text@, stype) by {
                    if a < p { assert(r@[a] == r0[a]); } else if a > p { assert(r@[a] == r0[a - 1]); }
                }
                assert forall|j: int| i <= j < vs.len() && text_hit(vs, nb, j, text@, stype) implies r@.contains(j as usize) by {
                    if j == i {
                        assert(r@[p as int] == i);
                    } else {
                        let a = choose|a: int| 0 <= a < r0.len() && r0[a] == j as usize;
                        if a < p { assert(r@[a] == r0[a]); } else { assert(r@[a + 1] == r0[a]); }
                    }
                }
            } else {
                assert(!text_hit(vs, nb, i as int, text@, stype));
            }
        }
        r
    }
}

/// The declarations that build, in order.
pub open spec fn accepted(ds: Seq<VerbDeclaration>) -> Seq<VerbDeclaration>
    decreases ds.len(),
{
    if ds.len() == 0 {
        Seq::empty()
    } else if declaration_outcome(ds.last()) is None {
        accepted(ds.drop_last()).push(ds.last())
    } else {
        accepted(ds.drop_last())
    }
}

/// The errors of the declarations that fail, in order.
pub open spec fn rejected(ds: Seq<VerbDeclaration>) -> Seq<VerbError>
    decreases ds.len(),
{
    if ds.len() == 0 {
        Seq::empty()
    } else {
        match declaration_outcome(ds.last()) {
            Some(e) => rejected(ds.drop_last()).push(e),
            None => rejected(ds.drop_last()),
        }
    }
}

impl Registry {
    /// The built-in verbs followed by the user's declarations that build, in
    /// order; each declaration that fails is skipped and its error reported.
    pub fn from_declarations(builtins: Vec<Verb>, declarations: Vec<VerbDeclaration>) -> (r: (
        Registry,
        Vec<VerbError>,
    ))
        requires
            forall|i: int| 0 <= i < builtins@.len() ==> (#[trigger] builtins@[i]).wf(),
        ensures
            r.0.wf(),
            r.0.builtin_count == builtins@.len(),
            r.0.verbs@.len() == builtins@.len() + accepted(declarations@).len(),
            forall|i: int| 0 <= i < builtins@.len() ==> r.0.verbs@[i] == builtins@[i],
            forall|i: int| 0 <= i < accepted(declarations@).len() ==> declared_from(
                #[trigger] r.0.verbs@[builtins@.len() + i],
                accepted(declarations@)[i],
            ),
            r.1@ == rejected(declarations@),
    {
        let ghost ds = declarations@;
        let n = declarations.len();
        let mut rest = declarations;
        let mut user: Vec<Verb> = Vec::new();
        let mut errors: Vec<VerbError> = Vec::new();
        let mut i: usize = 0;
        assert(ds.take(0) =~= Seq::<VerbDeclaration>::empty());
        assert(ds.skip(0) =~= ds);
        while rest.len() > 0
            invariant
                ds.len() == n,
                i <= ds.len(),
                rest@ == ds.skip(i as int),
                user@.len() == accepted(ds.take(i as int)).len(),
                forall|j: int| 0 <= j < user@.len() ==> declared_from(#[trigger] user@[j], accepted(ds.take(i as int))[j]),
                errors@ == rejected(ds.take(i as int)),
            decreases rest.len(),
        {
            let d = rest.remove(0);
            assert(d == ds[i as int]);
            assert(ds.take(i + 1).drop_last() =~= ds.take(i as int));
            assert(ds.take(i + 1).last() == d);
            assert(rest@ =~= ds.skip(i + 1));
            let ghost acc0 = accepted(ds.take(i as int));
            let ghost user0 = user@;
            match d.build() {
                Ok(v) => {
                    user.push(v);
                    assert forall|j: int| 0 <= j < user@.len() implies declared_from(#[trigger] user@[j], accepted(ds.take(i + 1))[j]) by {
                        if j < user0.len() {
                            assert(user@[j] == user0[j]);
                        }
                    }
                },
                Err(e) => {
                    errors.push(e);
                },
            }
            i = i + 1;
        }
        assert(ds.take(i as int) =~= ds);
        let nb = builtins.len();
        let ghost b0 = builtins@;
        let reg = Registry::new(builtins, user);
        assert forall|j: int| 0 <= j < accepted(ds).len() implies declared_from(#[trigger] reg.verbs@[nb + j], accepted(ds)[j]) by {
            assert(reg.verbs@[nb + j] == user@[j]);
        }
        (reg, errors)
    }
}

} // verus!
