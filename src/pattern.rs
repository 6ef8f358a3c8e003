use vstd::prelude::*;
use crate::text::{is_space, is_space_exec, chars_eq, chars_eq_str, extend_chars, slice_chars};

verus! {

/// How the text bound to a placeholder is read.
#[derive(Clone, Copy, Debug, PartialEq, Eq, Structural)]
pub enum ArgKind {
    /// The text as typed.
    Plain,
    /// A path, relative ones taken from the selection's parent directory.
    PathFromParent,
    /// A path, relative ones taken from the selection seen as a directory.
    PathFromDirectory,
    /// The other panel's directory; any bound text is ignored.
    OtherPanelDirectory,
}

/// The mathematical form of a pattern segment.
pub enum SegModel {
    Lit(Seq<char>),
    Ph(Seq<char>, ArgKind),
}

/// One segment of a parsed pattern: literal text or a named placeholder.
#[derive(Debug)]
pub enum Segment {
    Literal(Vec<char>),
    Placeholder(Vec<char>, ArgKind),
}

impl View for Segment {
    type V = SegModel;

    open spec fn view(&self) -> SegModel {
        match self {
            Segment::Literal(t) => SegModel::Lit(t@),
            Segment::Placeholder(n, k) => SegModel::Ph(n@, *k),
        }
    }
}

pub open spec fn view_segs(s: Seq<Segment>) -> Seq<SegModel> {
    s.map_values(|x: Segment| x@)
}

/// The kind that a placeholder's kind text names.
pub open spec fn kind_named(t: Seq<char>) -> Option<ArgKind> {
    if t == "none"@ {
        Some(ArgKind::Plain)
    } else if t == "path-from-parent"@ {
        Some(ArgKind::PathFromParent)
    } else if t == "path-from-directory"@ {
        Some(ArgKind::PathFromDirectory)
    } else if t == "other-panel-directory"@ {
        Some(ArgKind::OtherPanelDirectory)
    } else {
        None
    }
}

/// Whether a placeholder of this name is among the segments.
pub open spec fn has_placeholder(segs: Seq<SegModel>, n: Seq<char>) -> bool {
    exists|j: int| 0 <= j < segs.len() && (#[trigger] segs[j]) is Ph && segs[j]->Ph_0 == n
}

/// The state of a left-to-right scan of a pattern.
pub struct ScanState {
    pub segs: Seq<SegModel>,
    pub lit: Seq<char>,
    pub name: Seq<char>,
    pub kind: Seq<char>,
    pub open: bool,
    pub in_kind: bool,
    pub bad: bool,
}

pub open spec fn scan_start() -> ScanState {
    ScanState {
        segs: Seq::empty(),
        lit: Seq::empty(),
        name: Seq::empty(),
        kind: Seq::empty(),
        open: false,
        in_kind: false,
        bad: false,
    }
}

/// The segments with pending literal text closed off.
pub open spec fn flush(segs: Seq<SegModel>, lit: Seq<char>) -> Seq<SegModel> {
    if lit.len() > 0 {
        segs.push(SegModel::Lit(lit))
    } else {
        segs
    }
}

/// The placeholder that a closing brace ends, if it is valid.
pub open spec fn closed_placeholder(st: ScanState) -> Option<SegModel> {
    let k = if st.in_kind {
        kind_named(st.kind)
    } else {
        Some(ArgKind::Plain)
    };
    if st.name.len() > 0 && k is Some && !has_placeholder(st.segs, st.name) {
        Some(SegModel::Ph(st.name, k->Some_0))
    } else {
        None
    }
}

/// One character of the scan.
pub open spec fn scan_step(st: ScanState, c: char) -> ScanState {
    if st.bad {
        st
    } else if !st.open {
        if c == '{' {
            ScanState { segs: flush(st.segs, st.lit), lit: Seq::empty(), open: true, ..st }
        } else if c == '}' {
            ScanState { bad: true, ..st }
        } else {
            ScanState { lit: st.lit.push(c), ..st }
        }
    } else if c == '{' {
        ScanState { bad: true, ..st }
    } else if c == '}' {
        match closed_placeholder(st) {
            Some(p) => ScanState {
                segs: st.segs.push(p),
                name: Seq::empty(),
                kind: Seq::empty(),
                open: false,
                in_kind: false,
                ..st
            },
            None => ScanState { bad: true, ..st },
        }
    } else if c == ':' && !st.in_kind {
        ScanState { in_kind: true, ..st }
    } else if st.in_kind {
        ScanState { kind: st.kind.push(c), ..st }
    } else {
        ScanState { name: st.name.push(c), ..st }
    }
}

pub open spec fn scan(s: Seq<char>) -> ScanState
    decreases s.len(),
{
    if s.len() == 0 {
        scan_start()
    } else {
        scan_step(scan(s.drop_last()), s.last())
    }
}

/// The segments of a pattern text: `None` when braces are unbalanced or nested, a
/// placeholder has an empty name, an unknown kind or a name used before.
pub open spec fn parse(s: Seq<char>) -> Option<Seq<SegModel>> {
    let st = scan(s);
    if st.bad || st.open {
        None
    } else {
        Some(flush(st.segs, st.lit))
    }
}

fn kind_from(t: &Vec<char>) -> (r: Option<ArgKind>)
    ensures
        r == kind_named(t@),
{
    if chars_eq_str(t, "none") {
        Some(ArgKind::Plain)
    } else if chars_eq_str(t, "path-from-parent") {
        Some(ArgKind::PathFromParent)
    } else if chars_eq_str(t, "path-from-directory") {
        Some(ArgKind::PathFromDirectory)
    } else if chars_eq_str(t, "other-panel-directory") {
        Some(ArgKind::OtherPanelDirectory)
    } else {
        None
    }
}

/// Whether a placeholder named `name` is among the segments.
pub fn find_placeholder(segs: &Vec<Segment>, name: &Vec<char>) -> (r: bool)
    ensures
        r == has_placeholder(view_segs(segs@), name@),
{
    let mut i: usize = 0;
    while i < segs.len()
        invariant
            i <= segs@.len(),
            forall|j: int| 0 <= j < i ==> !(segs@[j]@ is Ph && segs@[j]@->Ph_0 == name@),
        decreases segs.len() - i,
    {
        match &segs[i] {
            Segment::Placeholder(n, _) => {
                if chars_eq(n, name) {
                    assert(view_segs(segs@)[i as int] == segs@[i as int]@);
                    return true;
                }
            },
            _ => {},
        }
        i = i + 1;
    }
    assert forall|j: int| 0 <= j < view_segs(segs@).len() implies !((#[trigger] view_segs(
        segs@,
    )[j]) is Ph && view_segs(segs@)[j]->Ph_0 == name@) by {
        assert(view_segs(segs@)[j] == segs@[j]@);
    }
    false
}

proof fn lemma_push_view(s: Seq<Segment>, x: Segment)
    ensures
        view_segs(s.push(x)) == view_segs(s).push(x@),
{
    assert(view_segs(s.push(x)) =~= view_segs(s).push(x@));
}

/// Parses a pattern text into its segments; fails exactly where `parse` gives `None`.
pub fn parse_pattern(text: &Vec<char>) -> (r: Option<Vec<Segment>>)
    ensures
        match r {
            Some(v) => parse(text@) == Some(view_segs(v@)),
            None => parse(text@) is None,
        },
{
    let mut segs: Vec<Segment> = Vec::new();
    let mut lit: Vec<char> = Vec::new();
    let mut name: Vec<char> = Vec::new();
    let mut kind: Vec<char> = Vec::new();
    let mut open = false;
    let mut in_kind = false;
    let mut bad = false;
    let mut i: usize = 0;
    assert(view_segs(segs@) =~= Seq::<SegModel>::empty());
    assert(text@.take(0) =~= Seq::<char>::empty());
    while i < text.len()
        invariant
            i <= text@.len(),
            scan(text@.take(i as int)) == (ScanState {
                segs: view_segs(segs@),
                lit: lit@,
                name: name@,
                kind: kind@,
                open,
                in_kind,
                bad,
            }),
        decreases text.len() - i,
    {
        let c = text[i];
        let ghost st0 = scan(text@.take(i as int));
        assert(text@.take(i + 1).drop_last() =~= text@.take(i as int));
        assert(scan(text@.take(i + 1)) == scan_step(st0, c));
        if bad {
        } else if !open {
            if c == '{' {
                if lit.len() > 0 {
                    proof {
                        lemma_push_view(segs@, Segment::Literal(lit));
                    }
                    segs.push(Segment::Literal(lit));
                    lit = Vec::new();
                }
                open = true;
            } else if c == '}' {
                bad = true;
            } else {
                lit.push(c);
            }
        } else if c == '{' {
            bad = true;
        } else if c == '}' {
            let k = if in_kind {
                kind_from(&kind)
            } else {
                Some(ArgKind::Plain)
            };
            let dup = find_placeholder(&segs, &name);
            if name.len() > 0 && k.is_some() && !dup {
                let seg = Segment::Placeholder(name, k.unwrap());
                proof {
                    lemma_push_view(segs@, seg);
                }
                segs.push(seg);
                name = Vec::new();
                kind = Vec::new();
                open = false;
                in_kind = false;
            } else {
                bad = true;
            }
        } else if c == ':' && !in_kind {
            in_kind = true;
        } else if in_kind {
            kind.push(c);
        } else {
            name.push(c);
        }
        i = i + 1;
        assert(scan_step(st0, c).segs == view_segs(segs@));
        assert(scan_step(st0, c).lit == lit@);
        assert(scan_step(st0, c).name == name@);
        assert(scan_step(st0, c).kind == kind@);
        assert(scan_step(st0, c).bad == bad);
    }
    assert(text@.take(text@.len() as int) =~= text@);
    if bad || open {
        None
    } else {
        if lit.len() > 0 {
            proof {
                lemma_push_view(segs@, Segment::Literal(lit));
            }
            segs.push(Segment::Literal(lit));
        }
        Some(segs)
    }
}

/// Length of the word that starts the text: the characters before the first space.
pub open spec fn word_len(t: Seq<char>) -> nat
    decreases t.len(),
{
    if t.len() == 0 || is_space(t[0]) {
        0
    } else {
        1 + word_len(t.drop_first())
    }
}

/// The name and value of each placeholder, in pattern order, when the whole
/// text matches the segments. Literals match exactly; the last placeholder takes
/// all that remains, an earlier one the word that stands at its place.
pub open spec fn match_segs(segs: Seq<SegModel>, t: Seq<char>) -> Option<
    Seq<(Seq<char>, Seq<char>)>,
>
    decreases segs.len(),
{
    if segs.len() == 0 {
        if t.len() == 0 {
            Some(Seq::empty())
        } else {
            None
        }
    } else {
        match segs[0] {
            SegModel::Lit(l) => {
                if l.len() <= t.len() && t.take(l.len() as int) == l {
                    match_segs(segs.drop_first(), t.skip(l.len() as int))
                } else {
                    None
                }
            },
            SegModel::Ph(n, _) => {
                if segs.len() == 1 {
                    if t.len() > 0 {
                        Some(seq![(n, t)])
                    } else {
                        None
                    }
                } else {
                    let w = word_len(t);
                    if w > 0 {
                        match match_segs(segs.drop_first(), t.skip(w as int)) {
                            Some(b) => Some(seq![(n, t.take(w as int))] + b),
                            None => None,
                        }
                    } else {
                        None
                    }
                }
            },
        }
    }
}

pub open spec fn prepend(b: Seq<(Seq<char>, Seq<char>)>, o: Option<Seq<(Seq<char>, Seq<char>)>>) -> Option<
    Seq<(Seq<char>, Seq<char>)>,
> {
    match o {
        Some(x) => Some(b + x),
        None => None,
    }
}

/// A value that typed text gave to a named placeholder.
#[derive(Debug)]
pub struct Binding {
    pub name: Vec<char>,
    pub value: Vec<char>,
}

impl View for Binding {
    type V = (Seq<char>, Seq<char>);

    open spec fn view(&self) -> (Seq<char>, Seq<char>) {
        (self.name@, self.value@)
    }
}

pub open spec fn view_bindings(s: Seq<Binding>) -> Seq<(Seq<char>, Seq<char>)> {
    s.map_values(|b: Binding| b@)
}

/// The end of the word that starts at `from`.
fn word_end(t: &Vec<char>, from: usize) -> (r: usize)
    requires
        from <= t@.len(),
    ensures
        from <= r <= t@.len(),
        r - from == word_len(t@.skip(from as int)),
{
    let mut j: usize = from;
    while j < t.len() && !is_space_exec(t[j])
        invariant
            from <= j <= t@.len(),
            word_len(t@.skip(from as int)) == (j - from) + word_len(t@.skip(j as int)),
        decreases t.len() - j,
    {
        assert(t@.skip(j as int).drop_first() =~= t@.skip(j + 1));
        j = j + 1;
    }
    j
}

proof fn lemma_push_binding(s: Seq<Binding>, x: Binding)
    ensures
        view_bindings(s.push(x)) == view_bindings(s).push(x@),
{
    assert(view_bindings(s.push(x)) =~= view_bindings(s).push(x@));
}

/// Matches typed text against parsed segments, binding each placeholder.
pub fn match_segments(segs: &Vec<Segment>, text: &Vec<char>) -> (r: Option<Vec<Binding>>)
    ensures
        match r {
            Some(b) => match_segs(view_segs(segs@), text@) == Some(view_bindings(b@)),
            None => match_segs(view_segs(segs@), text@) is None,
        },
{
    let ghost sv = view_segs(segs@);
    let ghost tv = text@;
    let mut bound: Vec<Binding> = Vec::new();
    let mut k: usize = 0;
    let mut pos: usize = 0;
    assert(sv.skip(0) =~= sv);
    assert(tv.skip(0) =~= tv);
    assert(view_bindings(bound@) + view_bindings(bound@) =~= view_bindings(bound@));
    while k < segs.len()
        invariant
            sv == view_segs(segs@),
            tv == text@,
            k <= segs@.len(),
            pos <= text@.len(),
            match_segs(sv, tv) == prepend(view_bindings(bound@), match_segs(sv.skip(k as int), tv.skip(pos as int))),
        decreases segs.len() - k,
    {
        let ghost rest = sv.skip(k as int);
        assert(rest[0] == segs@[k as int]@);
        assert(rest.drop_first() =~= sv.skip(k + 1));
        match &segs[k] {
            Segment::Literal(l) => {
                if l.len() > text.len() - pos {
                    return None;
                }
                let piece = slice_chars(text, pos, pos + l.len());
                assert(tv.skip(pos as int).take(l@.len() as int) =~= tv.subrange(pos as int, pos + l@.len()));
                if !chars_eq(&piece, l) {
                    return None;
                }
                assert(tv.skip(pos as int).skip(l@.len() as int) =~= tv.skip(pos + l@.len()));
                pos = pos + l.len();
            },
            Segment::Placeholder(n, _) => {
                let name = slice_chars(n, 0, n.len());
                assert(n@.subrange(0, n@.len() as int) =~= n@);
                if k + 1 == segs.len() {
                    if pos == text.len() {
                        return None;
                    }
                    let value = slice_chars(text, pos, text.len());
                    assert(value@ =~= tv.skip(pos as int));
                    let b = Binding { name, value };
                    let ghost before = view_bindings(bound@);
                    proof {
                        lemma_push_binding(bound@, b);
                    }
                    bound.push(b);
                    assert(view_bindings(bound@) =~= before + seq![(n@, tv.skip(pos as int))]);
                    return Some(bound);
                }
                let e = word_end(text, pos);
                if e == pos {
                    return None;
                }
                let value = slice_chars(text, pos, e);
                assert(tv.skip(pos as int).take(e - pos) =~= tv.subrange(pos as int, e as int));
                assert(tv.skip(pos as int).skip(e - pos) =~= tv.skip(e as int));
                let b = Binding { name, value };
                let ghost before = view_bindings(bound@);
                proof {
                    lemma_push_binding(bound@, b);
                }
                bound.push(b);
                assert(view_bindings(bound@) =~= before + seq![(n@, tv.subrange(pos as int, e as int))]);
                assert forall|x: Seq<(Seq<char>, Seq<char>)>| #![auto] before + (seq![(n@, tv.subrange(pos as int, e as int))] + x) == view_bindings(bound@) + x by {
                    assert(before + (seq![(n@, tv.subrange(pos as int, e as int))] + x) =~= view_bindings(bound@) + x);
                }
                pos = e;
            },
        }
        k = k + 1;
    }
    assert(sv.skip(k as int).len() == 0);
    if pos == text.len() {
        assert(view_bindings(bound@) + Seq::<(Seq<char>, Seq<char>)>::empty() =~= view_bindings(bound@));
        Some(bound)
    } else {
        None
    }
}

/// The kind text that names a kind.
pub open spec fn kind_text(k: ArgKind) -> Seq<char> {
    match k {
        ArgKind::Plain => "none"@,
        ArgKind::PathFromParent => "path-from-parent"@,
        ArgKind::PathFromDirectory => "path-from-directory"@,
        ArgKind::OtherPanelDirectory => "other-panel-directory"@,
    }
}

/// How a segment is written in a pattern.
pub open spec fn piece(x: SegModel) -> Seq<char> {
    match x {
        SegModel::Lit(l) => l,
        SegModel::Ph(n, k) => if k == ArgKind::Plain {
            seq!['{'] + n + seq!['}']
        } else {
            seq!['{'] + n + seq![':'] + kind_text(k) + seq!['}']
        },
    }
}

/// The pattern text that spells the segments.
pub open spec fn render(segs: Seq<SegModel>) -> Seq<char>
    decreases segs.len(),
{
    if segs.len() == 0 {
        Seq::empty()
    } else {
        render(segs.drop_last()) + piece(segs.last())
    }
}

pub open spec fn no_brace(s: Seq<char>) -> bool {
    forall|i: int| 0 <= i < s.len() ==> #[trigger] s[i] != '{' && s[i] != '}'
}

pub open spec fn plain_name(s: Seq<char>) -> bool {
    s.len() > 0 && forall|i: int| 0 <= i < s.len() ==> #[trigger] s[i] != '{' && s[i] != '}' && s[i] != ':'
}

/// Segments that a pattern can stand for: nonempty literals without braces,
/// never two in a row, and placeholders with distinct plain names.
#[verifier::opaque]
pub open spec fn well_formed_segs(segs: Seq<SegModel>) -> bool {
    &&& forall|i: int| 0 <= i < segs.len() && (#[trigger] segs[i]) is Lit ==> segs[i]->Lit_0.len() > 0 && no_brace(segs[i]->Lit_0)
    &&& forall|i: int| 0 <= i < segs.len() && (#[trigger] segs[i]) is Ph ==> plain_name(segs[i]->Ph_0)
    &&& forall|i: int| 0 < i < segs.len() && (#[trigger] segs[i]) is Lit ==> segs[i - 1] is Ph
    &&& forall|i: int, j: int| 0 <= i < j < segs.len() && (#[trigger] segs[i]) is Ph && (#[trigger] segs[j]) is Ph ==> segs[i]->Ph_0 != segs[j]->Ph_0
}

pub open spec fn scan_from(st: ScanState, s: Seq<char>) -> ScanState
    decreases s.len(),
{
    if s.len() == 0 {
        st
    } else {
        scan_step(scan_from(st, s.drop_last()), s.last())
    }
}

proof fn lemma_scan_is_from_start(s: Seq<char>)
    ensures
        scan(s) == scan_from(scan_start(), s),
    decreases s.len(),
{
    if s.len() > 0 {
        lemma_scan_is_from_start(s.drop_last());
    }
}

proof fn lemma_scan_from_append(st: ScanState, a: Seq<char>, b: Seq<char>)
    ensures
        scan_from(st, a + b) == scan_from(scan_from(st, a), b),
    decreases b.len(),
{
    if b.len() == 0 {
        assert(a + b =~= a);
    } else {
        lemma_scan_from_append(st, a, b.drop_last());
        assert((a + b).drop_last() =~= a + b.drop_last());
        assert((a + b).last() == b.last());
    }
}

proof fn lemma_literal_chars(st: ScanState, w: Seq<char>)
    requires
        !st.open,
        !st.bad,
        no_brace(w),
    ensures
        scan_from(st, w) == (ScanState { lit: st.lit + w, ..st }),
    decreases w.len(),
{
    if w.len() == 0 {
        assert(st.lit + w =~= st.lit);
    } else {
        let p = w.drop_last();
        assert(no_brace(p)) by {
            assert forall|i: int| 0 <= i < p.len() implies #[trigger] p[i] != '{' && p[i] != '}' by {
                assert(p[i] == w[i]);
            }
        }
        lemma_literal_chars(st, p);
        assert(w.last() == w[w.len() - 1]);
        assert((st.lit + p).push(w.last()) =~= st.lit + w);
    }
}

proof fn lemma_name_chars(st: ScanState, w: Seq<char>)
    requires
        st.open,
        !st.in_kind,
        !st.bad,
        forall|i: int| 0 <= i < w.len() ==> #[trigger] w[i] != '{' && w[i] != '}' && w[i] != ':',
    ensures
        scan_from(st, w) == (ScanState { name: st.name + w, ..st }),
    decreases w.len(),
{
    if w.len() == 0 {
        assert(st.name + w =~= st.name);
    } else {
        let p = w.drop_last();
        assert forall|i: int| 0 <= i < p.len() implies #[trigger] p[i] != '{' && p[i] != '}' && p[i] != ':' by {
            assert(p[i] == w[i]);
        }
        lemma_name_chars(st, p);
        assert(w.last() == w[w.len() - 1]);
        assert((st.name + p).push(w.last()) =~= st.name + w);
    }
}

proof fn lemma_kind_chars(st: ScanState, w: Seq<char>)
    requires
        st.open,
        st.in_kind,
        !st.bad,
        no_brace(w),
    ensures
        scan_from(st, w) == (ScanState { kind: st.kind + w, ..st }),
    decreases w.len(),
{
    if w.len() == 0 {
        assert(st.kind + w =~= st.kind);
    } else {
        let p = w.drop_last();
        assert(no_brace(p)) by {
            assert forall|i: int| 0 <= i < p.len() implies #[trigger] p[i] != '{' && p[i] != '}' by {
                assert(p[i] == w[i]);
            }
        }
        lemma_kind_chars(st, p);
        assert(w.last() == w[w.len() - 1]);
        assert((st.kind + p).push(w.last()) =~= st.kind + w);
    }
}

proof fn lemma_one_char(st: ScanState, c: char)
    ensures
        scan_from(st, seq![c]) == scan_step(st, c),
{
    assert(seq![c].drop_last() =~= Seq::<char>::empty());
    assert(scan_from(st, Seq::<char>::empty()) == st);
    assert(seq![c].last() == c);
}

proof fn lemma_kind_text(k: ArgKind)
    ensures
        kind_named(kind_text(k)) == Some(k),
        no_brace(kind_text(k)),
{
    reveal_strlit("none");
    reveal_strlit("path-from-parent");
    reveal_strlit("path-from-directory");
    reveal_strlit("other-panel-directory");
    assert("none"@.len() == 4);
    assert("path-from-parent"@.len() == 16);
    assert("path-from-directory"@.len() == 19);
    assert("other-panel-directory"@.len() == 21);
}

/// The scan state after a well-formed rendering: all segments closed but a
/// trailing literal, which is still pending.
pub open spec fn rendered_state(segs: Seq<SegModel>) -> ScanState {
    if segs.len() > 0 && segs.last() is Lit {
        ScanState { segs: segs.drop_last(), lit: segs.last()->Lit_0, ..scan_start() }
    } else {
        ScanState { segs, ..scan_start() }
    }
}

proof fn lemma_wf_prefix(segs: Seq<SegModel>)
    requires
        well_formed_segs(segs),
        segs.len() > 0,
    ensures
        well_formed_segs(segs.drop_last()),
{
    reveal(well_formed_segs);
    let s = segs.drop_last();
    assert forall|i: int| 0 <= i < s.len() implies s[i] == segs[i] by {}
    assert forall|i: int, j: int| 0 <= i < j < s.len() && (#[trigger] s[i]) is Ph && (#[trigger] s[j]) is Ph implies s[i]->Ph_0 != s[j]->Ph_0 by {
        assert(s[i] == segs[i] && s[j] == segs[j]);
    }
    assert forall|i: int| 0 < i < s.len() && (#[trigger] s[i]) is Lit implies s[i - 1] is Ph by {
        assert(s[i] == segs[i] && s[i - 1] == segs[i - 1]);
    }
}

proof fn lemma_render_step(s: Seq<SegModel>, x: SegModel)
    requires
        scan_from(scan_start(), render(s)) == rendered_state(s),
        x is Lit ==> no_brace(x->Lit_0) && x->Lit_0.len() > 0 && (s.len() == 0 || s.last() is Ph),
        x is Ph ==> plain_name(x->Ph_0) && !has_placeholder(s, x->Ph_0),
        s.len() > 0 && s.last() is Lit ==> s.last()->Lit_0.len() > 0,
    ensures
        scan_from(scan_start(), render(s.push(x))) == rendered_state(s.push(x)),
{
    let segs = s.push(x);
    assert(segs.drop_last() =~= s);
    assert(segs.last() == x);
    lemma_scan_from_append(scan_start(), render(s), piece(x));
    let st0 = rendered_state(s);
    match x {
        SegModel::Lit(l) => {
            lemma_literal_chars(st0, l);
            assert(Seq::<char>::empty() + l =~= l);
        },
        SegModel::Ph(nm, k) => {
            assert(flush(st0.segs, st0.lit) =~= s) by {
                if s.len() > 0 && s.last() is Lit {
                    assert(s.drop_last().push(s.last()) =~= s);
                }
            }
            lemma_placeholder_chars(st0, nm, k);
        },
    }
}

proof fn lemma_render_scan(segs: Seq<SegModel>)
    requires
        well_formed_segs(segs),
    ensures
        scan_from(scan_start(), render(segs)) == rendered_state(segs),
    decreases segs.len(),
{
    if segs.len() == 0 {
        assert(render(segs) =~= Seq::<char>::empty());
        assert(scan_from(scan_start(), Seq::<char>::empty()) == scan_start());
        assert(segs =~= Seq::<SegModel>::empty());
        return;
    }
    let s = segs.drop_last();
    let x = segs.last();
    let n = (segs.len() - 1) as int;
    lemma_wf_prefix(segs);
    lemma_render_scan(s);
    assert(s.push(x) =~= segs);
    assert(x == segs[n]);
    assert(s.len() > 0 && s.last() is Lit ==> s.last()->Lit_0.len() > 0) by {
        reveal(well_formed_segs);
        if s.len() > 0 {
            assert(s.last() == segs[n - 1]);
        }
    }
    assert(x is Lit ==> no_brace(x->Lit_0) && x->Lit_0.len() > 0 && (s.len() == 0 || s.last() is Ph)) by {
        reveal(well_formed_segs);
        if x is Lit && s.len() > 0 {
            assert(s.last() == segs[n - 1]);
        }
    }
    assert(x is Ph ==> plain_name(x->Ph_0) && !has_placeholder(s, x->Ph_0)) by {
        reveal(well_formed_segs);
        if x is Ph {
            assert forall|j: int| 0 <= j < s.len() && (#[trigger] s[j]) is Ph implies s[j]->Ph_0 != x->Ph_0 by {
                assert(s[j] == segs[j]);
            }
        }
    }
    lemma_render_step(s, x);
}

#[verifier::rlimit(50)]
proof fn lemma_placeholder_chars(st0: ScanState, nm: Seq<char>, k: ArgKind)
    requires
        !st0.open,
        !st0.bad,
        !st0.in_kind,
        st0.name.len() == 0,
        st0.kind.len() == 0,
        plain_name(nm),
        !has_placeholder(flush(st0.segs, st0.lit), nm),
    ensures
        scan_from(st0, piece(SegModel::Ph(nm, k))) == (ScanState {
            segs: flush(st0.segs, st0.lit).push(SegModel::Ph(nm, k)),
            ..scan_start()
        }),
{
    let st1 = scan_step(st0, '{');
    lemma_one_char(st0, '{');
    lemma_name_chars(st1, nm);
    let st2 = ScanState { name: st1.name + nm, ..st1 };
    assert(st2.name =~= nm);
    lemma_one_char(st2, '}');
    lemma_scan_from_append(st0, seq!['{'], nm);
    if k == ArgKind::Plain {
        lemma_scan_from_append(st0, seq!['{'] + nm, seq!['}']);
        assert(scan_step(st2, '}').lit =~= Seq::<char>::empty());
    } else {
        lemma_kind_text(k);
        lemma_one_char(st2, ':');
        let st3 = scan_step(st2, ':');
        lemma_kind_chars(st3, kind_text(k));
        let st4 = ScanState { kind: st3.kind + kind_text(k), ..st3 };
        assert(st4.kind =~= kind_text(k));
        lemma_one_char(st4, '}');
        lemma_scan_from_append(st0, seq!['{'] + nm, seq![':']);
        lemma_scan_from_append(st0, seq!['{'] + nm + seq![':'], kind_text(k));
        lemma_scan_from_append(st0, seq!['{'] + nm + seq![':'] + kind_text(k), seq!['}']);
    }
}

/// A pattern text that spells well-formed segments parses back to them.
pub proof fn lemma_parse_render(segs: Seq<SegModel>)
    requires
        well_formed_segs(segs),
    ensures
        parse(render(segs)) == Some(segs),
{
    lemma_render_scan(segs);
    lemma_scan_is_from_start(render(segs));
    assert(scan(render(segs)) == rendered_state(segs));
    if segs.len() > 0 && segs.last() is Lit {
        reveal(well_formed_segs);
        assert(segs.last() == segs[segs.len() - 1]);
        assert(segs.drop_last().push(segs.last()) =~= segs);
    }
}

/// The state of a left-to-right scan of a command template. `raw` is the text
/// read since the last opening brace while one is open.
pub struct TemplateState {
    pub segs: Seq<SegModel>,
    pub lit: Seq<char>,
    pub raw: Seq<char>,
    pub name: Seq<char>,
    pub kind: Seq<char>,
    pub open: bool,
    pub in_kind: bool,
}

pub open spec fn template_start() -> TemplateState {
    TemplateState {
        segs: Seq::empty(),
        lit: Seq::empty(),
        raw: Seq::empty(),
        name: Seq::empty(),
        kind: Seq::empty(),
        open: false,
        in_kind: false,
    }
}

/// The kind of a template placeholder being closed, when it is one.
pub open spec fn template_kind(st: TemplateState) -> Option<ArgKind> {
    if st.name.len() == 0 {
        None
    } else if st.in_kind {
        kind_named(st.kind)
    } else {
        Some(ArgKind::Plain)
    }
}

/// One character of a template: a brace group with a nonempty name and a known
/// kind is a placeholder; any other text, braces included, is literal.
pub open spec fn template_step(st: TemplateState, c: char) -> TemplateState {
    if !st.open {
        if c == '{' {
            TemplateState { raw: seq!['{'], name: Seq::empty(), kind: Seq::empty(), open: true, in_kind: false, ..st }
        } else {
            TemplateState { lit: st.lit.push(c), ..st }
        }
    } else if c == '{' {
        TemplateState { lit: st.lit + st.raw, raw: seq!['{'], name: Seq::empty(), kind: Seq::empty(), in_kind: false, ..st }
    } else if c == '}' {
        match template_kind(st) {
            Some(k) => TemplateState {
                segs: flush(st.segs, st.lit).push(SegModel::Ph(st.name, k)),
                lit: Seq::empty(),
                raw: Seq::empty(),
                name: Seq::empty(),
                kind: Seq::empty(),
                open: false,
                in_kind: false,
                ..st
            },
            None => TemplateState {
                lit: st.lit + st.raw.push(c),
                raw: Seq::empty(),
                name: Seq::empty(),
                kind: Seq::empty(),
                open: false,
                in_kind: false,
                ..st
            },
        }
    } else if c == ':' && !st.in_kind {
        TemplateState { raw: st.raw.push(c), in_kind: true, ..st }
    } else if st.in_kind {
        TemplateState { raw: st.raw.push(c), kind: st.kind.push(c), ..st }
    } else {
        TemplateState { raw: st.raw.push(c), name: st.name.push(c), ..st }
    }
}

pub open spec fn template_scan(s: Seq<char>) -> TemplateState
    decreases s.len(),
{
    if s.len() == 0 {
        template_start()
    } else {
        template_step(template_scan(s.drop_last()), s.last())
    }
}

/// The segments of a command template; it never fails.
pub open spec fn template_segments(s: Seq<char>) -> Seq<SegModel> {
    let st = template_scan(s);
    flush(st.segs, if st.open { st.lit + st.raw } else { st.lit })
}

/// Parses a command template into its segments.
pub fn parse_template(text: &Vec<char>) -> (r: Vec<Segment>)
    ensures
        view_segs(r@) == template_segments(text@),
{
    let mut segs: Vec<Segment> = Vec::new();
    let mut lit: Vec<char> = Vec::new();
    let mut raw: Vec<char> = Vec::new();
    let mut name: Vec<char> = Vec::new();
    let mut kind: Vec<char> = Vec::new();
    let mut open = false;
    let mut in_kind = false;
    let mut i: usize = 0;
    assert(view_segs(segs@) =~= Seq::<SegModel>::empty());
    assert(text@.take(0) =~= Seq::<char>::empty());
    while i < text.len()
        invariant
            i <= text@.len(),
            template_scan(text@.take(i as int)) == (TemplateState {
                segs: view_segs(segs@),
                lit: lit@,
                raw: raw@,
                name: name@,
                kind: kind@,
                open,
                in_kind,
            }),
        decreases text.len() - i,
    {
        let c = text[i];
        let ghost st0 = template_scan(text@.take(i as int));
        assert(text@.take(i + 1).drop_last() =~= text@.take(i as int));
        assert(template_scan(text@.take(i + 1)) == template_step(st0, c));
        if !open {
            if c == '{' {
                raw = Vec::new();
                raw.push('{');
                assert(raw@ =~= seq!['{']);
                name = Vec::new();
                kind = Vec::new();
                open = true;
                in_kind = false;
            } else {
                lit.push(c);
            }
        } else if c == '{' {
            extend_chars(&mut lit, &raw);
            raw = Vec::new();
            raw.push('{');
            assert(raw@ =~= seq!['{']);
            name = Vec::new();
            kind = Vec::new();
            in_kind = false;
        } else if c == '}' {
            let k = if name.len() == 0 {
                None
            } else if in_kind {
                kind_named_exec(&kind)
            } else {
                Some(ArgKind::Plain)
            };
            match k {
                Some(k) => {
                    if lit.len() > 0 {
                        proof {
                            lemma_push_view(segs@, Segment::Literal(lit));
                        }
                        segs.push(Segment::Literal(lit));
                        lit = Vec::new();
                    }
                    let seg = Segment::Placeholder(name, k);
                    proof {
                        lemma_push_view(segs@, seg);
                    }
                    segs.push(seg);
                    name = Vec::new();
                    kind = Vec::new();
                    raw = Vec::new();
                    open = false;
                    in_kind = false;
                },
                None => {
                    raw.push(c);
                    extend_chars(&mut lit, &raw);
                    raw = Vec::new();
                    name = Vec::new();
                    kind = Vec::new();
                    open = false;
                    in_kind = false;
                },
            }
        } else if c == ':' && !in_kind {
            raw.push(c);
            in_kind = true;
        } else if in_kind {
            raw.push(c);
            kind.push(c);
        } else {
            raw.push(c);
            name.push(c);
        }
        i = i + 1;
        assert(template_step(st0, c).segs == view_segs(segs@));
        assert(template_step(st0, c).lit == lit@);
        assert(template_step(st0, c).raw == raw@);
        assert(template_step(st0, c).name == name@);
        assert(template_step(st0, c).kind == kind@);
    }
    assert(text@.take(text@.len() as int) =~= text@);
    if open {
        extend_chars(&mut lit, &raw);
    }
    if lit.len() > 0 {
        proof {
            lemma_push_view(segs@, Segment::Literal(lit));
        }
        segs.push(Segment::Literal(lit));
    }
    segs
}

fn kind_named_exec(t: &Vec<char>) -> (r: Option<ArgKind>)
    ensures
        r == kind_named(t@),
{
    kind_from(t)
}

} // verus!
