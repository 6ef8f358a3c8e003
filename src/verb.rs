use vstd::prelude::*;
use crate::error::VerbError;
use crate::internal::{Internal, is_plain_word};
use crate::keys::{KeyChord, KeyCode, CONTROL, ALT, chord};
use crate::pattern::{SegModel, Segment, ScanState, parse, parse_template, scan, scan_start, parse_pattern, template_segments, view_segs};
use crate::selection::{SelectionFilter, SelectionType};
use crate::text::{chars_of, chars_eq, is_space, is_space_exec};

verus! {

/// Whether an external command keeps the application running or hands the
/// command to the shell the application was launched from.
#[derive(Clone, Copy, Debug, PartialEq, Eq, Structural)]
pub enum ExternalExecutionMode {
    StayInApp,
    LeaveToParentShell,
}

/// An in-process action, and whether it is the toggled (bang) form.
#[derive(Clone, Copy, Debug, PartialEq, Eq, Structural)]
pub struct InternalExecution {
    pub internal: Internal,
    pub bang: bool,
}

impl InternalExecution {
    pub fn from_internal_bang(internal: Internal, bang: bool) -> (r: InternalExecution)
        ensures
            r == (InternalExecution { internal, bang }),
    {
        InternalExecution { internal, bang }
    }
}

/// A shell command template and how it is run.
#[derive(Debug)]
pub struct ExternalExecution {
    pub template: Vec<char>,
    pub mode: ExternalExecutionMode,
}

impl ExternalExecution {
    pub fn new(template: &str, mode: ExternalExecutionMode) -> (r: ExternalExecution)
        ensures
            r.template@ == template@,
            r.mode == mode,
    {
        ExternalExecution { template: chars_of(template), mode }
    }
}

/// What a verb does when invoked.
#[derive(Debug)]
pub enum VerbExecution {
    Internal(InternalExecution),
    External(ExternalExecution),
}

/// The command template of an execution; an internal one has none.
pub open spec fn template_of(e: VerbExecution) -> Seq<char> {
    match e {
        VerbExecution::External(x) => x.template@,
        VerbExecution::Internal(_) => Seq::empty(),
    }
}

/// A human-readable description, authored or taken from a command.
#[derive(Debug)]
pub struct VerbDescription {
    pub text: Vec<char>,
    pub code: bool,
}

impl VerbDescription {
    pub fn from_text(text: &str) -> (r: VerbDescription)
        ensures
            r.text@ == text@,
            !r.code,
    {
        VerbDescription { text: chars_of(text), code: false }
    }

    pub fn from_code(code: &str) -> (r: VerbDescription)
        ensures
            r.text@ == code@,
            r.code,
    {
        VerbDescription { text: chars_of(code), code: true }
    }
}

/// A user-invokable action, with the ways to reach it.
#[derive(Debug)]
pub struct Verb {
    /// The invocation pattern as written.
    pub invocation: Option<Vec<char>>,
    /// The parsed invocation pattern; empty when there is none.
    pub pattern: Vec<Segment>,
    pub execution: VerbExecution,
    /// The parsed command template; empty for an internal verb.
    pub command: Vec<Segment>,
    pub description: VerbDescription,
    pub keys: Vec<KeyChord>,
    pub shortcuts: Vec<Vec<char>>,
    pub selection_filter: SelectionFilter,
}

pub open spec fn view_shortcuts(s: Seq<Vec<char>>) -> Seq<Seq<char>> {
    s.map_values(|v: Vec<char>| v@)
}

pub open spec fn view_strings(s: Seq<String>) -> Seq<Seq<char>> {
    s.map_values(|v: String| v@)
}

/// A shortcut is a nonempty word.
pub open spec fn shortcut_ok(s: Seq<char>) -> bool {
    s.len() > 0 && forall|i: int| 0 <= i < s.len() ==> !is_space(#[trigger] s[i])
}

pub open spec fn opt_view(o: Option<&str>) -> Option<Seq<char>> {
    match o {
        Some(s) => Some(s@),
        None => None,
    }
}

/// Whether a declared pattern has at least one segment.
pub open spec fn pattern_reaches(invocation: Option<Seq<char>>) -> bool {
    invocation is Some && parse(invocation->Some_0) is Some && parse(invocation->Some_0)->Some_0.len() > 0
}

/// The error that declaring a verb gives, checked in this order: a malformed
/// pattern, a repeated key or shortcut, a shortcut that is empty or
/// holds a space, and last a verb with no pattern, key or shortcut.
pub open spec fn declaration_error(
    invocation: Option<Seq<char>>,
    keys: Seq<KeyChord>,
    shortcuts: Seq<Seq<char>>,
) -> Option<VerbError> {
    if invocation is Some && parse(invocation->Some_0) is None {
        Some(VerbError::InvalidVerb)
    } else if !keys.no_duplicates() || !shortcuts.no_duplicates() {
        Some(VerbError::DuplicateBinding)
    } else if exists|i: int| 0 <= i < shortcuts.len() && !shortcut_ok(#[trigger] shortcuts[i]) {
        Some(VerbError::InvalidVerb)
    } else if !(pattern_reaches(invocation) || keys.len() > 0 || shortcuts.len() > 0) {
        Some(VerbError::InvalidVerb)
    } else {
        None
    }
}

/// The filter that offers a verb for one selection type.
pub open spec fn filter_for(t: SelectionType) -> SelectionFilter {
    match t {
        SelectionType::File => SelectionFilter::FileOnly,
        SelectionType::Directory => SelectionFilter::DirectoryOnly,
        SelectionType::Other => SelectionFilter::Any,
    }
}

impl Verb {
    pub open spec fn reachable(&self) -> bool {
        self.pattern@.len() > 0 || self.keys@.len() > 0 || self.shortcuts@.len() > 0
    }

    /// The invariant of a verb: the parsed forms match the texts, no binding is
    /// repeated, each shortcut is a word, and the verb can be reached.
    pub open spec fn wf(&self) -> bool {
        &&& match self.invocation {
            Some(t) => parse(t@) == Some(view_segs(self.pattern@)),
            None => self.pattern@.len() == 0,
        }
        &&& view_segs(self.command@) == template_segments(template_of(self.execution))
        &&& self.keys@.no_duplicates()
        &&& view_shortcuts(self.shortcuts@).no_duplicates()
        &&& forall|i: int| 0 <= i < self.shortcuts@.len() ==> shortcut_ok(#[trigger] self.shortcuts@[i]@)
        &&& self.reachable()
    }

    /// Everything but the keys and shortcuts is the same.
    pub open spec fn same_but_bindings(&self, o: &Verb) -> bool {
        &&& self.invocation == o.invocation
        &&& self.pattern == o.pattern
        &&& self.execution == o.execution
        &&& self.command == o.command
        &&& self.description == o.description
        &&& self.selection_filter == o.selection_filter
    }

    /// Declares a verb with its bindings, validating it.
    pub fn declare(
        invocation: Option<&str>,
        execution: VerbExecution,
        description: VerbDescription,
        keys: Vec<KeyChord>,
        shortcuts: Vec<String>,
        selection_filter: SelectionFilter,
    ) -> (r: Result<Verb, VerbError>)
        ensures
            match r {
                Ok(v) => {
                    &&& declaration_error(opt_view(invocation), keys@, view_strings(shortcuts@)) is None
                    &&& v.wf()
                    &&& opt_chars(v.invocation) == opt_view(invocation)
                    &&& v.execution == execution
                    &&& v.description == description
                    &&& v.keys@ == keys@
                    &&& view_shortcuts(v.shortcuts@) == view_strings(shortcuts@)
                    &&& v.selection_filter == selection_filter
                },
                Err(e) => declaration_error(opt_view(invocation), keys@, view_strings(shortcuts@)) == Some(e),
            },
    {
        let (inv, pattern) = match invocation {
            Some(s) => {
                let t = chars_of(s);
                match parse_pattern(&t) {
                    Some(p) => (Some(t), p),
                    None => {
                        return Err(VerbError::InvalidVerb);
                    },
                }
            },
            None => {
                let p: Vec<Segment> = Vec::new();
                (None, p)
            },
        };
        let command = match &execution {
            VerbExecution::External(x) => parse_template(&x.template),
            VerbExecution::Internal(_) => {
                let c: Vec<Segment> = Vec::new();
                assert(view_segs(c@) =~= Seq::<SegModel>::empty());
                c
            },
        };
        let mut ks: Vec<KeyChord> = Vec::new();
        let mut i: usize = 0;
        while i < keys.len()
            invariant
                !(opt_view(invocation) is Some && parse(opt_view(invocation)->Some_0) is None),
                i <= keys@.len(),
                ks@ == keys@.take(i as int),
                ks@.no_duplicates(),
            decreases keys.len() - i,
        {
            let k = keys[i];
            if has_key(&ks, k) {
                assert(!keys@.no_duplicates()) by {
                    let j = choose|j: int| 0 <= j < ks@.len() && ks@[j] == k;
                    assert(keys@[j] == keys@[i as int]);
                }
                return Err(VerbError::DuplicateBinding);
            }
            ks.push(k);
            i = i + 1;
            assert(ks@ =~= keys@.take(i as int));
        }
        assert(keys@.take(keys@.len() as int) =~= keys@);
        let ghost sv = view_strings(shortcuts@);
        let mut ss: Vec<Vec<char>> = Vec::new();
        let mut i: usize = 0;
        while i < shortcuts.len()
            invariant
                !(opt_view(invocation) is Some && parse(opt_view(invocation)->Some_0) is None),
                sv == view_strings(shortcuts@),
                ks@ == keys@,
                keys@.no_duplicates(),
                i <= shortcuts@.len(),
                view_shortcuts(ss@) == sv.take(i as int),
                view_shortcuts(ss@).no_duplicates(),
            decreases shortcuts.len() - i,
        {
            let s = chars_of(shortcuts[i].as_str());
            if has_shortcut(&ss, &s) {
                assert(!sv.no_duplicates()) by {
                    let j = choose|j: int| 0 <= j < view_shortcuts(ss@).len() && view_shortcuts(ss@)[j] == s@;
                    assert(sv[j] == sv[i as int]);
                }
                return Err(VerbError::DuplicateBinding);
            }
            let ghost before = view_shortcuts(ss@);
            ss.push(s);
            i = i + 1;
            assert(view_shortcuts(ss@) =~= before.push(s@));
            assert(view_shortcuts(ss@) =~= sv.take(i as int));
        }
        assert(sv.take(sv.len() as int) =~= sv);
        let mut i: usize = 0;
        while i < ss.len()
            invariant
                !(opt_view(invocation) is Some && parse(opt_view(invocation)->Some_0) is None),
                view_shortcuts(ss@) == sv,
                sv == view_strings(shortcuts@),
                keys@.no_duplicates(),
                sv.no_duplicates(),
                i <= ss@.len(),
                forall|j: int| 0 <= j < i ==> shortcut_ok(#[trigger] ss@[j]@),
            decreases ss.len() - i,
        {
            if !word_ok(&ss[i]) {
                assert(view_shortcuts(ss@)[i as int] == ss@[i as int]@);
                return Err(VerbError::InvalidVerb);
            }
            i = i + 1;
        }
        assert forall|j: int| 0 <= j < sv.len() implies shortcut_ok(#[trigger] sv[j]) by {
            assert(view_shortcuts(ss@)[j] == ss@[j]@);
        }
        if pattern.len() == 0 && ks.len() == 0 && ss.len() == 0 {
            return Err(VerbError::InvalidVerb);
        }
        Ok(Verb {
            invocation: inv,
            pattern,
            execution,
            command,
            description,
            keys: ks,
            shortcuts: ss,
            selection_filter,
        })
    }

    /// Builds a verb reached by its invocation pattern alone.
    pub fn new(invocation: Option<&str>, execution: VerbExecution, description: VerbDescription) -> (r: Result<
        Verb,
        VerbError,
    >)
        ensures
            match r {
                Ok(v) => {
                    &&& pattern_reaches(opt_view(invocation))
                    &&& v.wf()
                    &&& opt_chars(v.invocation) == opt_view(invocation)
                    &&& v.execution == execution
                    &&& v.description == description
                    &&& v.keys@.len() == 0
                    &&& v.shortcuts@.len() == 0
                    &&& v.selection_filter == SelectionFilter::Any
                },
                Err(e) => e == VerbError::InvalidVerb && !pattern_reaches(opt_view(invocation)),
            },
    {
        let r = Verb::declare(invocation, execution, description, Vec::new(), Vec::new(), SelectionFilter::Any);
        proof {
            let e: Seq<Seq<char>> = view_strings(Seq::<String>::empty());
            assert(e =~= Seq::<Seq<char>>::empty());
        }
        r
    }

    /// Adds a key binding; a key the verb already has is refused.
    pub fn with_key(self, key: KeyChord) -> (r: Result<Verb, VerbError>)
        requires
            self.wf(),
        ensures
            match r {
                Ok(v) => {
                    &&& !self.keys@.contains(key)
                    &&& v.wf()
                    &&& v.same_but_bindings(&self)
                    &&& v.keys@ == self.keys@.push(key)
                    &&& v.shortcuts == self.shortcuts
                },
                Err(e) => e == VerbError::DuplicateBinding && self.keys@.contains(key),
            },
    {
        if has_key(&self.keys, key) {
            return Err(VerbError::DuplicateBinding);
        }
        let mut v = self;
        v.keys.push(key);
        assert(v.keys@.no_duplicates()) by {
            assert forall|i: int, j: int| 0 <= i < j < v.keys@.len() implies v.keys@[i] != v.keys@[j] by {
                if j == v.keys@.len() - 1 {
                    assert(self.keys@[i] == v.keys@[i]);
                }
            }
        }
        Ok(v)
    }

    /// Adds a binding to the control-modified character key.
    pub fn with_control_key(self, c: char) -> (r: Result<Verb, VerbError>)
        requires
            self.wf(),
        ensures
            ({
                let key = KeyChord { code: KeyCode::Char(c), modifiers: CONTROL };
                match r {
                    Ok(v) => {
                        &&& !self.keys@.contains(key)
                        &&& v.wf()
                        &&& v.same_but_bindings(&self)
                        &&& v.keys@ == self.keys@.push(key)
                        &&& v.shortcuts == self.shortcuts
                    },
                    Err(e) => e == VerbError::DuplicateBinding && self.keys@.contains(key),
                }
            }),
    {
        self.with_key(chord(KeyCode::Char(c), CONTROL))
    }

    /// Adds a binding to the alt-modified character key.
    pub fn with_alt_key(self, c: char) -> (r: Result<Verb, VerbError>)
        requires
            self.wf(),
        ensures
            ({
                let key = KeyChord { code: KeyCode::Char(c), modifiers: ALT };
                match r {
                    Ok(v) => {
                        &&& !self.keys@.contains(key)
                        &&& v.wf()
                        &&& v.same_but_bindings(&self)
                        &&& v.keys@ == self.keys@.push(key)
                        &&& v.shortcuts == self.shortcuts
                    },
                    Err(e) => e == VerbError::DuplicateBinding && self.keys@.contains(key),
                }
            }),
    {
        self.with_key(chord(KeyCode::Char(c), ALT))
    }

    /// Adds a shortcut; one the verb already has is refused, and so is one that
    /// is empty or holds a space.
    pub fn with_shortcut(self, shortcut: &str) -> (r: Result<Verb, VerbError>)
        requires
            self.wf(),
        ensures
            match r {
                Ok(v) => {
                    &&& !view_shortcuts(self.shortcuts@).contains(shortcut@)
                    &&& shortcut_ok(shortcut@)
                    &&& v.wf()
                    &&& v.same_but_bindings(&self)
                    &&& v.keys == self.keys
                    &&& view_shortcuts(v.shortcuts@) == view_shortcuts(self.shortcuts@).push(shortcut@)
                },
                Err(e) => if view_shortcuts(self.shortcuts@).contains(shortcut@) {
                    e == VerbError::DuplicateBinding
                } else {
                    e == VerbError::InvalidVerb && !shortcut_ok(shortcut@)
                },
            },
    {
        let s = chars_of(shortcut);
        if has_shortcut(&self.shortcuts, &s) {
            return Err(VerbError::DuplicateBinding);
        }
        if !word_ok(&s) {
            return Err(VerbError::InvalidVerb);
        }
        let mut v = self;
        let ghost before = view_shortcuts(v.shortcuts@);
        v.shortcuts.push(s);
        assert(view_shortcuts(v.shortcuts@) =~= before.push(s@));
        assert(view_shortcuts(v.shortcuts@).no_duplicates()) by {
            let a = view_shortcuts(v.shortcuts@);
            assert forall|i: int, j: int| 0 <= i < j < a.len() implies a[i] != a[j] by {
                if j == a.len() - 1 {
                    assert(before[i] == a[i]);
                }
            }
        }
        Ok(v)
    }

    /// Offers the verb only for selections of the given type (`Other` lifts the
    /// restriction).
    pub fn with_stype(self, stype: SelectionType) -> (r: Verb)
        requires
            self.wf(),
        ensures
            r.wf(),
            r.selection_filter == filter_for(stype),
            r.invocation == self.invocation,
            r.pattern == self.pattern,
            r.execution == self.execution,
            r.command == self.command,
            r.description == self.description,
            r.keys == self.keys,
            r.shortcuts == self.shortcuts,
    {
        let mut v = self;
        v.selection_filter = match stype {
            SelectionType::File => SelectionFilter::FileOnly,
            SelectionType::Directory => SelectionFilter::DirectoryOnly,
            SelectionType::Other => SelectionFilter::Any,
        };
        v
    }

    /// Replaces the description with authored text.
    pub fn with_description(self, text: &str) -> (r: Verb)
        requires
            self.wf(),
        ensures
            r.wf(),
            r.description.text@ == text@,
            !r.description.code,
            r.invocation == self.invocation,
            r.pattern == self.pattern,
            r.execution == self.execution,
            r.command == self.command,
            r.keys == self.keys,
            r.shortcuts == self.shortcuts,
            r.selection_filter == self.selection_filter,
    {
        let mut v = self;
        v.description = VerbDescription::from_text(text);
        v
    }
}

pub open spec fn opt_chars(o: Option<Vec<char>>) -> Option<Seq<char>> {
    match o {
        Some(v) => Some(v@),
        None => None,
    }
}

/// Whether the key is among the keys.
pub fn has_key(keys: &Vec<KeyChord>, k: KeyChord) -> (r: bool)
    ensures
        r == keys@.contains(k),
{
    let mut i: usize = 0;
    while i < keys.len()
        invariant
            i <= keys@.len(),
            forall|j: int| 0 <= j < i ==> keys@[j] != k,
        decreases keys.len() - i,
    {
        if keys[i] == k {
            return true;
        }
        i = i + 1;
    }
    false
}

/// Whether the shortcut is among the shortcuts.
pub fn has_shortcut(shortcuts: &Vec<Vec<char>>, s: &Vec<char>) -> (r: bool)
    ensures
        r == view_shortcuts(shortcuts@).contains(s@),
{
    let mut i: usize = 0;
    while i < shortcuts.len()
        invariant
            i <= shortcuts@.len(),
            forall|j: int| 0 <= j < i ==> shortcuts@[j]@ != s@,
        decreases shortcuts.len() - i,
    {
        if chars_eq(&shortcuts[i], s) {
            assert(view_shortcuts(shortcuts@)[i as int] == s@);
            return true;
        }
        i = i + 1;
    }
    assert forall|j: int| 0 <= j < view_shortcuts(shortcuts@).len() implies view_shortcuts(shortcuts@)[j] != s@ by {
        assert(view_shortcuts(shortcuts@)[j] == shortcuts@[j]@);
    }
    false
}

fn word_ok(s: &Vec<char>) -> (r: bool)
    ensures
        r == shortcut_ok(s@),
{
    if s.len() == 0 {
        return false;
    }
    let mut i: usize = 0;
    while i < s.len()
        invariant
            i <= s@.len(),
            forall|j: int| 0 <= j < i ==> !is_space(#[trigger] s@[j]),
        decreases s.len() - i,
    {
        if is_space_exec(s[i]) {
            return false;
        }
        i = i + 1;
    }
    true
}

/// A text with no brace parses to one literal segment.
pub proof fn lemma_plain_word_parses(s: Seq<char>)
    requires
        is_plain_word(s),
    ensures
        parse(s) == Some(seq![SegModel::Lit(s)]),
{
    lemma_scan_plain(s);
}

proof fn lemma_scan_plain(s: Seq<char>)
    requires
        forall|i: int| 0 <= i < s.len() ==> s[i] != '{' && s[i] != '}',
    ensures
        scan(s) == (ScanState { lit: s, ..scan_start() }),
    decreases s.len(),
{
    if s.len() > 0 {
        lemma_scan_plain(s.drop_last());
        assert(s.drop_last().push(s.last()) =~= s);
    } else {
        assert(s =~= Seq::<char>::empty());
    }
}

/// A user verb as the configuration loader hands it over, not yet validated.
#[derive(Debug)]
pub struct VerbDeclaration {
    pub invocation: Option<String>,
    pub execution: VerbExecution,
    pub description: VerbDescription,
    pub keys: Vec<KeyChord>,
    pub shortcuts: Vec<String>,
    pub selection_filter: SelectionFilter,
}

pub open spec fn opt_string(o: Option<String>) -> Option<Seq<char>> {
    match o {
        Some(s) => Some(s@),
        None => None,
    }
}

/// The error that a declaration gives, if any.
pub open spec fn declaration_outcome(d: VerbDeclaration) -> Option<VerbError> {
    declaration_error(opt_string(d.invocation), d.keys@, view_strings(d.shortcuts@))
}

/// The verb is the valid verb a declaration describes.
pub open spec fn declared_from(v: Verb, d: VerbDeclaration) -> bool {
    &&& v.wf()
    &&& opt_chars(v.invocation) == opt_string(d.invocation)
    &&& v.execution == d.execution
    &&& v.description == d.description
    &&& v.keys@ == d.keys@
    &&& view_shortcuts(v.shortcuts@) == view_strings(d.shortcuts@)
    &&& v.selection_filter == d.selection_filter
}

impl VerbDeclaration {
    /// Validates the declaration into a verb.
    pub fn build(self) -> (r: Result<Verb, VerbError>)
        ensures
            match r {
                Ok(v) => declaration_outcome(self) is None && declared_from(v, self),
                Err(e) => declaration_outcome(self) == Some(e),
            },
    {
        let VerbDeclaration { invocation, execution, description, keys, shortcuts, selection_filter } = self;
        let inv: Option<&str> = match &invocation {
            Some(s) => Some(s.as_str()),
            None => None,
        };
        Verb::declare(inv, execution, description, keys, shortcuts, selection_filter)
    }
}

} // verus!
