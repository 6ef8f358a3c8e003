use vstd::prelude::*;
use crate::error::VerbError;
use crate::internal::{Internal, action_description, action_name, is_plain_word};
use crate::keys::{KeyChord, KeyCode, ALT, CONTROL, SHIFT, alt_enter, back_tab, chord, plain};
use crate::pattern::{ArgKind, SegModel, lemma_parse_render, render, view_segs, well_formed_segs};
use crate::selection::{SelectionFilter, SelectionType};
use crate::verb::{
    view_shortcuts,
    ExternalExecution, ExternalExecutionMode, InternalExecution, Verb, VerbDescription,
    VerbExecution, lemma_plain_word_parses, opt_chars, pattern_reaches, template_of,
};

verus! {

/// What the host offers: some built-in verbs exist only where it does.
#[derive(Clone, Copy, Debug, PartialEq, Eq, Structural)]
pub struct Capabilities {
    /// A unix-like system, with permissions and mounted filesystems.
    pub unix: bool,
    /// A clipboard the application can use.
    pub clipboard: bool,
}

/// The verb of an internal action, reached by its name.
pub fn build_internal(action: Internal, bang: bool) -> (r: Verb)
    ensures
        r.wf(),
        r.execution == VerbExecution::Internal(InternalExecution { internal: action, bang }),
        opt_chars(r.invocation) == Some(action_name(action)),
        is_plain_word(action_name(action)),
        view_segs(r.pattern@) == seq![SegModel::Lit(action_name(action))],
        r.description.text@ == action_description(action),
        !r.description.code,
        r.keys@ == Seq::<KeyChord>::empty(),
        view_shortcuts(r.shortcuts@) == Seq::<Seq<char>>::empty(),
        r.selection_filter == SelectionFilter::Any,
{
    let invocation = action.name();
    let execution = VerbExecution::Internal(InternalExecution::from_internal_bang(action, bang));
    let description = VerbDescription::from_text(action.description());
    proof {
        lemma_plain_word_parses(invocation@);
    }
    let v = Verb::new(Some(invocation), execution, description).unwrap();
    assert(v.keys@ =~= Seq::<KeyChord>::empty());
    assert(view_shortcuts(v.shortcuts@) =~= Seq::<Seq<char>>::empty());
    v
}

/// The verb of an internal action.
pub fn internal(action: Internal) -> (r: Verb)
    ensures
        r.wf(),
        r.execution == VerbExecution::Internal(InternalExecution { internal: action, bang: false }),
        opt_chars(r.invocation) == Some(action_name(action)),
        view_segs(r.pattern@) == seq![SegModel::Lit(action_name(action))],
        r.description.text@ == action_description(action),
        !r.description.code,
        r.keys@ == Seq::<KeyChord>::empty(),
        view_shortcuts(r.shortcuts@) == Seq::<Seq<char>>::empty(),
        r.selection_filter == SelectionFilter::Any,
{
    build_internal(action, false)
}

/// The verb of the toggled (bang) form of an internal action.
pub fn internal_bang(action: Internal) -> (r: Verb)
    ensures
        r.wf(),
        r.execution == VerbExecution::Internal(InternalExecution { internal: action, bang: true }),
        opt_chars(r.invocation) == Some(action_name(action)),
        view_segs(r.pattern@) == seq![SegModel::Lit(action_name(action))],
        r.description.text@ == action_description(action),
        !r.description.code,
        r.keys@ == Seq::<KeyChord>::empty(),
        view_shortcuts(r.shortcuts@) == Seq::<Seq<char>>::empty(),
        r.selection_filter == SelectionFilter::Any,
{
    build_internal(action, true)
}

/// The verb of a shell command, described by its template.
pub fn external(invocation_str: &str, execution_str: &str, exec_mode: ExternalExecutionMode) -> (r:
    Result<Verb, VerbError>)
    ensures
        match r {
            Ok(v) => {
                &&& v.wf()
                &&& opt_chars(v.invocation) == Some(invocation_str@)
                &&& template_of(v.execution) == execution_str@
                &&& v.execution is External
                &&& v.execution->External_0.mode == exec_mode
                &&& v.description.text@ == execution_str@
                &&& v.description.code
                &&& v.keys@ == Seq::<KeyChord>::empty()
                &&& view_shortcuts(v.shortcuts@) == Seq::<Seq<char>>::empty()
                &&& v.selection_filter == SelectionFilter::Any
            },
            Err(e) => e == VerbError::InvalidVerb && !pattern_reaches(Some(invocation_str@)),
        },
{
    let execution = VerbExecution::External(ExternalExecution::new(execution_str, exec_mode));
    let r = Verb::new(Some(invocation_str), execution, VerbDescription::from_code(execution_str));
    match &r {
        Ok(v) => {
            assert(v.keys@ =~= Seq::<KeyChord>::empty());
            assert(view_shortcuts(v.shortcuts@) =~= Seq::<Seq<char>>::empty());
        },
        Err(_) => {},
    }
    r
}

/// A pattern that spells well-formed segments, at least one, reaches its verb.
proof fn lemma_rendered_pattern_reaches(p: Seq<SegModel>)
    requires
        p.len() > 0,
        well_formed_segs(p),
    ensures
        pattern_reaches(Some(render(p))),
{
    lemma_parse_render(p);
}

proof fn lemma_pattern_0()
    ensures
        pattern_reaches(Some("cd"@)),
{
    reveal_strlit("cd");
    reveal(well_formed_segs);
    reveal_with_fuel(render, 4);
    let p = seq![SegModel::Lit("cd"@)];
    lemma_rendered_pattern_reaches(p);
    assert("cd"@ =~= render(p));
}

proof fn lemma_pattern_1()
    ensures
        pattern_reaches(Some("chmod {args}"@)),
{
    reveal_strlit("args");
    reveal_strlit("chmod ");
    reveal_strlit("chmod {args}");
    reveal(well_formed_segs);
    reveal_with_fuel(render, 4);
    let p = seq![SegModel::Lit("chmod "@), SegModel::Ph("args"@, ArgKind::Plain)];
    lemma_rendered_pattern_reaches(p);
    assert("chmod {args}"@ =~= render(p));
}

proof fn lemma_pattern_2()
    ensures
        pattern_reaches(Some("copy {newpath:path-from-parent}"@)),
{
    reveal_strlit("copy ");
    reveal_strlit("copy {newpath:path-from-parent}");
    reveal_strlit("newpath");
    reveal_strlit("path-from-parent");
    reveal(well_formed_segs);
    reveal_with_fuel(render, 4);
    let p = seq![SegModel::Lit("copy "@), SegModel::Ph("newpath"@, ArgKind::PathFromParent)];
    lemma_rendered_pattern_reaches(p);
    assert("copy {newpath:path-from-parent}"@ =~= render(p));
}

proof fn lemma_pattern_3()
    ensures
        pattern_reaches(Some("copy_to_panel"@)),
{
    reveal_strlit("copy_to_panel");
    reveal(well_formed_segs);
    reveal_with_fuel(render, 4);
    let p = seq![SegModel::Lit("copy_to_panel"@)];
    lemma_rendered_pattern_reaches(p);
    assert("copy_to_panel"@ =~= render(p));
}

proof fn lemma_pattern_4()
    ensures
        pattern_reaches(Some("mkdir {subpath}"@)),
{
    reveal_strlit("mkdir ");
    reveal_strlit("mkdir {subpath}");
    reveal_strlit("subpath");
    reveal(well_formed_segs);
    reveal_with_fuel(render, 4);
    let p = seq![SegModel::Lit("mkdir "@), SegModel::Ph("subpath"@, ArgKind::Plain)];
    lemma_rendered_pattern_reaches(p);
    assert("mkdir {subpath}"@ =~= render(p));
}

proof fn lemma_pattern_5()
    ensures
        pattern_reaches(Some("move {newpath:path-from-parent}"@)),
{
    reveal_strlit("move ");
    reveal_strlit("move {newpath:path-from-parent}");
    reveal_strlit("newpath");
    reveal_strlit("path-from-parent");
    reveal(well_formed_segs);
    reveal_with_fuel(render, 4);
    let p = seq![SegModel::Lit("move "@), SegModel::Ph("newpath"@, ArgKind::PathFromParent)];
    lemma_rendered_pattern_reaches(p);
    assert("move {newpath:path-from-parent}"@ =~= render(p));
}

proof fn lemma_pattern_6()
    ensures
        pattern_reaches(Some("move_to_panel"@)),
{
    reveal_strlit("move_to_panel");
    reveal(well_formed_segs);
    reveal_with_fuel(render, 4);
    let p = seq![SegModel::Lit("move_to_panel"@)];
    lemma_rendered_pattern_reaches(p);
    assert("move_to_panel"@ =~= render(p));
}

proof fn lemma_pattern_7()
    ensures
        pattern_reaches(Some("rm"@)),
{
    reveal_strlit("rm");
    reveal(well_formed_segs);
    reveal_with_fuel(render, 4);
    let p = seq![SegModel::Lit("rm"@)];
    lemma_rendered_pattern_reaches(p);
    assert("rm"@ =~= render(p));
}

/// One row of the built-in table: what the verb runs, how it is reached, which
/// selections it is offered for, and its description.
pub struct BuiltinEntry {
    pub invocation: Seq<char>,
    /// The internal action and its bang flag; `None` for a shell command.
    pub action: Option<InternalExecution>,
    pub template: Seq<char>,
    pub mode: ExternalExecutionMode,
    pub keys: Seq<KeyChord>,
    pub shortcuts: Seq<Seq<char>>,
    pub filter: SelectionFilter,
    pub description: Seq<char>,
    /// Whether the description is the command itself.
    pub code: bool,
}

/// The row of an internal action, offered for every selection.
pub open spec fn internal_entry(a: Internal, bang: bool, keys: Seq<KeyChord>, shortcuts: Seq<Seq<char>>) -> BuiltinEntry {
    BuiltinEntry {
        invocation: action_name(a),
        action: Some(InternalExecution { internal: a, bang }),
        template: Seq::empty(),
        mode: ExternalExecutionMode::StayInApp,
        keys,
        shortcuts,
        filter: SelectionFilter::Any,
        description: action_description(a),
        code: false,
    }
}

/// The row of a shell command, described by its template.
pub open spec fn external_entry(
    invocation: Seq<char>,
    template: Seq<char>,
    mode: ExternalExecutionMode,
    filter: SelectionFilter,
    keys: Seq<KeyChord>,
    shortcuts: Seq<Seq<char>>,
) -> BuiltinEntry {
    BuiltinEntry {
        invocation,
        action: None,
        template,
        mode,
        keys,
        shortcuts,
        filter,
        description: template,
        code: true,
    }
}

/// The verb is the one the row describes.
pub open spec fn entry_matches(v: Verb, e: BuiltinEntry) -> bool {
    &&& opt_chars(v.invocation) == Some(e.invocation)
    &&& match e.action {
        Some(ie) => v.execution == VerbExecution::Internal(ie),
        None => v.execution is External && template_of(v.execution) == e.template
            && v.execution->External_0.mode == e.mode,
    }
    &&& v.keys@ == e.keys
    &&& view_shortcuts(v.shortcuts@) == e.shortcuts
    &&& v.selection_filter == e.filter
    &&& v.description.text@ == e.description
    &&& v.description.code == e.code
}

/// Each verb is well-formed and is the one its row describes.
pub open spec fn follows_table(verbs: Seq<Verb>, table: Seq<BuiltinEntry>) -> bool {
    &&& verbs.len() == table.len()
    &&& forall|i: int| 0 <= i < verbs.len() ==> (#[trigger] verbs[i]).wf() && entry_matches(verbs[i], table[i])
}

/// The built-in table, in declaration order; the rows for unix-like systems or
/// a clipboard only where the host has them.
pub open spec fn builtin_table(caps: Capabilities) -> Seq<BuiltinEntry> {
    let t = Seq::<BuiltinEntry>::empty();
    let t = t.push(internal_entry(Internal::Back, false, Seq::empty(), Seq::empty()));
    let t = t.push(BuiltinEntry { description: "change directory and quit"@, code: false, ..external_entry("cd"@, "cd {directory}"@, ExternalExecutionMode::LeaveToParentShell, SelectionFilter::DirectoryOnly, seq![KeyChord { code: KeyCode::Enter, modifiers: ALT }], Seq::empty()) });
    let t = t.push(internal_entry(Internal::OpenLeave, false, seq![KeyChord { code: KeyCode::Enter, modifiers: ALT }], seq!["ol"@]));
    let t = if caps.unix { t.push(external_entry("chmod {args}"@, "chmod {args} {file}"@, ExternalExecutionMode::StayInApp, SelectionFilter::FileOnly, Seq::empty(), Seq::empty())) } else { t };
    let t = if caps.unix { t.push(external_entry("chmod {args}"@, "chmod -R {args} {file}"@, ExternalExecutionMode::StayInApp, SelectionFilter::DirectoryOnly, Seq::empty(), Seq::empty())) } else { t };
    let t = t.push(internal_entry(Internal::OpenPreview, false, Seq::empty(), Seq::empty()));
    let t = t.push(internal_entry(Internal::ClosePreview, false, Seq::empty(), Seq::empty()));
    let t = t.push(internal_entry(Internal::TogglePreview, false, Seq::empty(), Seq::empty()));
    let t = t.push(internal_entry(Internal::PreviewImage, false, Seq::empty(), Seq::empty()));
    let t = t.push(internal_entry(Internal::PreviewText, false, Seq::empty(), Seq::empty()));
    let t = t.push(internal_entry(Internal::PreviewBinary, false, Seq::empty(), Seq::empty()));
    let t = t.push(internal_entry(Internal::ClosePanelOk, false, Seq::empty(), Seq::empty()));
    let t = t.push(internal_entry(Internal::ClosePanelCancel, false, seq![KeyChord { code: KeyCode::BackTab, modifiers: SHIFT }, KeyChord { code: KeyCode::Char('w'), modifiers: CONTROL }], Seq::empty()));
    let t = t.push(external_entry("copy {newpath:path-from-parent}"@, "cp -r {file} {newpath:path-from-parent}"@, ExternalExecutionMode::StayInApp, SelectionFilter::Any, Seq::empty(), seq!["cp"@]));
    let t = if caps.clipboard { t.push(internal_entry(Internal::CopyPath, false, seq![KeyChord { code: KeyCode::Char('c'), modifiers: ALT }], Seq::empty())) } else { t };
    let t = t.push(external_entry("copy_to_panel"@, "cp -r {file} {other-panel-directory}"@, ExternalExecutionMode::StayInApp, SelectionFilter::Any, Seq::empty(), seq!["cpp"@]));
    let t = if caps.unix { t.push(internal_entry(Internal::Filesystems, false, Seq::empty(), seq!["fs"@])) } else { t };
    let t = t.push(internal_entry(Internal::Focus, false, seq![KeyChord { code: KeyCode::Char('f'), modifiers: CONTROL }], Seq::empty()));
    let t = t.push(internal_entry(Internal::Help, false, seq![KeyChord { code: KeyCode::F(1), modifiers: 0 }], seq!["?"@]));
    let t = if caps.clipboard { t.push(internal_entry(Internal::InputPaste, false, seq![KeyChord { code: KeyCode::Char('v'), modifiers: CONTROL }], Seq::empty())) } else { t };
    let t = t.push(internal_entry(Internal::LineDown, false, seq![KeyChord { code: KeyCode::Down, modifiers: 0 }], Seq::empty()));
    let t = t.push(internal_entry(Internal::LineUp, false, seq![KeyChord { code: KeyCode::Up, modifiers: 0 }], Seq::empty()));
    let t = t.push(external_entry("mkdir {subpath}"@, "mkdir -p {subpath:path-from-directory}"@, ExternalExecutionMode::StayInApp, SelectionFilter::Any, Seq::empty(), seq!["md"@]));
    let t = t.push(external_entry("move {newpath:path-from-parent}"@, "mv {file} {newpath:path-from-parent}"@, ExternalExecutionMode::StayInApp, SelectionFilter::Any, Seq::empty(), seq!["mv"@]));
    let t = t.push(external_entry("move_to_panel"@, "mv {file} {other-panel-directory}"@, ExternalExecutionMode::StayInApp, SelectionFilter::Any, Seq::empty(), seq!["mvp"@]));
    let t = t.push(internal_entry(Internal::StartEndPanel, true, seq![KeyChord { code: KeyCode::Char('p'), modifiers: CONTROL }], Seq::empty()));
    let t = t.push(internal_entry(Internal::NextMatch, false, seq![KeyChord { code: KeyCode::Tab, modifiers: 0 }], Seq::empty()));
    let t = t.push(internal_entry(Internal::NoSort, false, Seq::empty(), seq!["ns"@]));
    let t = t.push(internal_entry(Internal::OpenStay, false, seq![KeyChord { code: KeyCode::Enter, modifiers: 0 }], seq!["os"@]));
    let t = t.push(internal_entry(Internal::OpenStayFilter, false, Seq::empty(), seq!["osf"@]));
    let t = t.push(internal_entry(Internal::Parent, false, Seq::empty(), seq!["p"@]));
    let t = t.push(internal_entry(Internal::PageDown, false, seq![KeyChord { code: KeyCode::PageDown, modifiers: 0 }], Seq::empty()));
    let t = t.push(internal_entry(Internal::PageUp, false, seq![KeyChord { code: KeyCode::PageUp, modifiers: 0 }], Seq::empty()));
    let t = t.push(internal_entry(Internal::PanelLeft, false, seq![KeyChord { code: KeyCode::Left, modifiers: CONTROL }], Seq::empty()));
    let t = t.push(internal_entry(Internal::PanelRight, false, seq![KeyChord { code: KeyCode::Right, modifiers: CONTROL }], Seq::empty()));
    let t = t.push(internal_entry(Internal::PrintPath, false, Seq::empty(), seq!["pp"@]));
    let t = t.push(internal_entry(Internal::PrintRelativePath, false, Seq::empty(), seq!["prp"@]));
    let t = t.push(internal_entry(Internal::PrintTree, false, Seq::empty(), seq!["pt"@]));
    let t = t.push(internal_entry(Internal::Quit, false, seq![KeyChord { code: KeyCode::Char('c'), modifiers: CONTROL }, KeyChord { code: KeyCode::Char('q'), modifiers: CONTROL }], seq!["q"@]));
    let t = t.push(internal_entry(Internal::Refresh, false, seq![KeyChord { code: KeyCode::F(5), modifiers: 0 }], Seq::empty()));
    let t = t.push(internal_entry(Internal::SortByCount, false, Seq::empty(), seq!["sc"@]));
    let t = t.push(internal_entry(Internal::SortByDate, false, Seq::empty(), seq!["sd"@]));
    let t = t.push(internal_entry(Internal::SortBySize, false, Seq::empty(), seq!["ss"@]));
    let t = t.push(external_entry("rm"@, "rm -rf {file}"@, ExternalExecutionMode::StayInApp, SelectionFilter::Any, Seq::empty(), Seq::empty()));
    let t = t.push(internal_entry(Internal::ToggleCounts, false, Seq::empty(), seq!["counts"@]));
    let t = t.push(internal_entry(Internal::ToggleDates, false, Seq::empty(), seq!["dates"@]));
    let t = t.push(internal_entry(Internal::ToggleFiles, false, Seq::empty(), seq!["files"@]));
    let t = t.push(internal_entry(Internal::ToggleGitIgnore, false, Seq::empty(), seq!["gi"@]));
    let t = t.push(internal_entry(Internal::ToggleGitFileInfo, false, Seq::empty(), seq!["gf"@]));
    let t = t.push(internal_entry(Internal::ToggleGitStatus, false, Seq::empty(), seq!["gs"@]));
    let t = t.push(internal_entry(Internal::ToggleRootFs, false, Seq::empty(), seq!["rfs"@]));
    let t = t.push(internal_entry(Internal::ToggleHidden, false, Seq::empty(), seq!["h"@]));
    let t = if caps.unix { t.push(internal_entry(Internal::TogglePerm, false, Seq::empty(), seq!["perm"@])) } else { t };
    let t = t.push(internal_entry(Internal::ToggleSizes, false, Seq::empty(), seq!["sizes"@]));
    let t = t.push(internal_entry(Internal::ToggleTrimRoot, false, Seq::empty(), Seq::empty()));
    let t = t.push(internal_entry(Internal::TotalSearch, false, seq![KeyChord { code: KeyCode::Char('s'), modifiers: CONTROL }], Seq::empty()));
    let t = t.push(internal_entry(Internal::UpTree, false, Seq::empty(), seq!["up"@]));
    t
}

fn push_entry(verbs: &mut Vec<Verb>, v: Verb, Ghost(es): Ghost<Seq<BuiltinEntry>>, Ghost(e): Ghost<BuiltinEntry>)
    requires
        v.wf(),
        entry_matches(v, e),
        follows_table(old(verbs)@, es),
    ensures
        follows_table(final(verbs)@, es.push(e)),
{
    verbs.push(v);
    assert forall|i: int| 0 <= i < verbs@.len() implies (#[trigger] verbs@[i]).wf() && entry_matches(verbs@[i], es.push(e)[i]) by {
        if i < es.len() {
            assert(verbs@[i] == old(verbs)@[i]);
        }
    }
}

/// The built-in verbs, exactly the rows of the built-in table. Configuration may
/// override any of them.
#[verifier::rlimit(100)]
pub fn builtin_verbs(caps: Capabilities) -> (r: Vec<Verb>)
    ensures
        follows_table(r@, builtin_table(caps)),
        r@.len() == 51 + (if caps.unix { 4int } else { 0int }) + (if caps.clipboard { 2int } else { 0int }),
{
    let mut verbs: Vec<Verb> = Vec::new();
    let ghost mut es: Seq<BuiltinEntry> = Seq::empty();
    let v = internal(Internal::Back);
    let ghost e = internal_entry(Internal::Back, false, Seq::empty(), Seq::empty());
    push_entry(&mut verbs, v, Ghost(es), Ghost(e));
    proof {
        es = es.push(e);
    }
    proof {
        lemma_pattern_0();
    }
    let v = external("cd", "cd {directory}", ExternalExecutionMode::LeaveToParentShell).unwrap().with_stype(SelectionType::Directory).with_key(alt_enter()).unwrap().with_description("change directory and quit");
    let ghost e = BuiltinEntry { description: "change directory and quit"@, code: false, ..external_entry("cd"@, "cd {directory}"@, ExternalExecutionMode::LeaveToParentShell, SelectionFilter::DirectoryOnly, seq![KeyChord { code: KeyCode::Enter, modifiers: ALT }], Seq::empty()) };
    push_entry(&mut verbs, v, Ghost(es), Ghost(e));
    proof {
        es = es.push(e);
    }
    proof {
        reveal_strlit("ol");
    }
    let v = internal(Internal::OpenLeave).with_key(alt_enter()).unwrap().with_shortcut("ol").unwrap();
    let ghost e = internal_entry(Internal::OpenLeave, false, seq![KeyChord { code: KeyCode::Enter, modifiers: ALT }], seq!["ol"@]);
    push_entry(&mut verbs, v, Ghost(es), Ghost(e));
    proof {
        es = es.push(e);
    }
    if caps.unix {
        proof {
            lemma_pattern_1();
        }
        let v = external("chmod {args}", "chmod {args} {file}", ExternalExecutionMode::StayInApp).unwrap().with_stype(SelectionType::File);
        let ghost e = external_entry("chmod {args}"@, "chmod {args} {file}"@, ExternalExecutionMode::StayInApp, SelectionFilter::FileOnly, Seq::empty(), Seq::empty());
        push_entry(&mut verbs, v, Ghost(es), Ghost(e));
        proof {
            es = es.push(e);
        }
    }
    if caps.unix {
        proof {
            lemma_pattern_1();
        }
        let v = external("chmod {args}", "chmod -R {args} {file}", ExternalExecutionMode::StayInApp).unwrap().with_stype(SelectionType::Directory);
        let ghost e = external_entry("chmod {args}"@, "chmod -R {args} {file}"@, ExternalExecutionMode::StayInApp, SelectionFilter::DirectoryOnly, Seq::empty(), Seq::empty());
        push_entry(&mut verbs, v, Ghost(es), Ghost(e));
        proof {
            es = es.push(e);
        }
    }
    let v = internal(Internal::OpenPreview);
    let ghost e = internal_entry(Internal::OpenPreview, false, Seq::empty(), Seq::empty());
    push_entry(&mut verbs, v, Ghost(es), Ghost(e));
    proof {
        es = es.push(e);
    }
    let v = internal(Internal::ClosePreview);
    let ghost e = internal_entry(Internal::ClosePreview, false, Seq::empty(), Seq::empty());
    push_entry(&mut verbs, v, Ghost(es), Ghost(e));
    proof {
        es = es.push(e);
    }
    let v = internal(Internal::TogglePreview);
    let ghost e = internal_entry(Internal::TogglePreview, false, Seq::empty(), Seq::empty());
    push_entry(&mut verbs, v, Ghost(es), Ghost(e));
    proof {
        es = es.push(e);
    }
    let v = internal(Internal::PreviewImage);
    let ghost e = internal_entry(Internal::PreviewImage, false, Seq::empty(), Seq::empty());
    push_entry(&mut verbs, v, Ghost(es), Ghost(e));
    proof {
        es = es.push(e);
    }
    let v = internal(Internal::PreviewText);
    let ghost e = internal_entry(Internal::PreviewText, false, Seq::empty(), Seq::empty());
    push_entry(&mut verbs, v, Ghost(es), Ghost(e));
    proof {
        es = es.push(e);
    }
    let v = internal(Internal::PreviewBinary);
    let ghost e = internal_entry(Internal::PreviewBinary, false, Seq::empty(), Seq::empty());
    push_entry(&mut verbs, v, Ghost(es), Ghost(e));
    proof {
        es = es.push(e);
    }
    let v = internal(Internal::ClosePanelOk);
    let ghost e = internal_entry(Internal::ClosePanelOk, false, Seq::empty(), Seq::empty());
    push_entry(&mut verbs, v, Ghost(es), Ghost(e));
    proof {
        es = es.push(e);
    }
    let v = internal(Internal::ClosePanelCancel).with_key(back_tab()).unwrap();
    assert(!v.keys@.contains(KeyChord { code: KeyCode::Char('w'), modifiers: CONTROL })) by {
        assert(v.keys@[0] == KeyChord { code: KeyCode::BackTab, modifiers: SHIFT });
    }
    let v = v.with_control_key('w').unwrap();
    let ghost e = internal_entry(Internal::ClosePanelCancel, false, seq![KeyChord { code: KeyCode::BackTab, modifiers: SHIFT }, KeyChord { code: KeyCode::Char('w'), modifiers: CONTROL }], Seq::empty());
    assert(v.keys@ == e.keys);
    assert(view_shortcuts(v.shortcuts@) == e.shortcuts);
    assert(opt_chars(v.invocation) == Some(e.invocation));
    assert(v.execution == VerbExecution::Internal(e.action->Some_0));
    assert(v.description.text@ == e.description);
    push_entry(&mut verbs, v, Ghost(es), Ghost(e));
    proof {
        es = es.push(e);
    }
    proof {
        lemma_pattern_2();
        reveal_strlit("cp");
    }
    let v = external("copy {newpath:path-from-parent}", "cp -r {file} {newpath:path-from-parent}", ExternalExecutionMode::StayInApp).unwrap().with_shortcut("cp").unwrap();
    let ghost e = external_entry("copy {newpath:path-from-parent}"@, "cp -r {file} {newpath:path-from-parent}"@, ExternalExecutionMode::StayInApp, SelectionFilter::Any, Seq::empty(), seq!["cp"@]);
    push_entry(&mut verbs, v, Ghost(es), Ghost(e));
    proof {
        es = es.push(e);
    }
    if caps.clipboard {
        let v = internal(Internal::CopyPath).with_alt_key('c').unwrap();
        let ghost e = internal_entry(Internal::CopyPath, false, seq![KeyChord { code: KeyCode::Char('c'), modifiers: ALT }], Seq::empty());
        push_entry(&mut verbs, v, Ghost(es), Ghost(e));
        proof {
            es = es.push(e);
        }
    }
    proof {
        lemma_pattern_3();
        reveal_strlit("cpp");
    }
    let v = external("copy_to_panel", "cp -r {file} {other-panel-directory}", ExternalExecutionMode::StayInApp).unwrap().with_shortcut("cpp").unwrap();
    let ghost e = external_entry("copy_to_panel"@, "cp -r {file} {other-panel-directory}"@, ExternalExecutionMode::StayInApp, SelectionFilter::Any, Seq::empty(), seq!["cpp"@]);
    push_entry(&mut verbs, v, Ghost(es), Ghost(e));
    proof {
        es = es.push(e);
    }
    if caps.unix {
        proof {
            reveal_strlit("fs");
        }
        let v = internal(Internal::Filesystems).with_shortcut("fs").unwrap();
        let ghost e = internal_entry(Internal::Filesystems, false, Seq::empty(), seq!["fs"@]);
        push_entry(&mut verbs, v, Ghost(es), Ghost(e));
        proof {
            es = es.push(e);
        }
    }
    let v = internal(Internal::Focus).with_control_key('f').unwrap();
    let ghost e = internal_entry(Internal::Focus, false, seq![KeyChord { code: KeyCode::Char('f'), modifiers: CONTROL }], Seq::empty());
    push_entry(&mut verbs, v, Ghost(es), Ghost(e));
    proof {
        es = es.push(e);
    }
    proof {
        reveal_strlit("?");
    }
    let v = internal(Internal::Help).with_key(plain(KeyCode::F(1))).unwrap().with_shortcut("?").unwrap();
    let ghost e = internal_entry(Internal::Help, false, seq![KeyChord { code: KeyCode::F(1), modifiers: 0 }], seq!["?"@]);
    push_entry(&mut verbs, v, Ghost(es), Ghost(e));
    proof {
        es = es.push(e);
    }
    if caps.clipboard {
        let v = internal(Internal::InputPaste).with_control_key('v').unwrap();
        let ghost e = internal_entry(Internal::InputPaste, false, seq![KeyChord { code: KeyCode::Char('v'), modifiers: CONTROL }], Seq::empty());
        push_entry(&mut verbs, v, Ghost(es), Ghost(e));
        proof {
            es = es.push(e);
        }
    }
    let v = internal(Internal::LineDown).with_key(plain(KeyCode::Down)).unwrap();
    let ghost e = internal_entry(Internal::LineDown, false, seq![KeyChord { code: KeyCode::Down, modifiers: 0 }], Seq::empty());
    push_entry(&mut verbs, v, Ghost(es), Ghost(e));
    proof {
        es = es.push(e);
    }
    let v = internal(Internal::LineUp).with_key(plain(KeyCode::Up)).unwrap();
    let ghost e = internal_entry(Internal::LineUp, false, seq![KeyChord { code: KeyCode::Up, modifiers: 0 }], Seq::empty());
    push_entry(&mut verbs, v, Ghost(es), Ghost(e));
    proof {
        es = es.push(e);
    }
    proof {
        lemma_pattern_4();
        reveal_strlit("md");
    }
    let v = external("mkdir {subpath}", "mkdir -p {subpath:path-from-directory}", ExternalExecutionMode::StayInApp).unwrap().with_shortcut("md").unwrap();
    let ghost e = external_entry("mkdir {subpath}"@, "mkdir -p {subpath:path-from-directory}"@, ExternalExecutionMode::StayInApp, SelectionFilter::Any, Seq::empty(), seq!["md"@]);
    push_entry(&mut verbs, v, Ghost(es), Ghost(e));
    proof {
        es = es.push(e);
    }
    proof {
        lemma_pattern_5();
        reveal_strlit("mv");
    }
    let v = external("move {newpath:path-from-parent}", "mv {file} {newpath:path-from-parent}", ExternalExecutionMode::StayInApp).unwrap().with_shortcut("mv").unwrap();
    let ghost e = external_entry("move {newpath:path-from-parent}"@, "mv {file} {newpath:path-from-parent}"@, ExternalExecutionMode::StayInApp, SelectionFilter::Any, Seq::empty(), seq!["mv"@]);
    push_entry(&mut verbs, v, Ghost(es), Ghost(e));
    proof {
        es = es.push(e);
    }
    proof {
        lemma_pattern_6();
        reveal_strlit("mvp");
    }
    let v = external("move_to_panel", "mv {file} {other-panel-directory}", ExternalExecutionMode::StayInApp).unwrap().with_shortcut("mvp").unwrap();
    let ghost e = external_entry("move_to_panel"@, "mv {file} {other-panel-directory}"@, ExternalExecutionMode::StayInApp, SelectionFilter::Any, Seq::empty(), seq!["mvp"@]);
    push_entry(&mut verbs, v, Ghost(es), Ghost(e));
    proof {
        es = es.push(e);
    }
    let v = internal_bang(Internal::StartEndPanel).with_control_key('p').unwrap();
    let ghost e = internal_entry(Internal::StartEndPanel, true, seq![KeyChord { code: KeyCode::Char('p'), modifiers: CONTROL }], Seq::empty());
    push_entry(&mut verbs, v, Ghost(es), Ghost(e));
    proof {
        es = es.push(e);
    }
    let v = internal(Internal::NextMatch).with_key(plain(KeyCode::Tab)).unwrap();
    let ghost e = internal_entry(Internal::NextMatch, false, seq![KeyChord { code: KeyCode::Tab, modifiers: 0 }], Seq::empty());
    push_entry(&mut verbs, v, Ghost(es), Ghost(e));
    proof {
        es = es.push(e);
    }
    proof {
        reveal_strlit("ns");
    }
    let v = internal(Internal::NoSort).with_shortcut("ns").unwrap();
    let ghost e = internal_entry(Internal::NoSort, false, Seq::empty(), seq!["ns"@]);
    push_entry(&mut verbs, v, Ghost(es), Ghost(e));
    proof {
        es = es.push(e);
    }
    proof {
        reveal_strlit("os");
    }
    let v = internal(Internal::OpenStay).with_key(plain(KeyCode::Enter)).unwrap().with_shortcut("os").unwrap();
    let ghost e = internal_entry(Internal::OpenStay, false, seq![KeyChord { code: KeyCode::Enter, modifiers: 0 }], seq!["os"@]);
    push_entry(&mut verbs, v, Ghost(es), Ghost(e));
    proof {
        es = es.push(e);
    }
    proof {
        reveal_strlit("osf");
    }
    let v = internal(Internal::OpenStayFilter).with_shortcut("osf").unwrap();
    let ghost e = internal_entry(Internal::OpenStayFilter, false, Seq::empty(), seq!["osf"@]);
    push_entry(&mut verbs, v, Ghost(es), Ghost(e));
    proof {
        es = es.push(e);
    }
    proof {
        reveal_strlit("p");
    }
    let v = internal(Internal::Parent).with_shortcut("p").unwrap();
    let ghost e = internal_entry(Internal::Parent, false, Seq::empty(), seq!["p"@]);
    push_entry(&mut verbs, v, Ghost(es), Ghost(e));
    proof {
        es = es.push(e);
    }
    let v = internal(Internal::PageDown).with_key(plain(KeyCode::PageDown)).unwrap();
    let ghost e = internal_entry(Internal::PageDown, false, seq![KeyChord { code: KeyCode::PageDown, modifiers: 0 }], Seq::empty());
    push_entry(&mut verbs, v, Ghost(es), Ghost(e));
    proof {
        es = es.push(e);
    }
    let v = internal(Internal::PageUp).with_key(plain(KeyCode::PageUp)).unwrap();
    let ghost e = internal_entry(Internal::PageUp, false, seq![KeyChord { code: KeyCode::PageUp, modifiers: 0 }], Seq::empty());
    push_entry(&mut verbs, v, Ghost(es), Ghost(e));
    proof {
        es = es.push(e);
    }
    let v = internal(Internal::PanelLeft).with_key(chord(KeyCode::Left, CONTROL)).unwrap();
    let ghost e = internal_entry(Internal::PanelLeft, false, seq![KeyChord { code: KeyCode::Left, modifiers: CONTROL }], Seq::empty());
    push_entry(&mut verbs, v, Ghost(es), Ghost(e));
    proof {
        es = es.push(e);
    }
    let v = internal(Internal::PanelRight).with_key(chord(KeyCode::Right, CONTROL)).unwrap();
    let ghost e = internal_entry(Internal::PanelRight, false, seq![KeyChord { code: KeyCode::Right, modifiers: CONTROL }], Seq::empty());
    push_entry(&mut verbs, v, Ghost(es), Ghost(e));
    proof {
        es = es.push(e);
    }
    proof {
        reveal_strlit("pp");
    }
    let v = internal(Internal::PrintPath).with_shortcut("pp").unwrap();
    let ghost e = internal_entry(Internal::PrintPath, false, Seq::empty(), seq!["pp"@]);
    push_entry(&mut verbs, v, Ghost(es), Ghost(e));
    proof {
        es = es.push(e);
    }
    proof {
        reveal_strlit("prp");
    }
    let v = internal(Internal::PrintRelativePath).with_shortcut("prp").unwrap();
    let ghost e = internal_entry(Internal::PrintRelativePath, false, Seq::empty(), seq!["prp"@]);
    push_entry(&mut verbs, v, Ghost(es), Ghost(e));
    proof {
        es = es.push(e);
    }
    proof {
        reveal_strlit("pt");
    }
    let v = internal(Internal::PrintTree).with_shortcut("pt").unwrap();
    let ghost e = internal_entry(Internal::PrintTree, false, Seq::empty(), seq!["pt"@]);
    push_entry(&mut verbs, v, Ghost(es), Ghost(e));
    proof {
        es = es.push(e);
    }
    proof {
        reveal_strlit("q");
    }
    let v = internal(Internal::Quit).with_control_key('c').unwrap();
    assert(!v.keys@.contains(KeyChord { code: KeyCode::Char('q'), modifiers: CONTROL })) by {
        assert(v.keys@[0] == KeyChord { code: KeyCode::Char('c'), modifiers: CONTROL });
    }
    let v = v.with_control_key('q').unwrap().with_shortcut("q").unwrap();
    let ghost e = internal_entry(Internal::Quit, false, seq![KeyChord { code: KeyCode::Char('c'), modifiers: CONTROL }, KeyChord { code: KeyCode::Char('q'), modifiers: CONTROL }], seq!["q"@]);
    assert(v.keys@ == e.keys);
    assert(view_shortcuts(v.shortcuts@) == e.shortcuts);
    assert(opt_chars(v.invocation) == Some(e.invocation));
    assert(v.execution == VerbExecution::Internal(e.action->Some_0));
    assert(v.description.text@ == e.description);
    push_entry(&mut verbs, v, Ghost(es), Ghost(e));
    proof {
        es = es.push(e);
    }
    let v = internal(Internal::Refresh).with_key(plain(KeyCode::F(5))).unwrap();
    let ghost e = internal_entry(Internal::Refresh, false, seq![KeyChord { code: KeyCode::F(5), modifiers: 0 }], Seq::empty());
    push_entry(&mut verbs, v, Ghost(es), Ghost(e));
    proof {
        es = es.push(e);
    }
    proof {
        reveal_strlit("sc");
    }
    let v = internal(Internal::SortByCount).with_shortcut("sc").unwrap();
    let ghost e = internal_entry(Internal::SortByCount, false, Seq::empty(), seq!["sc"@]);
    push_entry(&mut verbs, v, Ghost(es), Ghost(e));
    proof {
        es = es.push(e);
    }
    proof {
        reveal_strlit("sd");
    }
    let v = internal(Internal::SortByDate).with_shortcut("sd").unwrap();
    let ghost e = internal_entry(Internal::SortByDate, false, Seq::empty(), seq!["sd"@]);
    push_entry(&mut verbs, v, Ghost(es), Ghost(e));
    proof {
        es = es.push(e);
    }
    proof {
        reveal_strlit("ss");
    }
    let v = internal(Internal::SortBySize).with_shortcut("ss").unwrap();
    let ghost e = internal_entry(Internal::SortBySize, false, Seq::empty(), seq!["ss"@]);
    push_entry(&mut verbs, v, Ghost(es), Ghost(e));
    proof {
        es = es.push(e);
    }
    proof {
        lemma_pattern_7();
    }
    let v = external("rm", "rm -rf {file}", ExternalExecutionMode::StayInApp).unwrap();
    let ghost e = external_entry("rm"@, "rm -rf {file}"@, ExternalExecutionMode::StayInApp, SelectionFilter::Any, Seq::empty(), Seq::empty());
    push_entry(&mut verbs, v, Ghost(es), Ghost(e));
    proof {
        es = es.push(e);
    }
    proof {
        reveal_strlit("counts");
    }
    let v = internal(Internal::ToggleCounts).with_shortcut("counts").unwrap();
    let ghost e = internal_entry(Internal::ToggleCounts, false, Seq::empty(), seq!["counts"@]);
    push_entry(&mut verbs, v, Ghost(es), Ghost(e));
    proof {
        es = es.push(e);
    }
    proof {
        reveal_strlit("dates");
    }
    let v = internal(Internal::ToggleDates).with_shortcut("dates").unwrap();
    let ghost e = internal_entry(Internal::ToggleDates, false, Seq::empty(), seq!["dates"@]);
    push_entry(&mut verbs, v, Ghost(es), Ghost(e));
    proof {
        es = es.push(e);
    }
    proof {
        reveal_strlit("files");
    }
    let v = internal(Internal::ToggleFiles).with_shortcut("files").unwrap();
    let ghost e = internal_entry(Internal::ToggleFiles, false, Seq::empty(), seq!["files"@]);
    push_entry(&mut verbs, v, Ghost(es), Ghost(e));
    proof {
        es = es.push(e);
    }
    proof {
        reveal_strlit("gi");
    }
    let v = internal(Internal::ToggleGitIgnore).with_shortcut("gi").unwrap();
    let ghost e = internal_entry(Internal::ToggleGitIgnore, false, Seq::empty(), seq!["gi"@]);
    push_entry(&mut verbs, v, Ghost(es), Ghost(e));
    proof {
        es = es.push(e);
    }
    proof {
        reveal_strlit("gf");
    }
    let v = internal(Internal::ToggleGitFileInfo).with_shortcut("gf").unwrap();
    let ghost e = internal_entry(Internal::ToggleGitFileInfo, false, Seq::empty(), seq!["gf"@]);
    push_entry(&mut verbs, v, Ghost(es), Ghost(e));
    proof {
        es = es.push(e);
    }
    proof {
        reveal_strlit("gs");
    }
    let v = internal(Internal::ToggleGitStatus).with_shortcut("gs").unwrap();
    let ghost e = internal_entry(Internal::ToggleGitStatus, false, Seq::empty(), seq!["gs"@]);
    push_entry(&mut verbs, v, Ghost(es), Ghost(e));
    proof {
        es = es.push(e);
    }
    proof {
        reveal_strlit("rfs");
    }
    let v = internal(Internal::ToggleRootFs).with_shortcut("rfs").unwrap();
    let ghost e = internal_entry(Internal::ToggleRootFs, false, Seq::empty(), seq!["rfs"@]);
    push_entry(&mut verbs, v, Ghost(es), Ghost(e));
    proof {
        es = es.push(e);
    }
    proof {
        reveal_strlit("h");
    }
    let v = internal(Internal::ToggleHidden).with_shortcut("h").unwrap();
    let ghost e = internal_entry(Internal::ToggleHidden, false, Seq::empty(), seq!["h"@]);
    push_entry(&mut verbs, v, Ghost(es), Ghost(e));
    proof {
        es = es.push(e);
    }
    if caps.unix {
        proof {
            reveal_strlit("perm");
        }
        let v = internal(Internal::TogglePerm).with_shortcut("perm").unwrap();
        let ghost e = internal_entry(Internal::TogglePerm, false, Seq::empty(), seq!["perm"@]);
        push_entry(&mut verbs, v, Ghost(es), Ghost(e));
        proof {
            es = es.push(e);
        }
    }
    proof {
        reveal_strlit("sizes");
    }
    let v = internal(Internal::ToggleSizes).with_shortcut("sizes").unwrap();
    let ghost e = internal_entry(Internal::ToggleSizes, false, Seq::empty(), seq!["sizes"@]);
    push_entry(&mut verbs, v, Ghost(es), Ghost(e));
    proof {
        es = es.push(e);
    }
    let v = internal(Internal::ToggleTrimRoot);
    let ghost e = internal_entry(Internal::ToggleTrimRoot, false, Seq::empty(), Seq::empty());
    push_entry(&mut verbs, v, Ghost(es), Ghost(e));
    proof {
        es = es.push(e);
    }
    let v = internal(Internal::TotalSearch).with_control_key('s').unwrap();
    let ghost e = internal_entry(Internal::TotalSearch, false, seq![KeyChord { code: KeyCode::Char('s'), modifiers: CONTROL }], Seq::empty());
    push_entry(&mut verbs, v, Ghost(es), Ghost(e));
    proof {
        es = es.push(e);
    }
    proof {
        reveal_strlit("up");
    }
    let v = internal(Internal::UpTree).with_shortcut("up").unwrap();
    let ghost e = internal_entry(Internal::UpTree, false, Seq::empty(), seq!["up"@]);
    push_entry(&mut verbs, v, Ghost(es), Ghost(e));
    proof {
        es = es.push(e);
    }
    assert(es == builtin_table(caps));
    verbs
}

} // verus!
