//! The modal input session of the terminal front-end: one explicit state
//! value, a transition for each key press, and the store work that a
//! transition asks the caller to do.

use vstd::prelude::*;

use crate::actions::Action;
use crate::ex::{
    error_message, opt_view, parse_ex, parse_ex_spec, result_view, ExCommand, ExCommandView,
    ExError, ExErrorView, StatusSet,
};
use crate::keymap::{bound, key_token, token_of, KeyInput, KeyName, Keymap};
use crate::nav::{clamp_selection, clamped, navigate, navigated};
use crate::record::{ProjectNew, TaskNew};
use crate::sort::{sort_ranked, sorted_by_rank, Ranked};
use crate::status::{status_name, Status};
use crate::text::{
    chars_of, concat, lemma_lex_total, lemma_lex_transitive, lex_le, str_eq, str_le, string_of,
    strip_leading, trim_chars, trimmed, views, without_leading,
};

verus! {

/// Which field an edit prompt changes.
#[derive(Clone, Copy, Debug, PartialEq, Eq, Structural)]
pub enum Field {
    Due,
    Title,
    Tags,
}

/// The input mode; exactly one is active.
#[derive(Clone, Copy, Debug, PartialEq, Eq, Structural)]
pub enum Mode {
    Browsing,
    Filtering,
    EditingField(Field),
    PickingProject,
    EnteringNewProjectTitle,
    EnteringExCommand,
}

/// The last result shown to the user.
#[derive(Clone, Debug)]
pub struct Message {
    pub is_error: bool,
    pub text: String,
}

/// The state of a terminal session.
#[derive(Clone, Debug)]
pub struct Session {
    pub mode: Mode,
    /// The text being typed in an edit, new-project or ex-command prompt.
    pub buffer: String,
    /// The text filter; it stays active after the filter prompt closes.
    pub filter: String,
    /// The selection, an index into the visible list.
    pub selected: usize,
    /// The project the listing is narrowed to, if any.
    pub current_project: Option<String>,
    /// The known project keys, sorted.
    pub projects: Vec<String>,
    /// The cursor of the project picker.
    pub pick_index: usize,
    pub message: Option<Message>,
    /// A first `g` of the go-to-top chord has been pressed.
    pub pending_g: bool,
}

/// Store work (or another outside action) that a transition asks for.
#[derive(Clone, Debug)]
pub enum Effect {
    Idle,
    Quit,
    /// List the projects and hand their keys to `projects_listed`.
    RefreshProjects,
    SetStatus { id: String, status: Status, from_ex: bool },
    CycleStatus { id: String, direction: i8 },
    SetDue { id: String, text: String },
    RenameTitle { id: String, text: String },
    SetTags { id: String, text: String },
    CreateTask(TaskNew),
    CreateProject(ProjectNew),
    ReloadConfig,
}

pub struct SessionView {
    pub mode: Mode,
    pub buffer: Seq<char>,
    pub filter: Seq<char>,
    pub selected: int,
    pub current_project: Option<Seq<char>>,
    pub projects: Seq<Seq<char>>,
    pub pick_index: int,
    pub message: Option<(bool, Seq<char>)>,
    pub pending_g: bool,
}

pub enum EffectView {
    Idle,
    Quit,
    RefreshProjects,
    SetStatus { id: Seq<char>, status: Status, from_ex: bool },
    CycleStatus { id: Seq<char>, direction: int },
    SetDue { id: Seq<char>, text: Seq<char> },
    RenameTitle { id: Seq<char>, text: Seq<char> },
    SetTags { id: Seq<char>, text: Seq<char> },
    CreateTask { title: Seq<char>, project: Seq<char>, due: Option<Seq<char>>, tags: Seq<Seq<char>> },
    CreateProject { title: Seq<char>, tags: Seq<Seq<char>> },
    ReloadConfig,
}

pub open spec fn message_view(m: Option<Message>) -> Option<(bool, Seq<char>)> {
    match m {
        Some(m) => Some((m.is_error, m.text@)),
        None => None,
    }
}

impl View for Session {
    type V = SessionView;

    open spec fn view(&self) -> SessionView {
        SessionView {
            mode: self.mode,
            buffer: self.buffer@,
            filter: self.filter@,
            selected: self.selected as int,
            current_project: opt_view(self.current_project),
            projects: views(self.projects@),
            pick_index: self.pick_index as int,
            message: message_view(self.message),
            pending_g: self.pending_g,
        }
    }
}

impl View for Effect {
    type V = EffectView;

    open spec fn view(&self) -> EffectView {
        match self {
            Effect::Idle => EffectView::Idle,
            Effect::Quit => EffectView::Quit,
            Effect::RefreshProjects => EffectView::RefreshProjects,
            Effect::SetStatus { id, status, from_ex } => EffectView::SetStatus {
                id: id@,
                status: *status,
                from_ex: *from_ex,
            },
            Effect::CycleStatus { id, direction } => EffectView::CycleStatus {
                id: id@,
                direction: *direction as int,
            },
            Effect::SetDue { id, text } => EffectView::SetDue { id: id@, text: text@ },
            Effect::RenameTitle { id, text } => EffectView::RenameTitle { id: id@, text: text@ },
            Effect::SetTags { id, text } => EffectView::SetTags { id: id@, text: text@ },
            Effect::CreateTask(t) => EffectView::CreateTask {
                title: t.title@,
                project: t.project@,
                due: opt_view(t.due),
                tags: views(t.tags@),
            },
            Effect::CreateProject(p) => EffectView::CreateProject {
                title: p.title@,
                tags: views(p.tags@),
            },
            Effect::ReloadConfig => EffectView::ReloadConfig,
        }
    }
}

/// A text prompt after a key: backspace removes the last character, a
/// character typed without control is appended, other keys change nothing.
pub open spec fn typed(s: Seq<char>, k: KeyInput) -> Seq<char> {
    match k.key {
        KeyName::Backspace => if s.len() > 0 {
            s.drop_last()
        } else {
            s
        },
        KeyName::Char(c) => if !k.ctrl {
            s.push(c)
        } else {
            s
        },
        _ => s,
    }
}

/// The first index at or after `i` where `key` stands in `ps`.
pub open spec fn first_position(ps: Seq<Seq<char>>, key: Seq<char>, i: int) -> Option<int>
    decreases ps.len() - i,
{
    if i < 0 || i >= ps.len() {
        None
    } else if ps[i] == key {
        Some(i)
    } else {
        first_position(ps, key, i + 1)
    }
}

/// The project after (or before) the current one in the sorted key list,
/// wrapping around; the first one when there is no current project or it is
/// not in the list; none when the list is empty.
pub open spec fn cycled_project(s: SessionView, forward: bool) -> SessionView {
    let ps = s.projects;
    if ps.len() == 0 {
        SessionView { current_project: None, ..s }
    } else {
        let idx = match s.current_project {
            Some(k) => match first_position(ps, k, 0) {
                Some(i) => if forward {
                    (i + 1) % (ps.len() as int)
                } else if i == 0 {
                    ps.len() - 1
                } else {
                    i - 1
                },
                None => 0,
            },
            None => 0,
        };
        SessionView { current_project: Some(ps[idx]), selected: 0, ..s }
    }
}

/// The effect of a status action on the selected visible task.
pub open spec fn status_effect(a: Action, id: Seq<char>) -> EffectView {
    match a {
        Action::StatusNext => EffectView::CycleStatus { id, direction: 1 },
        Action::StatusPrev => EffectView::CycleStatus { id, direction: -1 },
        Action::SetTodo => EffectView::SetStatus { id, status: Status::Todo, from_ex: false },
        Action::SetDoing => EffectView::SetStatus { id, status: Status::Doing, from_ex: false },
        _ => EffectView::SetStatus { id, status: Status::Done, from_ex: false },
    }
}

/// An action in browsing mode: navigation moves the selection, focus-filter
/// opens the filter, quit asks to quit, and status actions apply to the
/// selected visible task (nothing when the list is empty).
pub open spec fn dispatch_spec(s: SessionView, a: Action, vis: Seq<Seq<char>>) -> (
    SessionView,
    EffectView,
) {
    match a {
        Action::FocusFilter => (SessionView { mode: Mode::Filtering, ..s }, EffectView::Idle),
        Action::Quit => (s, EffectView::Quit),
        Action::StatusNext | Action::StatusPrev | Action::SetTodo | Action::SetDoing
        | Action::SetDone => if 0 <= s.selected < vis.len() {
            (s, status_effect(a, vis[s.selected]))
        } else {
            (s, EffectView::Idle)
        },
        _ => (
            SessionView { selected: navigated(a, s.selected, vis.len() as int), ..s },
            EffectView::Idle,
        ),
    }
}

/// The keys that open a prompt when no action is bound to them.
pub open spec fn hotkey_spec(s: SessionView, k: KeyInput) -> SessionView {
    match k.key {
        KeyName::Char('D') => SessionView {
            mode: Mode::EditingField(Field::Due),
            buffer: Seq::empty(),
            ..s
        },
        KeyName::Char('R') => SessionView {
            mode: Mode::EditingField(Field::Title),
            buffer: Seq::empty(),
            ..s
        },
        KeyName::Char('T') => SessionView {
            mode: Mode::EditingField(Field::Tags),
            buffer: Seq::empty(),
            ..s
        },
        KeyName::Char('/') => SessionView { mode: Mode::Filtering, ..s },
        _ => s,
    }
}

/// A key in browsing mode. Any key but `g` breaks a pending go-to-top chord.
pub open spec fn browse_spec(
    s: SessionView,
    k: KeyInput,
    vis: Seq<Seq<char>>,
    km: Map<Seq<char>, Action>,
) -> (SessionView, EffectView) {
    let unchorded = SessionView { pending_g: false, ..s };
    match k.key {
        KeyName::Char(':') => (
            SessionView { mode: Mode::EnteringExCommand, buffer: Seq::empty(), ..unchorded },
            EffectView::Idle,
        ),
        KeyName::Char('O') => (
            SessionView { mode: Mode::PickingProject, pick_index: 0, ..unchorded },
            EffectView::RefreshProjects,
        ),
        KeyName::Char(']') => (cycled_project(unchorded, true), EffectView::Idle),
        KeyName::Char('[') => (cycled_project(unchorded, false), EffectView::Idle),
        KeyName::Char('P') => (
            SessionView {
                mode: Mode::EnteringNewProjectTitle,
                buffer: Seq::empty(),
                ..unchorded
            },
            EffectView::Idle,
        ),
        _ => {
            let is_g = k.key == KeyName::Char('g');
            let action = if is_g {
                if s.pending_g {
                    Some(Action::GoTop)
                } else {
                    None
                }
            } else {
                match token_of(k) {
                    Some(t) => bound(km, t),
                    None => None,
                }
            };
            let s1 = SessionView { pending_g: is_g && !s.pending_g, ..s };
            match action {
                Some(a) => dispatch_spec(s1, a, vis),
                None => (hotkey_spec(s1, k), EffectView::Idle),
            }
        },
    }
}

/// A key in the filter prompt: escape or enter close it and keep the filter.
pub open spec fn filter_spec(s: SessionView, k: KeyInput) -> SessionView {
    match k.key {
        KeyName::Esc | KeyName::Enter => SessionView { mode: Mode::Browsing, ..s },
        _ => SessionView { filter: typed(s.filter, k), ..s },
    }
}

/// The store work of a confirmed field edit.
pub open spec fn field_effect(f: Field, id: Seq<char>, text: Seq<char>) -> EffectView {
    match f {
        Field::Due => EffectView::SetDue { id, text },
        Field::Title => EffectView::RenameTitle { id, text },
        Field::Tags => EffectView::SetTags { id, text },
    }
}

/// A key in a field edit prompt: enter applies the text to the selected
/// visible task, escape drops it; both return to browsing.
pub open spec fn edit_spec(s: SessionView, f: Field, k: KeyInput, vis: Seq<Seq<char>>) -> (
    SessionView,
    EffectView,
) {
    let closed = SessionView { mode: Mode::Browsing, buffer: Seq::empty(), ..s };
    match k.key {
        KeyName::Esc => (closed, EffectView::Idle),
        KeyName::Enter => (
            closed,
            if 0 <= s.selected < vis.len() {
                field_effect(f, vis[s.selected], s.buffer)
            } else {
                EffectView::Idle
            },
        ),
        _ => (SessionView { buffer: typed(s.buffer, k), ..s }, EffectView::Idle),
    }
}

/// A key in the project picker: up and down move its cursor without
/// wrapping, enter opens the picked project (all projects when there
/// is none) and resets the selection, escape leaves the filter as it was.
pub open spec fn pick_spec(s: SessionView, k: KeyInput) -> SessionView {
    let n = s.projects.len() as int;
    match k.key {
        KeyName::Esc => SessionView { mode: Mode::Browsing, ..s },
        KeyName::Enter => if n == 0 {
            SessionView { mode: Mode::Browsing, current_project: None, selected: 0, ..s }
        } else {
            let i = if s.pick_index < n - 1 {
                s.pick_index
            } else {
                n - 1
            };
            SessionView {
                mode: Mode::Browsing,
                current_project: Some(s.projects[i]),
                selected: 0,
                pick_index: i,
                ..s
            }
        },
        KeyName::Up => SessionView {
            pick_index: if s.pick_index > 0 {
                s.pick_index - 1
            } else {
                0
            },
            ..s
        },
        KeyName::Down => if s.pick_index + 1 < n {
            SessionView { pick_index: s.pick_index + 1, ..s }
        } else {
            s
        },
        _ => s,
    }
}

/// A key in the new-project prompt: enter creates a project from the
/// trimmed text when it is not empty; enter and escape return to browsing.
pub open spec fn new_project_spec(s: SessionView, k: KeyInput) -> (SessionView, EffectView) {
    let closed = SessionView { mode: Mode::Browsing, buffer: Seq::empty(), ..s };
    match k.key {
        KeyName::Esc => (closed, EffectView::Idle),
        KeyName::Enter => {
            let t = trimmed(s.buffer);
            (
                closed,
                if t.len() > 0 {
                    EffectView::CreateProject { title: t, tags: Seq::empty() }
                } else {
                    EffectView::Idle
                },
            )
        },
        _ => (SessionView { buffer: typed(s.buffer, k), ..s }, EffectView::Idle),
    }
}

/// What a parsed ex-command does: some ask for store work, `open` narrows
/// the listing at once, and a parse error is shown.
pub open spec fn ex_run_spec(
    s: SessionView,
    r: Result<ExCommandView, ExErrorView>,
    vis: Seq<Seq<char>>,
) -> (SessionView, EffectView) {
    match r {
        Err(e) => (SessionView { message: Some((true, error_message(e))), ..s }, EffectView::Idle),
        Ok(ExCommandView::ConfigReload) => (s, EffectView::ReloadConfig),
        Ok(ExCommandView::New { title, project, tags, due }) => (
            s,
            EffectView::CreateTask {
                title,
                project: match project {
                    Some(p) => p,
                    None => "inbox"@,
                },
                due,
                tags,
            },
        ),
        Ok(ExCommandView::Status { id, set }) => {
            let target = match id {
                Some(i) => Some(i),
                None => if 0 <= s.selected < vis.len() {
                    Some(vis[s.selected])
                } else {
                    None
                },
            };
            match target {
                None => (
                    SessionView { message: Some((true, "no task selected"@)), ..s },
                    EffectView::Idle,
                ),
                Some(t) => (
                    s,
                    match set {
                        StatusSet::Todo => EffectView::SetStatus {
                            id: t,
                            status: Status::Todo,
                            from_ex: true,
                        },
                        StatusSet::Doing => EffectView::SetStatus {
                            id: t,
                            status: Status::Doing,
                            from_ex: true,
                        },
                        StatusSet::Done => EffectView::SetStatus {
                            id: t,
                            status: Status::Done,
                            from_ex: true,
                        },
                        StatusSet::Next => EffectView::CycleStatus { id: t, direction: 1 },
                        StatusSet::Prev => EffectView::CycleStatus { id: t, direction: -1 },
                    },
                ),
            }
        },
        Ok(ExCommandView::OpenProject { key }) => if key.len() == 0 {
            (
                SessionView {
                    current_project: None,
                    message: Some((false, "opened all projects"@)),
                    ..s
                },
                EffectView::Idle,
            )
        } else {
            (
                SessionView {
                    current_project: Some(key),
                    selected: 0,
                    message: Some((false, "opened project "@ + key)),
                    ..s
                },
                EffectView::Idle,
            )
        },
        Ok(ExCommandView::ProjectNew { title, tags }) => (
            s,
            EffectView::CreateProject { title, tags },
        ),
    }
}

/// A key in the ex-command prompt: enter parses the text (trimmed, without
/// leading colons) and runs it, escape drops it; both return to browsing
/// and keep the last message.
pub open spec fn ex_spec(s: SessionView, k: KeyInput, vis: Seq<Seq<char>>) -> (
    SessionView,
    EffectView,
) {
    let closed = SessionView { mode: Mode::Browsing, buffer: Seq::empty(), ..s };
    match k.key {
        KeyName::Esc => (closed, EffectView::Idle),
        KeyName::Enter => ex_run_spec(
            closed,
            parse_ex_spec(without_leading(trimmed(s.buffer), ':')),
            vis,
        ),
        _ => (SessionView { buffer: typed(s.buffer, k), ..s }, EffectView::Idle),
    }
}

/// The transition of a session on a key press, given the ids of the visible
/// tasks in order and the keymap. The selection is first kept within the
/// visible list.
pub open spec fn step_spec(
    s0: SessionView,
    k: KeyInput,
    vis: Seq<Seq<char>>,
    km: Map<Seq<char>, Action>,
) -> (SessionView, EffectView) {
    let s = SessionView { selected: clamped(s0.selected, vis.len() as int), ..s0 };
    match s.mode {
        Mode::EnteringExCommand => ex_spec(s, k, vis),
        Mode::Filtering => (filter_spec(s, k), EffectView::Idle),
        Mode::EditingField(f) => edit_spec(s, f, k, vis),
        Mode::PickingProject => (pick_spec(s, k), EffectView::Idle),
        Mode::EnteringNewProjectTitle => new_project_spec(s, k),
        Mode::Browsing => browse_spec(s, k, vis, km),
    }
}

impl Ranked for String {
    /// Ordered as `str`'s `Ord` orders strings.
    open spec fn before(&self, other: &String) -> bool {
        lex_le(self@, other@)
    }

    fn ranks_before(&self, other: &String) -> (r: bool) {
        str_le(self.as_str(), other.as_str())
    }

    proof fn lemma_before_total(a: &String, b: &String) {
        lemma_lex_total(a@, b@);
    }

    proof fn lemma_before_transitive(a: &String, b: &String, c: &String) {
        lemma_lex_transitive(a@, b@, c@);
    }
}

/// `status done` without an id, confirmed in the ex-command prompt, sets
/// the selected visible task to done; with nothing visible it sets nothing
/// and reports that no task is selected. Either way the prompt closes.
pub proof fn lemma_ex_status_targets_selection(
    s: SessionView,
    vis: Seq<Seq<char>>,
    km: Map<Seq<char>, Action>,
)
    requires
        s.mode == Mode::EnteringExCommand,
        parse_ex_spec(without_leading(trimmed(s.buffer), ':')) == Ok::<
            ExCommandView,
            ExErrorView,
        >(ExCommandView::Status { id: None, set: StatusSet::Done }),
    ensures
        ({
            let (n, e) = step_spec(
                s,
                KeyInput { key: KeyName::Enter, ctrl: false, shift: false },
                vis,
                km,
            );
            &&& n.mode == Mode::Browsing
            &&& n.buffer.len() == 0
            &&& 0 <= s.selected < vis.len() ==> e == EffectView::SetStatus {
                id: vis[s.selected],
                status: Status::Done,
                from_ex: true,
            } && n.message == s.message
            &&& vis.len() == 0 ==> e == EffectView::Idle && n.message == Some(
                (true, "no task selected"@),
            )
        }),
{
}

fn typed_string(s: &String, k: &KeyInput) -> (r: String)
    ensures
        r@ == typed(s@, *k),
{
    match k.key {
        KeyName::Backspace => {
            let mut cs = chars_of(s.as_str());
            if cs.len() > 0 {
                cs.pop();
            }
            string_of(cs.as_slice())
        },
        KeyName::Char(c) => {
            if !k.ctrl {
                let mut cs = chars_of(s.as_str());
                cs.push(c);
                string_of(cs.as_slice())
            } else {
                s.clone()
            }
        },
        _ => s.clone(),
    }
}

fn find_position(ps: &Vec<String>, key: &String) -> (r: Option<usize>)
    ensures
        r matches Some(i) ==> first_position(views(ps@), key@, 0) == Some(i as int) && i
            < ps@.len(),
        r is None ==> first_position(views(ps@), key@, 0) is None,
{
    let mut i: usize = 0;
    while i < ps.len()
        invariant
            i <= ps@.len(),
            first_position(views(ps@), key@, 0) == first_position(views(ps@), key@, i as int),
        decreases ps@.len() - i,
    {
        if str_eq(ps[i].as_str(), key.as_str()) {
            return Some(i);
        }
        i = i + 1;
    }
    None
}

impl Session {
    /// A session in browsing mode with nothing typed, everything listed,
    /// and the given project keys.
    pub fn new(project_keys: Vec<String>) -> (r: Session)
        ensures
            r.mode == Mode::Browsing,
            r.buffer@.len() == 0,
            r.filter@.len() == 0,
            r.selected == 0,
            r.current_project is None,
            r.projects@.to_multiset() == project_keys@.to_multiset(),
            sorted_by_rank(r.projects@),
            r.pick_index == 0,
            r.message is None,
            !r.pending_g,
    {
        Session {
            mode: Mode::Browsing,
            buffer: String::new(),
            filter: String::new(),
            selected: 0,
            current_project: None,
            projects: sort_ranked(project_keys),
            pick_index: 0,
            message: None,
            pending_g: false,
        }
    }

    fn cycle_project(&mut self, forward: bool)
        ensures
            final(self)@ == cycled_project(old(self)@, forward),
    {
        let n = self.projects.len();
        if n == 0 {
            self.current_project = None;
            return;
        }
        let idx: usize = match &self.current_project {
            Some(k) => match find_position(&self.projects, k) {
                Some(i) => if forward {
                    (i + 1) % n
                } else if i == 0 {
                    n - 1
                } else {
                    i - 1
                },
                None => 0,
            },
            None => 0,
        };
        self.current_project = Some(self.projects[idx].clone());
        self.selected = 0;
    }

    fn dispatch(&mut self, a: Action, visible: &Vec<String>) -> (e: Effect)
        requires
            old(self).selected == clamped(old(self).selected as int, visible@.len() as int),
        ensures
            (final(self)@, e@) == dispatch_spec(old(self)@, a, views(visible@)),
    {
        match a {
            Action::FocusFilter => {
                self.mode = Mode::Filtering;
                Effect::Idle
            },
            Action::Quit => Effect::Quit,
            Action::StatusNext | Action::StatusPrev | Action::SetTodo | Action::SetDoing
            | Action::SetDone => {
                if self.selected < visible.len() {
                    let id = visible[self.selected].clone();
                    match a {
                        Action::StatusNext => Effect::CycleStatus { id, direction: 1 },
                        Action::StatusPrev => Effect::CycleStatus { id, direction: -1 },
                        Action::SetTodo => Effect::SetStatus {
                            id,
                            status: Status::Todo,
                            from_ex: false,
                        },
                        Action::SetDoing => Effect::SetStatus {
                            id,
                            status: Status::Doing,
                            from_ex: false,
                        },
                        _ => Effect::SetStatus { id, status: Status::Done, from_ex: false },
                    }
                } else {
                    Effect::Idle
                }
            },
            _ => {
                self.selected = navigate(a, self.selected, visible.len());
                Effect::Idle
            },
        }
    }

    fn hotkey(&mut self, k: &KeyInput)
        ensures
            final(self)@ == hotkey_spec(old(self)@, *k),
    {
        match k.key {
            KeyName::Char('D') => {
                self.mode = Mode::EditingField(Field::Due);
                self.buffer = String::new();
            },
            KeyName::Char('R') => {
                self.mode = Mode::EditingField(Field::Title);
                self.buffer = String::new();
            },
            KeyName::Char('T') => {
                self.mode = Mode::EditingField(Field::Tags);
                self.buffer = String::new();
            },
            KeyName::Char('/') => {
                self.mode = Mode::Filtering;
            },
            _ => {},
        }
    }

    fn browse(&mut self, k: &KeyInput, visible: &Vec<String>, km: &Keymap) -> (e: Effect)
        requires
            old(self).selected == clamped(old(self).selected as int, visible@.len() as int),
        ensures
            (final(self)@, e@) == browse_spec(old(self)@, *k, views(visible@), km@),
    {
        let chord_key = k.key == KeyName::Char('g');
        if !chord_key {
            self.pending_g = false;
        }
        match k.key {
            KeyName::Char(':') => {
                self.mode = Mode::EnteringExCommand;
                self.buffer = String::new();
                Effect::Idle
            },
            KeyName::Char('O') => {
                self.mode = Mode::PickingProject;
                self.pick_index = 0;
                Effect::RefreshProjects
            },
            KeyName::Char(']') => {
                self.cycle_project(true);
                Effect::Idle
            },
            KeyName::Char('[') => {
                self.cycle_project(false);
                Effect::Idle
            },
            KeyName::Char('P') => {
                self.mode = Mode::EnteringNewProjectTitle;
                self.buffer = String::new();
                Effect::Idle
            },
            _ => {
                let is_g = chord_key;
                let action = if is_g {
                    if self.pending_g {
                        Some(Action::GoTop)
                    } else {
                        None
                    }
                } else {
                    match key_token(k) {
                        Some(t) => km.lookup(t.as_str()),
                        None => None,
                    }
                };
                self.pending_g = is_g && !self.pending_g;
                match action {
                    Some(a) => self.dispatch(a, visible),
                    None => {
                        self.hotkey(k);
                        Effect::Idle
                    },
                }
            },
        }
    }

    fn filter_key(&mut self, k: &KeyInput)
        ensures
            final(self)@ == filter_spec(old(self)@, *k),
    {
        match k.key {
            KeyName::Esc | KeyName::Enter => {
                self.mode = Mode::Browsing;
            },
            _ => {
                self.filter = typed_string(&self.filter, k);
            },
        }
    }

    fn edit_key(&mut self, f: Field, k: &KeyInput, visible: &Vec<String>) -> (e: Effect)
        ensures
            (final(self)@, e@) == edit_spec(old(self)@, f, *k, views(visible@)),
    {
        match k.key {
            KeyName::Esc => {
                self.mode = Mode::Browsing;
                self.buffer = String::new();
                Effect::Idle
            },
            KeyName::Enter => {
                let e = if self.selected < visible.len() {
                    let id = visible[self.selected].clone();
                    let text = self.buffer.clone();
                    match f {
                        Field::Due => Effect::SetDue { id, text },
                        Field::Title => Effect::RenameTitle { id, text },
                        Field::Tags => Effect::SetTags { id, text },
                    }
                } else {
                    Effect::Idle
                };
                self.mode = Mode::Browsing;
                self.buffer = String::new();
                e
            },
            _ => {
                self.buffer = typed_string(&self.buffer, k);
                Effect::Idle
            },
        }
    }

    fn pick_key(&mut self, k: &KeyInput)
        ensures
            final(self)@ == pick_spec(old(self)@, *k),
    {
        let n = self.projects.len();
        match k.key {
            KeyName::Esc => {
                self.mode = Mode::Browsing;
            },
            KeyName::Enter => {
                if n == 0 {
                    self.current_project = None;
                    self.selected = 0;
                } else {
                    let i = if self.pick_index < n - 1 {
                        self.pick_index
                    } else {
                        n - 1
                    };
                    self.current_project = Some(self.projects[i].clone());
                    self.selected = 0;
                    self.pick_index = i;
                }
                self.mode = Mode::Browsing;
            },
            KeyName::Up => {
                if self.pick_index > 0 {
                    self.pick_index = self.pick_index - 1;
                }
            },
            KeyName::Down => {
                if self.pick_index < n && self.pick_index + 1 < n {
                    self.pick_index = self.pick_index + 1;
                }
            },
            _ => {},
        }
    }

    fn new_project_key(&mut self, k: &KeyInput) -> (e: Effect)
        ensures
            (final(self)@, e@) == new_project_spec(old(self)@, *k),
    {
        match k.key {
            KeyName::Esc => {
                self.mode = Mode::Browsing;
                self.buffer = String::new();
                Effect::Idle
            },
            KeyName::Enter => {
                let cs = chars_of(self.buffer.as_str());
                let t = trim_chars(cs.as_slice());
                let e = if t.len() > 0 {
                    let tags: Vec<String> = Vec::new();
                    assert(views(tags@) =~= Seq::<Seq<char>>::empty());
                    Effect::CreateProject(ProjectNew { title: string_of(t.as_slice()), tags })
                } else {
                    Effect::Idle
                };
                self.mode = Mode::Browsing;
                self.buffer = String::new();
                e
            },
            _ => {
                self.buffer = typed_string(&self.buffer, k);
                Effect::Idle
            },
        }
    }

    fn ex_run(&mut self, r: Result<ExCommand, ExError>, visible: &Vec<String>) -> (e: Effect)
        ensures
            (final(self)@, e@) == ex_run_spec(old(self)@, result_view(r), views(visible@)),
    {
        match r {
            Err(err) => {
                self.message = Some(Message { is_error: true, text: err.message() });
                Effect::Idle
            },
            Ok(ExCommand::ConfigReload) => Effect::ReloadConfig,
            Ok(ExCommand::New { title, project, tags, due }) => {
                let project = match project {
                    Some(p) => p,
                    None => "inbox".to_owned(),
                };
                Effect::CreateTask(TaskNew { title, project, due, tags })
            },
            Ok(ExCommand::Status { id, set }) => {
                let target = match id {
                    Some(i) => Some(i),
                    None => if self.selected < visible.len() {
                        Some(visible[self.selected].clone())
                    } else {
                        None
                    },
                };
                match target {
                    None => {
                        self.message = Some(
                            Message { is_error: true, text: "no task selected".to_owned() },
                        );
                        Effect::Idle
                    },
                    Some(t) => match set {
                        StatusSet::Todo => Effect::SetStatus {
                            id: t,
                            status: Status::Todo,
                            from_ex: true,
                        },
                        StatusSet::Doing => Effect::SetStatus {
                            id: t,
                            status: Status::Doing,
                            from_ex: true,
                        },
                        StatusSet::Done => Effect::SetStatus {
                            id: t,
                            status: Status::Done,
                            from_ex: true,
                        },
                        StatusSet::Next => Effect::CycleStatus { id: t, direction: 1 },
                        StatusSet::Prev => Effect::CycleStatus { id: t, direction: -1 },
                    },
                }
            },
            Ok(ExCommand::OpenProject { key }) => {
                if key.as_str().is_empty() {
                    self.current_project = None;
                    self.message = Some(
                        Message { is_error: false, text: "opened all projects".to_owned() },
                    );
                } else {
                    let text = concat("opened project ", key.as_str());
                    self.current_project = Some(key);
                    self.selected = 0;
                    self.message = Some(Message { is_error: false, text });
                }
                Effect::Idle
            },
            Ok(ExCommand::ProjectNew { title, tags }) => Effect::CreateProject(
                ProjectNew { title, tags },
            ),
        }
    }

    fn ex_key(&mut self, k: &KeyInput, visible: &Vec<String>) -> (e: Effect)
        ensures
            (final(self)@, e@) == ex_spec(old(self)@, *k, views(visible@)),
    {
        match k.key {
            KeyName::Esc => {
                self.mode = Mode::Browsing;
                self.buffer = String::new();
                Effect::Idle
            },
            KeyName::Enter => {
                let cs = chars_of(self.buffer.as_str());
                let t = trim_chars(cs.as_slice());
                let l = strip_leading(t.as_slice(), ':');
                let line = string_of(l.as_slice());
                self.mode = Mode::Browsing;
                self.buffer = String::new();
                let r = parse_ex(line.as_str());
                self.ex_run(r, visible)
            },
            _ => {
                self.buffer = typed_string(&self.buffer, k);
                Effect::Idle
            },
        }
    }

    /// Handles one key press. `visible` holds the ids of the visible tasks in
    /// display order; the returned effect is the store work the caller is to
    /// do, reporting back through the methods below.
    pub fn step(&mut self, k: &KeyInput, visible: &Vec<String>, km: &Keymap) -> (e: Effect)
        ensures
            (final(self)@, e@) == step_spec(old(self)@, *k, views(visible@), km@),
    {
        self.selected = clamp_selection(self.selected, visible.len());
        match self.mode {
            Mode::EnteringExCommand => self.ex_key(k, visible),
            Mode::Filtering => {
                self.filter_key(k);
                Effect::Idle
            },
            Mode::EditingField(f) => self.edit_key(f, k, visible),
            Mode::PickingProject => {
                self.pick_key(k);
                Effect::Idle
            },
            Mode::EnteringNewProjectTitle => self.new_project_key(k),
            Mode::Browsing => self.browse(k, visible, km),
        }
    }

    /// Shows a failure of the store work last asked for.
    pub fn failed(&mut self, text: String)
        ensures
            final(self)@ == (SessionView { message: Some((true, text@)), ..old(self)@ }),
    {
        self.message = Some(Message { is_error: true, text });
    }

    /// Shows a status change: `status set: <name>` for a status set by an
    /// ex-command, `status -> <name>` otherwise.
    pub fn status_changed(&mut self, status: Status, from_ex: bool)
        ensures
            final(self)@ == (SessionView {
                message: Some(
                    (
                        false,
                        if from_ex {
                            "status set: "@
                        } else {
                            "status -> "@
                        } + status_name(status),
                    ),
                ),
                ..old(self)@
            }),
    {
        let head = if from_ex {
            "status set: "
        } else {
            "status -> "
        };
        let text = concat(head, status.as_str());
        self.message = Some(Message { is_error: false, text });
    }

    /// Shows that a field edit was saved.
    pub fn saved(&mut self)
        ensures
            final(self)@ == (SessionView { message: Some((false, "saved"@)), ..old(self)@ }),
    {
        self.message = Some(Message { is_error: false, text: "saved".to_owned() });
    }

    /// Shows that a task was created.
    pub fn task_created(&mut self, id: &str, project: &str)
        ensures
            final(self)@ == (SessionView {
                message: Some((false, "created task "@ + id@ + " in project "@ + project@)),
                ..old(self)@
            }),
    {
        let t = concat("created task ", id);
        let t = concat(t.as_str(), " in project ");
        let t = concat(t.as_str(), project);
        self.message = Some(Message { is_error: false, text: t });
    }

    /// Shows that a project was created, takes the refreshed project keys and
    /// narrows the listing to the new project.
    pub fn project_created(&mut self, key: String, project_keys: Vec<String>)
        ensures
            final(self).mode == old(self).mode,
            final(self).buffer == old(self).buffer,
            final(self).filter == old(self).filter,
            final(self).pick_index == old(self).pick_index,
            final(self).pending_g == old(self).pending_g,
            final(self).selected == 0,
            final(self).current_project == Some(key),
            final(self).projects@.to_multiset() == project_keys@.to_multiset(),
            sorted_by_rank(final(self).projects@),
            message_view(final(self).message) == Some((false, "created project "@ + key@)),
    {
        let text = concat("created project ", key.as_str());
        self.projects = sort_ranked(project_keys);
        self.current_project = Some(key);
        self.selected = 0;
        self.message = Some(Message { is_error: false, text });
    }

    /// Takes the refreshed project keys.
    pub fn projects_listed(&mut self, project_keys: Vec<String>)
        ensures
            final(self).mode == old(self).mode,
            final(self).buffer == old(self).buffer,
            final(self).filter == old(self).filter,
            final(self).selected == old(self).selected,
            final(self).current_project == old(self).current_project,
            final(self).pick_index == old(self).pick_index,
            final(self).message == old(self).message,
            final(self).pending_g == old(self).pending_g,
            final(self).projects@.to_multiset() == project_keys@.to_multiset(),
            sorted_by_rank(final(self).projects@),
    {
        self.projects = sort_ranked(project_keys);
    }

    /// Shows that the configuration was reloaded.
    pub fn config_reloaded(&mut self)
        ensures
            final(self)@ == (SessionView {
                message: Some((false, "config reloaded"@)),
                ..old(self)@
            }),
    {
        self.message = Some(Message { is_error: false, text: "config reloaded".to_owned() });
    }
}

} // verus!
