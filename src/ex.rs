//! The ex-command language: a quote-aware tokenizer and a parser from a
//! command line to a typed command.

use vstd::prelude::*;

use crate::text::{
    chars_of, concat, is_prefix, starts_with, str_eq, string_of, strip_prefix, stripped, trim_chars, trimmed,
    views,
};

verus! {

/// Where the tokenizer stands after a prefix of the line: the tokens it has
/// finished, the one it is building and whether it is inside quotes.
pub struct TokenScan {
    pub done: Seq<Seq<char>>,
    pub cur: Seq<char>,
    pub quoted: bool,
}

/// One character through the tokenizer: a double quote toggles quoting and is
/// dropped, an unquoted space ends the current token, anything else extends it.
pub open spec fn scan_step(st: TokenScan, c: char) -> TokenScan {
    if c == '"' {
        TokenScan { done: st.done, cur: st.cur, quoted: !st.quoted }
    } else if c == ' ' && !st.quoted {
        if st.cur.len() > 0 {
            TokenScan { done: st.done.push(st.cur), cur: Seq::empty(), quoted: false }
        } else {
            st
        }
    } else {
        TokenScan { done: st.done, cur: st.cur.push(c), quoted: st.quoted }
    }
}

/// The tokenizer's state after all of `s`.
pub open spec fn scan(s: Seq<char>) -> TokenScan
    decreases s.len(),
{
    if s.len() == 0 {
        TokenScan { done: Seq::empty(), cur: Seq::empty(), quoted: false }
    } else {
        scan_step(scan(s.drop_last()), s.last())
    }
}

/// The tokens of a line.
pub open spec fn tokens(s: Seq<char>) -> Seq<Seq<char>> {
    let st = scan(s);
    if st.cur.len() > 0 {
        st.done.push(st.cur)
    } else {
        st.done
    }
}

proof fn lemma_scan_tokens_nonempty(s: Seq<char>)
    ensures
        forall|i: int| 0 <= i < scan(s).done.len() ==> scan(s).done[i].len() > 0,
    decreases s.len(),
{
    if s.len() > 0 {
        let prev = scan(s.drop_last());
        lemma_scan_tokens_nonempty(s.drop_last());
        assert(scan(s) == scan_step(prev, s.last()));
        assert forall|i: int| 0 <= i < scan(s).done.len() implies scan(s).done[i].len() > 0 by {
            if i < prev.done.len() {
                assert(scan(s).done[i] == prev.done[i]);
            }
        }
    }
}

/// No token is empty.
pub proof fn lemma_tokens_nonempty(s: Seq<char>)
    ensures
        forall|i: int| 0 <= i < tokens(s).len() ==> tokens(s)[i].len() > 0,
{
    lemma_scan_tokens_nonempty(s);
}

/// Splits a line at unquoted spaces; double quotes group a span into one
/// token and are dropped.
pub fn tokenize(input: &str) -> (r: Vec<String>)
    ensures
        views(r@) == tokens(input@),
{
    let cs = chars_of(input);
    let mut out: Vec<String> = Vec::new();
    let mut cur: Vec<char> = Vec::new();
    let mut quoted = false;
    let mut i: usize = 0;
    assert(views(out@) =~= Seq::<Seq<char>>::empty());
    assert(cs@.subrange(0, 0) =~= Seq::<char>::empty());
    while i < cs.len()
        invariant
            i <= cs@.len(),
            cs@ == input@,
            scan(cs@.subrange(0, i as int)) == (TokenScan {
                done: views(out@),
                cur: cur@,
                quoted,
            }),
        decreases cs@.len() - i,
    {
        let c = cs[i];
        assert(cs@.subrange(0, i + 1).drop_last() =~= cs@.subrange(0, i as int));
        if c == '"' {
            quoted = !quoted;
        } else if c == ' ' && !quoted {
            if cur.len() > 0 {
                let t = string_of(cur.as_slice());
                let ghost old_out = out@;
                out.push(t);
                assert(views(out@) =~= views(old_out).push(cur@));
                cur = Vec::new();
                assert(cur@ =~= Seq::<char>::empty());
            }
        } else {
            cur.push(c);
        }
        i = i + 1;
    }
    assert(cs@.subrange(0, cs@.len() as int) =~= cs@);
    if cur.len() > 0 {
        let t = string_of(cur.as_slice());
        let ghost old_out = out@;
        out.push(t);
        assert(views(out@) =~= views(old_out).push(cur@));
    }
    out
}

/// Which status an ex-command asks for.
#[derive(Clone, Copy, Debug, PartialEq, Eq, Structural)]
pub enum StatusSet {
    Todo,
    Doing,
    Done,
    Next,
    Prev,
}

/// A parsed ex-command.
#[derive(Clone, Debug, PartialEq, Eq)]
pub enum ExCommand {
    /// `new "Title" project:<key> +tag due:<date>`
    New { title: String, project: Option<String>, tags: Vec<String>, due: Option<String> },
    /// `status [<id>] (todo|doing|done|next|prev)`; without an id the caller
    /// applies it to the selected task.
    Status { id: Option<String>, set: StatusSet },
    /// `open project:<key>`
    OpenProject { key: String },
    /// `project.new "Title" +tag`
    ProjectNew { title: String, tags: Vec<String> },
    /// `config.reload`
    ConfigReload,
}

/// Why an ex-command line was refused.
#[derive(Clone, Debug, PartialEq, Eq)]
pub enum ExError {
    /// Nothing but white space (or empty quotes) on the line.
    Empty,
    /// `new` without a title.
    NewWithoutTitle,
    /// `status` without arguments.
    StatusUsage,
    /// `status` with a word that is no status.
    UnknownStatus(String),
    /// `project.new` without a title.
    ProjectWithoutTitle,
    /// A first word that is no command.
    UnknownCommand(String),
}

/// A parsed command, with its strings as character sequences.
pub enum ExCommandView {
    New {
        title: Seq<char>,
        project: Option<Seq<char>>,
        tags: Seq<Seq<char>>,
        due: Option<Seq<char>>,
    },
    Status { id: Option<Seq<char>>, set: StatusSet },
    OpenProject { key: Seq<char> },
    ProjectNew { title: Seq<char>, tags: Seq<Seq<char>> },
    ConfigReload,
}

/// A parse error, with its strings as character sequences.
pub enum ExErrorView {
    Empty,
    NewWithoutTitle,
    StatusUsage,
    UnknownStatus(Seq<char>),
    ProjectWithoutTitle,
    UnknownCommand(Seq<char>),
}

pub open spec fn opt_view(o: Option<String>) -> Option<Seq<char>> {
    match o {
        Some(s) => Some(s@),
        None => None,
    }
}

impl View for ExCommand {
    type V = ExCommandView;

    open spec fn view(&self) -> ExCommandView {
        match self {
            ExCommand::New { title, project, tags, due } => ExCommandView::New {
                title: title@,
                project: opt_view(*project),
                tags: views(tags@),
                due: opt_view(*due),
            },
            ExCommand::Status { id, set } => ExCommandView::Status { id: opt_view(*id), set: *set },
            ExCommand::OpenProject { key } => ExCommandView::OpenProject { key: key@ },
            ExCommand::ProjectNew { title, tags } => ExCommandView::ProjectNew {
                title: title@,
                tags: views(tags@),
            },
            ExCommand::ConfigReload => ExCommandView::ConfigReload,
        }
    }
}

impl View for ExError {
    type V = ExErrorView;

    open spec fn view(&self) -> ExErrorView {
        match self {
            ExError::Empty => ExErrorView::Empty,
            ExError::NewWithoutTitle => ExErrorView::NewWithoutTitle,
            ExError::StatusUsage => ExErrorView::StatusUsage,
            ExError::UnknownStatus(s) => ExErrorView::UnknownStatus(s@),
            ExError::ProjectWithoutTitle => ExErrorView::ProjectWithoutTitle,
            ExError::UnknownCommand(s) => ExErrorView::UnknownCommand(s@),
        }
    }
}

/// The status word of a `status` command, with its synonyms.
pub open spec fn status_set_of(s: Seq<char>) -> Option<StatusSet> {
    if s == "todo"@ {
        Some(StatusSet::Todo)
    } else if s == "doing"@ || s == "in-progress"@ || s == "in_progress"@ {
        Some(StatusSet::Doing)
    } else if s == "done"@ {
        Some(StatusSet::Done)
    } else if s == "next"@ {
        Some(StatusSet::Next)
    } else if s == "prev"@ {
        Some(StatusSet::Prev)
    } else {
        None
    }
}

impl StatusSet {
    pub fn from_str(s: &str) -> (r: Result<StatusSet, ExError>)
        ensures
            r matches Ok(v) ==> status_set_of(s@) == Some(v),
            r matches Err(e) ==> status_set_of(s@) is None && e@ == ExErrorView::UnknownStatus(
                s@,
            ),
    {
        if str_eq(s, "todo") {
            Ok(StatusSet::Todo)
        } else if str_eq(s, "doing") || str_eq(s, "in-progress") || str_eq(s, "in_progress") {
            Ok(StatusSet::Doing)
        } else if str_eq(s, "done") {
            Ok(StatusSet::Done)
        } else if str_eq(s, "next") {
            Ok(StatusSet::Next)
        } else if str_eq(s, "prev") {
            Ok(StatusSet::Prev)
        } else {
            Err(ExError::UnknownStatus(s.to_owned()))
        }
    }
}

/// The fields of a `new` command as its arguments fill them in.
pub struct NewFields {
    pub title: Seq<char>,
    pub project: Option<Seq<char>>,
    pub tags: Seq<Seq<char>>,
    pub due: Option<Seq<char>>,
}

/// A token that sets a field of `new` rather than give its title.
pub open spec fn is_new_flag(t: Seq<char>) -> bool {
    is_prefix("project:"@, t) || is_prefix("+"@, t) || is_prefix("due:"@, t)
}

/// One argument of `new`: `project:` and `due:` set their field (the last
/// one wins), `+tag` adds a tag unless empty, and any other token becomes
/// the title while there is none.
pub open spec fn new_step(a: NewFields, t: Seq<char>) -> NewFields {
    if let Some(r) = stripped(t, "project:"@) {
        NewFields { title: a.title, project: Some(r), tags: a.tags, due: a.due }
    } else if let Some(r) = stripped(t, "due:"@) {
        NewFields { title: a.title, project: a.project, tags: a.tags, due: Some(r) }
    } else if let Some(r) = stripped(t, "+"@) {
        if r.len() > 0 {
            NewFields { title: a.title, project: a.project, tags: a.tags.push(r), due: a.due }
        } else {
            a
        }
    } else if a.title.len() == 0 {
        NewFields { title: t, project: a.project, tags: a.tags, due: a.due }
    } else {
        a
    }
}

pub open spec fn new_fold(ts: Seq<Seq<char>>, init: NewFields) -> NewFields
    decreases ts.len(),
{
    if ts.len() == 0 {
        init
    } else {
        new_step(new_fold(ts.drop_last(), init), ts.last())
    }
}

/// The arguments of `new`: a leading non-flag token is the title.
pub open spec fn parse_new_spec(args: Seq<Seq<char>>) -> Result<ExCommandView, ExErrorView> {
    let lead = args.len() > 0 && !is_new_flag(args[0]);
    let init = NewFields {
        title: if lead {
            args[0]
        } else {
            Seq::empty()
        },
        project: None,
        tags: Seq::empty(),
        due: None,
    };
    let f = new_fold(
        if lead {
            args.drop_first()
        } else {
            args
        },
        init,
    );
    if f.title.len() == 0 {
        Err(ExErrorView::NewWithoutTitle)
    } else {
        Ok(ExCommandView::New { title: f.title, project: f.project, tags: f.tags, due: f.due })
    }
}

/// The arguments of `status`: a status word alone, or an id then a status word.
pub open spec fn parse_status_spec(args: Seq<Seq<char>>) -> Result<ExCommandView, ExErrorView> {
    if args.len() == 0 {
        Err(ExErrorView::StatusUsage)
    } else {
        let (id, word) = if args.len() == 1 {
            (None, args[0])
        } else {
            (Some(args[0]), args[1])
        };
        match status_set_of(word) {
            Some(set) => Ok(ExCommandView::Status { id, set }),
            None => Err(ExErrorView::UnknownStatus(word)),
        }
    }
}

/// The key of the last `project:` argument of `open`.
pub open spec fn open_key_spec(args: Seq<Seq<char>>) -> Option<Seq<char>>
    decreases args.len(),
{
    if args.len() == 0 {
        None
    } else if let Some(k) = stripped(args.last(), "project:"@) {
        Some(k)
    } else {
        open_key_spec(args.drop_last())
    }
}

/// The title and tags of `project.new` as its arguments fill them in.
pub open spec fn project_step(a: (Seq<char>, Seq<Seq<char>>), t: Seq<char>) -> (
    Seq<char>,
    Seq<Seq<char>>,
) {
    if let Some(r) = stripped(t, "+"@) {
        if r.len() > 0 {
            (a.0, a.1.push(r))
        } else {
            a
        }
    } else if a.0.len() == 0 {
        (t, a.1)
    } else {
        a
    }
}

pub open spec fn project_fold(ts: Seq<Seq<char>>, init: (Seq<char>, Seq<Seq<char>>)) -> (
    Seq<char>,
    Seq<Seq<char>>,
)
    decreases ts.len(),
{
    if ts.len() == 0 {
        init
    } else {
        project_step(project_fold(ts.drop_last(), init), ts.last())
    }
}

/// The arguments of `project.new`: a leading token that is no tag is the title.
pub open spec fn parse_project_new_spec(args: Seq<Seq<char>>) -> Result<
    ExCommandView,
    ExErrorView,
> {
    let lead = args.len() > 0 && !is_prefix("+"@, args[0]);
    let f = project_fold(
        if lead {
            args.drop_first()
        } else {
            args
        },
        (
            if lead {
                args[0]
            } else {
                Seq::empty()
            },
            Seq::empty(),
        ),
    );
    if f.0.len() == 0 {
        Err(ExErrorView::ProjectWithoutTitle)
    } else {
        Ok(ExCommandView::ProjectNew { title: f.0, tags: f.1 })
    }
}

/// What a command line (without its leading colon) parses to.
pub open spec fn parse_ex_spec(line: Seq<char>) -> Result<ExCommandView, ExErrorView> {
    let l = trimmed(line);
    if l.len() == 0 {
        Err(ExErrorView::Empty)
    } else if l == "config.reload"@ {
        Ok(ExCommandView::ConfigReload)
    } else {
        let toks = tokens(l);
        if toks.len() == 0 {
            Err(ExErrorView::Empty)
        } else {
            let cmd = toks[0];
            let args = toks.drop_first();
            if cmd == "new"@ {
                parse_new_spec(args)
            } else if cmd == "status"@ {
                parse_status_spec(args)
            } else if cmd == "open"@ {
                Ok(
                    ExCommandView::OpenProject {
                        key: match open_key_spec(args) {
                            Some(k) => k,
                            None => Seq::empty(),
                        },
                    },
                )
            } else if cmd == "project.new"@ {
                parse_project_new_spec(args)
            } else {
                Err(ExErrorView::UnknownCommand(cmd))
            }
        }
    }
}

pub open spec fn result_view(r: Result<ExCommand, ExError>) -> Result<ExCommandView, ExErrorView> {
    match r {
        Ok(c) => Ok(c@),
        Err(e) => Err(e@),
    }
}

fn parse_new(args: &Vec<String>) -> (r: Result<ExCommand, ExError>)
    ensures
        result_view(r) == parse_new_spec(views(args@)),
{
    let ghost a = views(args@);
    let mut start: usize = 0;
    let mut title = String::new();
    if args.len() > 0 && !(starts_with(args[0].as_str(), "project:") || starts_with(
        args[0].as_str(),
        "+",
    ) || starts_with(args[0].as_str(), "due:")) {
        title = args[0].clone();
        start = 1;
    }
    let mut project: Option<String> = None;
    let mut tags: Vec<String> = Vec::new();
    let mut due: Option<String> = None;
    let ghost init = NewFields { title: title@, project: None, tags: Seq::empty(), due: None };
    assert(views(tags@) =~= Seq::<Seq<char>>::empty());
    assert(a.subrange(start as int, start as int) =~= Seq::<Seq<char>>::empty());
    let mut i: usize = start;
    while i < args.len()
        invariant
            start <= i <= args@.len(),
            a == views(args@),
            new_fold(a.subrange(start as int, i as int), init) == (NewFields {
                title: title@,
                project: opt_view(project),
                tags: views(tags@),
                due: opt_view(due),
            }),
        decreases args@.len() - i,
    {
        let t = &args[i];
        assert(a.subrange(start as int, i + 1).drop_last() =~= a.subrange(start as int, i as int));
        assert(a[i as int] == t@);
        if let Some(r) = strip_prefix(t.as_str(), "project:") {
            project = Some(r);
        } else if let Some(r) = strip_prefix(t.as_str(), "due:") {
            due = Some(r);
        } else if let Some(r) = strip_prefix(t.as_str(), "+") {
            if !r.as_str().is_empty() {
                let ghost old_tags = tags@;
                tags.push(r);
                assert(views(tags@) =~= views(old_tags).push(r@));
            }
        } else if title.as_str().is_empty() {
            title = t.clone();
        }
        i = i + 1;
    }
    assert(a.subrange(start as int, args@.len() as int) =~= if start == 1 {
        a.drop_first()
    } else {
        a
    });
    if title.as_str().is_empty() {
        Err(ExError::NewWithoutTitle)
    } else {
        Ok(ExCommand::New { title, project, tags, due })
    }
}

fn parse_status(args: &Vec<String>) -> (r: Result<ExCommand, ExError>)
    ensures
        result_view(r) == parse_status_spec(views(args@)),
{
    if args.len() == 0 {
        return Err(ExError::StatusUsage);
    }
    let (id, word) = if args.len() == 1 {
        (None, &args[0])
    } else {
        (Some(args[0].clone()), &args[1])
    };
    match StatusSet::from_str(word.as_str()) {
        Ok(set) => Ok(ExCommand::Status { id, set }),
        Err(e) => Err(e),
    }
}

fn open_key(args: &Vec<String>) -> (r: String)
    ensures
        r@ == match open_key_spec(views(args@)) {
            Some(k) => k,
            None => Seq::empty(),
        },
{
    let ghost a = views(args@);
    let mut key: Option<String> = None;
    let mut i: usize = 0;
    while i < args.len()
        invariant
            i <= args@.len(),
            a == views(args@),
            opt_view(key) == open_key_spec(a.subrange(0, i as int)),
        decreases args@.len() - i,
    {
        assert(a.subrange(0, i + 1).drop_last() =~= a.subrange(0, i as int));
        if let Some(k) = strip_prefix(args[i].as_str(), "project:") {
            key = Some(k);
        }
        i = i + 1;
    }
    assert(a.subrange(0, args@.len() as int) =~= a);
    match key {
        Some(k) => k,
        None => String::new(),
    }
}

fn parse_project_new(args: &Vec<String>) -> (r: Result<ExCommand, ExError>)
    ensures
        result_view(r) == parse_project_new_spec(views(args@)),
{
    let ghost a = views(args@);
    let mut start: usize = 0;
    let mut title = String::new();
    if args.len() > 0 && !starts_with(args[0].as_str(), "+") {
        title = args[0].clone();
        start = 1;
    }
    let mut tags: Vec<String> = Vec::new();
    let ghost init = (title@, Seq::<Seq<char>>::empty());
    assert(views(tags@) =~= Seq::<Seq<char>>::empty());
    assert(a.subrange(start as int, start as int) =~= Seq::<Seq<char>>::empty());
    let mut i: usize = start;
    while i < args.len()
        invariant
            start <= i <= args@.len(),
            a == views(args@),
            project_fold(a.subrange(start as int, i as int), init) == (title@, views(tags@)),
        decreases args@.len() - i,
    {
        let t = &args[i];
        assert(a.subrange(start as int, i + 1).drop_last() =~= a.subrange(start as int, i as int));
        assert(a[i as int] == t@);
        if let Some(r) = strip_prefix(t.as_str(), "+") {
            if !r.as_str().is_empty() {
                let ghost old_tags = tags@;
                tags.push(r);
                assert(views(tags@) =~= views(old_tags).push(r@));
            }
        } else if title.as_str().is_empty() {
            title = t.clone();
        }
        i = i + 1;
    }
    assert(a.subrange(start as int, args@.len() as int) =~= if start == 1 {
        a.drop_first()
    } else {
        a
    });
    if title.as_str().is_empty() {
        Err(ExError::ProjectWithoutTitle)
    } else {
        Ok(ExCommand::ProjectNew { title, tags })
    }
}

/// Parses a command line, given without its leading colon.
pub fn parse_ex(line: &str) -> (r: Result<ExCommand, ExError>)
    ensures
        result_view(r) == parse_ex_spec(line@),
{
    let lc = chars_of(line);
    let tc = trim_chars(lc.as_slice());
    if tc.len() == 0 {
        return Err(ExError::Empty);
    }
    let l = string_of(tc.as_slice());
    if str_eq(l.as_str(), "config.reload") {
        return Ok(ExCommand::ConfigReload);
    }
    let toks = tokenize(l.as_str());
    if toks.len() == 0 {
        return Err(ExError::Empty);
    }
    let ghost tv = views(toks@);
    let mut args: Vec<String> = Vec::new();
    let mut i: usize = 1;
    assert(views(args@) =~= tv.subrange(1, 1));
    while i < toks.len()
        invariant
            1 <= i <= toks@.len(),
            tv == views(toks@),
            views(args@) == tv.subrange(1, i as int),
        decreases toks@.len() - i,
    {
        let ghost old_args = args@;
        let t = toks[i].clone();
        assert(t@ == tv[i as int]);
        args.push(t);
        assert(views(args@) =~= views(old_args).push(t@));
        assert(views(args@) =~= tv.subrange(1, i + 1));
        i = i + 1;
    }
    assert(views(args@) =~= tv.drop_first());
    let cmd = toks[0].as_str();
    if str_eq(cmd, "new") {
        parse_new(&args)
    } else if str_eq(cmd, "status") {
        parse_status(&args)
    } else if str_eq(cmd, "open") {
        Ok(ExCommand::OpenProject { key: open_key(&args) })
    } else if str_eq(cmd, "project.new") {
        parse_project_new(&args)
    } else {
        Err(ExError::UnknownCommand(cmd.to_owned()))
    }
}

/// The text shown for a parse error.
pub open spec fn error_message(e: ExErrorView) -> Seq<char> {
    match e {
        ExErrorView::Empty => "empty command"@,
        ExErrorView::NewWithoutTitle => ":new requires a title (quoted if it has spaces)"@,
        ExErrorView::StatusUsage => "usage: :status [<id>] (todo|doing|done|next|prev)"@,
        ExErrorView::UnknownStatus(s) => "unknown status '"@ + s + "'"@,
        ExErrorView::ProjectWithoutTitle => ":project.new requires a title"@,
        ExErrorView::UnknownCommand(c) => "unknown command '"@ + c + "'"@,
    }
}

impl ExError {
    /// The text shown to the user for this error.
    pub fn message(&self) -> (r: String)
        ensures
            r@ == error_message(self@),
    {
        match self {
            ExError::Empty => "empty command".to_owned(),
            ExError::NewWithoutTitle => ":new requires a title (quoted if it has spaces)".to_owned(),
            ExError::StatusUsage => "usage: :status [<id>] (todo|doing|done|next|prev)".to_owned(),
            ExError::UnknownStatus(s) => {
                let m = concat("unknown status '", s.as_str());
                concat(m.as_str(), "'")
            },
            ExError::ProjectWithoutTitle => ":project.new requires a title".to_owned(),
            ExError::UnknownCommand(c) => {
                let m = concat("unknown command '", c.as_str());
                concat(m.as_str(), "'")
            },
        }
    }
}

} // verus!
