//! The record store's decisions: where records live, how a new record is
//! made, and how each single-field change rewrites one.

use vstd::prelude::*;

use crate::outside::{calendar_date, format_rfc3339, fresh_ulid, slug_of, slugify};
use crate::record::{Frontmatter, ProjectFrontmatter, ProjectNew, TaskNew};
use crate::status::{status_name, status_of_name, status_stepped, Status};
use crate::text::{
    chars_of, concat, padded_number, strip_leading, without_leading, signed_padded, string_of, trim_chars,
    trimmed, views, zero_padded,
};

verus! {

/// A calendar date as the clock reports it.
#[derive(Clone, Copy, Debug, PartialEq, Eq, Structural)]
pub struct CalendarDate {
    pub year: i32,
    pub month: u8,
    pub day: u8,
}

impl CalendarDate {
    pub open spec fn valid(&self) -> bool {
        1 <= self.month <= 12 && 1 <= self.day <= 31
    }
}

/// A moment as records store it: its date, and its RFC 3339 text.
#[derive(Clone, Debug)]
pub struct Stamp {
    pub date: CalendarDate,
    pub text: String,
}

/// Why the store could not make a record.
#[derive(Clone, Copy, Debug, PartialEq, Eq, Structural)]
pub enum StoreError {
    /// A task needs a non-empty title.
    EmptyTitle,
    /// The clock gave a time that RFC 3339 cannot write.
    Clock,
}

/// The current time, read from the clock.
pub fn now_stamp() -> (r: Result<Stamp, StoreError>)
    ensures
        r matches Ok(s) ==> s.date.valid(),
        r matches Err(e) ==> e == StoreError::Clock,
{
    let t = time::OffsetDateTime::now_utc();
    let (year, month, day) = calendar_date(t);
    match format_rfc3339(t) {
        Some(text) => Ok(Stamp { date: CalendarDate { year, month, day }, text }),
        None => Err(StoreError::Clock),
    }
}

/// The file name of a task: `YYYY-MM-DD--<slug>--<id>.md`.
pub open spec fn task_file_name(d: CalendarDate, slug: Seq<char>, id: Seq<char>) -> Seq<char> {
    signed_padded(d.year as int, 4) + "-"@ + zero_padded(d.month as nat, 2) + "-"@ + zero_padded(
        d.day as nat,
        2,
    ) + "--"@ + slug + "--"@ + id + ".md"@
}

/// Where a task file lives under the vault, one path segment per entry:
/// `tasks/YYYY/MM/YYYY-MM-DD--<slug>--<id>.md`.
pub open spec fn task_path_spec(d: CalendarDate, slug: Seq<char>, id: Seq<char>) -> Seq<
    Seq<char>,
> {
    seq![
        "tasks"@,
        signed_padded(d.year as int, 4),
        zero_padded(d.month as nat, 2),
        task_file_name(d, slug, id),
    ]
}

/// The path segments of a task file under the vault.
pub fn task_path(d: CalendarDate, slug: &str, id: &str) -> (r: Vec<String>)
    ensures
        views(r@) == task_path_spec(d, slug@, id@),
{
    let y = padded_number(d.year as i64, 4);
    let m = padded_number(d.month as i64, 2);
    let dd = padded_number(d.day as i64, 2);
    let name = concat(y.as_str(), "-");
    let name = concat(name.as_str(), m.as_str());
    let name = concat(name.as_str(), "-");
    let name = concat(name.as_str(), dd.as_str());
    let name = concat(name.as_str(), "--");
    let name = concat(name.as_str(), slug);
    let name = concat(name.as_str(), "--");
    let name = concat(name.as_str(), id);
    let name = concat(name.as_str(), ".md");
    let r = vec!["tasks".to_owned(), y, m, name];
    assert(views(r@) =~= task_path_spec(d, slug@, id@));
    r
}

/// The path segments of a project file under the vault: `projects/<key>.md`.
pub fn project_path(key: &str) -> (r: Vec<String>)
    ensures
        views(r@) == seq!["projects"@, key@ + ".md"@],
{
    let r = vec!["projects".to_owned(), concat(key, ".md")];
    assert(views(r@) =~= seq!["projects"@, key@ + ".md"@]);
    r
}

/// `tags` with the piece `p` added: trimmed, skipped when empty, and
/// without its leading `+` signs.
pub open spec fn add_piece(tags: Seq<Seq<char>>, p: Seq<char>) -> Seq<Seq<char>> {
    let t = trimmed(p);
    if t.len() > 0 {
        tags.push(without_leading(t, '+'))
    } else {
        tags
    }
}

/// The tags finished and the piece being read after a prefix of a tag list.
pub open spec fn csv_scan(s: Seq<char>) -> (Seq<Seq<char>>, Seq<char>)
    decreases s.len(),
{
    if s.len() == 0 {
        (Seq::empty(), Seq::empty())
    } else {
        let (tags, cur) = csv_scan(s.drop_last());
        let c = s.last();
        if c == ',' || c == ' ' {
            (add_piece(tags, cur), Seq::empty())
        } else {
            (tags, cur.push(c))
        }
    }
}

/// The tags of a list separated by commas or spaces.
pub open spec fn csv_tags(s: Seq<char>) -> Seq<Seq<char>> {
    let (tags, cur) = csv_scan(s);
    add_piece(tags, cur)
}

fn push_piece(tags: &mut Vec<String>, piece: &[char])
    ensures
        views(final(tags)@) == add_piece(views(old(tags)@), piece@),
{
    let t = trim_chars(piece);
    if t.len() > 0 {
        let w = strip_leading(t.as_slice(), '+');
        let s = string_of(w.as_slice());
        let ghost before = tags@;
        tags.push(s);
        assert(views(tags@) =~= views(before).push(s@));
    }
}

/// Reads a tag list such as `work, +home urgent`: pieces separated by commas
/// or spaces, trimmed, empty ones skipped, leading `+` signs removed.
pub fn tags_from_csv(csv: &str) -> (r: Vec<String>)
    ensures
        views(r@) == csv_tags(csv@),
{
    let cs = chars_of(csv);
    let mut tags: Vec<String> = Vec::new();
    let mut cur: Vec<char> = Vec::new();
    let mut i: usize = 0;
    assert(views(tags@) =~= Seq::<Seq<char>>::empty());
    assert(cs@.subrange(0, 0) =~= Seq::<char>::empty());
    while i < cs.len()
        invariant
            i <= cs@.len(),
            cs@ == csv@,
            csv_scan(cs@.subrange(0, i as int)) == (views(tags@), cur@),
        decreases cs@.len() - i,
    {
        assert(cs@.subrange(0, i + 1).drop_last() =~= cs@.subrange(0, i as int));
        let c = cs[i];
        if c == ',' || c == ' ' {
            push_piece(&mut tags, cur.as_slice());
            cur = Vec::new();
            assert(cur@ =~= Seq::<char>::empty());
        } else {
            cur.push(c);
        }
        i = i + 1;
    }
    assert(cs@.subrange(0, cs@.len() as int) =~= cs@);
    push_piece(&mut tags, cur.as_slice());
    tags
}

/// Two dashes start at `i`.
pub open spec fn dashes_at(s: Seq<char>, i: int) -> bool {
    0 <= i && i + 2 <= s.len() && s[i] == '-' && s[i + 1] == '-'
}

/// The first pair of dashes at or after `i`.
pub open spec fn first_dashes(s: Seq<char>, i: int) -> Option<int>
    decreases s.len() - i,
{
    if i < 0 || i + 2 > s.len() {
        None
    } else if dashes_at(s, i) {
        Some(i)
    } else {
        first_dashes(s, i + 1)
    }
}

/// The new file name of a renamed task, from the stem of its old one: when
/// the stem has at least three parts separated by `--`, the first (the date)
/// is kept and the slug and id are set anew; otherwise there is none.
pub open spec fn renamed_file_spec(stem: Seq<char>, slug: Seq<char>, id: Seq<char>) -> Option<
    Seq<char>,
> {
    match first_dashes(stem, 0) {
        Some(a) => match first_dashes(stem, a + 2) {
            Some(_) => Some(stem.subrange(0, a) + "--"@ + slug + "--"@ + id + ".md"@),
            None => None,
        },
        None => None,
    }
}

fn find_dashes(s: &[char], from: usize) -> (r: Option<usize>)
    requires
        from <= s@.len(),
    ensures
        r matches Some(k) ==> first_dashes(s@, from as int) == Some(k as int) && k + 2
            <= s@.len() <= usize::MAX,
        r is None ==> first_dashes(s@, from as int) is None,
{
    let n = s.len();
    let mut k = from;
    while n - k >= 2 && !(s[k] == '-' && s[k + 1] == '-')
        invariant
            n == s@.len(),
            from <= k <= n,
            first_dashes(s@, from as int) == first_dashes(s@, k as int),
        decreases n - k,
    {
        k = k + 1;
    }
    if n - k >= 2 {
        Some(k)
    } else {
        None
    }
}

/// The file name a task gets when renamed (see `renamed_file_spec`).
pub fn renamed_file_name(stem: &str, slug: &str, id: &str) -> (r: Option<String>)
    ensures
        r matches Some(x) ==> renamed_file_spec(stem@, slug@, id@) == Some(x@),
        r is None ==> renamed_file_spec(stem@, slug@, id@) is None,
{
    let cs = chars_of(stem);
    match find_dashes(cs.as_slice(), 0) {
        Some(a) => match find_dashes(cs.as_slice(), a + 2) {
            Some(_) => {
                let mut date: Vec<char> = Vec::new();
                let mut i: usize = 0;
                while i < a
                    invariant
                        i <= a,
                        a + 2 <= cs@.len(),
                        date@ == cs@.subrange(0, i as int),
                    decreases a - i,
                {
                    date.push(cs[i]);
                    i = i + 1;
                    assert(date@ =~= cs@.subrange(0, i as int));
                }
                let d = string_of(date.as_slice());
                let name = concat(d.as_str(), "--");
                let name = concat(name.as_str(), slug);
                let name = concat(name.as_str(), "--");
                let name = concat(name.as_str(), id);
                Some(concat(name.as_str(), ".md"))
            },
            None => None,
        },
        None => None,
    }
}

/// The fields that no single-field change touches.
pub open spec fn keeps_identity(a: Frontmatter, b: Frontmatter) -> bool {
    a.id == b.id && a.project == b.project && a.priority == b.priority && a.created == b.created
        && a.parent == b.parent
}

impl Frontmatter {
    /// Sets the status and refreshes the update time.
    pub fn set_status(&mut self, status: Status, now: &Stamp)
        ensures
            final(self).status@ == status_name(status),
            final(self).updated == Some(now.text),
            keeps_identity(*final(self), *old(self)),
            final(self).key == old(self).key,
            final(self).title == old(self).title,
            final(self).tags == old(self).tags,
            final(self).due == old(self).due,
    {
        self.status = status.as_str().to_owned();
        self.updated = Some(now.text.clone());
    }

    /// Moves the status one step forward (`direction >= 0`) or back, reading
    /// an unknown stored status as todo, and refreshes the update time.
    pub fn cycle_status(&mut self, direction: i8, now: &Stamp) -> (r: Status)
        ensures
            r == status_stepped(status_of_name(old(self).status@), direction as int),
            final(self).status@ == status_name(r),
            final(self).updated == Some(now.text),
            keeps_identity(*final(self), *old(self)),
            final(self).key == old(self).key,
            final(self).title == old(self).title,
            final(self).tags == old(self).tags,
            final(self).due == old(self).due,
    {
        let cur = Status::from_str(self.status.as_str());
        let next = cur.stepped(direction);
        self.set_status(next, now);
        next
    }

    /// Sets the due date (any text) and refreshes the update time.
    pub fn set_due(&mut self, due: &str, now: &Stamp)
        ensures
            final(self).due matches Some(d) && d@ == due@,
            final(self).updated == Some(now.text),
            keeps_identity(*final(self), *old(self)),
            final(self).key == old(self).key,
            final(self).title == old(self).title,
            final(self).status == old(self).status,
            final(self).tags == old(self).tags,
    {
        self.due = Some(due.to_owned());
        self.updated = Some(now.text.clone());
    }

    /// Replaces the tags with those of a list separated by commas or spaces
    /// (see `tags_from_csv`) and refreshes the update time.
    pub fn set_tags_csv(&mut self, csv: &str, now: &Stamp)
        ensures
            views(final(self).tags@) == csv_tags(csv@),
            final(self).updated == Some(now.text),
            keeps_identity(*final(self), *old(self)),
            final(self).key == old(self).key,
            final(self).title == old(self).title,
            final(self).status == old(self).status,
            final(self).due == old(self).due,
    {
        self.tags = tags_from_csv(csv);
        self.updated = Some(now.text.clone());
    }

    /// Sets the title and the slug made from it, and refreshes the update time.
    pub fn rename(&mut self, title: &str, now: &Stamp)
        ensures
            final(self).title@ == title@,
            final(self).key@ == slug_of(title@),
            final(self).updated == Some(now.text),
            keeps_identity(*final(self), *old(self)),
            final(self).status == old(self).status,
            final(self).tags == old(self).tags,
            final(self).due == old(self).due,
    {
        self.key = slugify(title);
        self.title = title.to_owned();
        self.updated = Some(now.text.clone());
    }
}

/// A task about to be written: its id, the path segments of its file under
/// the vault, and its metadata.
#[derive(Clone, Debug)]
pub struct TaskPlan {
    pub id: String,
    pub path: Vec<String>,
    pub record: Frontmatter,
}

/// The record of a new task with the given id, slug and time. Fails when the
/// title is empty.
pub fn plan_task(t: &TaskNew, id: &str, slug: &str, now: &Stamp) -> (r: Result<
    TaskPlan,
    StoreError,
>)
    ensures
        r is Err <==> t.title@.len() == 0,
        r matches Err(e) ==> e == StoreError::EmptyTitle,
        r matches Ok(p) ==> {
            &&& p.id@ == id@
            &&& views(p.path@) == task_path_spec(now.date, slug@, id@)
            &&& p.record.id@ == id@
            &&& p.record.key@ == slug@
            &&& p.record.title == t.title
            &&& p.record.status@ == "todo"@
            &&& status_of_name(p.record.status@) == Status::Todo
            &&& p.record.project == t.project
            &&& p.record.tags@ == t.tags@
            &&& p.record.priority@ == "none"@
            &&& p.record.due == t.due
            &&& p.record.created == Some(now.text)
            &&& p.record.updated == Some(now.text)
            &&& p.record.parent is None
        },
{
    if t.title.as_str().is_empty() {
        return Err(StoreError::EmptyTitle);
    }
    proof {
        crate::status::lemma_status_name_round_trip(Status::Todo);
    }
    let record = Frontmatter {
        id: id.to_owned(),
        key: slug.to_owned(),
        title: t.title.clone(),
        status: Status::Todo.as_str().to_owned(),
        project: t.project.clone(),
        tags: t.tags.clone(),
        priority: "none".to_owned(),
        due: t.due.clone(),
        created: Some(now.text.clone()),
        updated: Some(now.text.clone()),
        parent: None,
    };
    Ok(TaskPlan { id: id.to_owned(), path: task_path(now.date, slug, id), record })
}

/// A new task: a fresh id, the current time and the slug of its title, laid
/// out by `plan_task`. Fails when the title is empty or the clock cannot be
/// written.
pub fn new_task(t: &TaskNew) -> (r: Result<TaskPlan, StoreError>)
    ensures
        t.title@.len() == 0 ==> r == Err::<TaskPlan, StoreError>(StoreError::EmptyTitle),
        r matches Err(StoreError::EmptyTitle) ==> t.title@.len() == 0,
        r matches Err(e) ==> e == StoreError::EmptyTitle || e == StoreError::Clock,
        r matches Ok(p) ==> {
            &&& p.id@.len() == 26
            &&& p.record.id@ == p.id@
            &&& p.record.key@ == slug_of(t.title@)
            &&& p.record.title == t.title
            &&& p.record.status@ == "todo"@
            &&& status_of_name(p.record.status@) == Status::Todo
            &&& p.record.project == t.project
            &&& p.record.tags@ == t.tags@
            &&& p.record.priority@ == "none"@
            &&& p.record.due == t.due
            &&& p.record.parent is None
            &&& p.record.created is Some
            &&& p.record.created == p.record.updated
            &&& exists|d: CalendarDate|
                d.valid() && views(p.path@) == task_path_spec(d, slug_of(t.title@), p.id@)
        },
{
    if t.title.as_str().is_empty() {
        return Err(StoreError::EmptyTitle);
    }
    let now = match now_stamp() {
        Ok(s) => s,
        Err(e) => return Err(e),
    };
    let id = fresh_ulid();
    let slug = slugify(t.title.as_str());
    let r = plan_task(t, id.as_str(), slug.as_str(), &now);
    assert(r matches Ok(p) ==> views(p.path@) == task_path_spec(now.date, slug_of(t.title@), p.id@));
    r
}

/// A project about to be written: its key, the path segments of its file
/// under the vault, and its metadata.
#[derive(Clone, Debug)]
pub struct ProjectPlan {
    pub key: String,
    pub path: Vec<String>,
    pub record: ProjectFrontmatter,
}

/// The record of a new, active project under the given key and time.
pub fn plan_project(p: &ProjectNew, key: &str, now: &Stamp) -> (r: ProjectPlan)
    ensures
        r.key@ == key@,
        views(r.path@) == seq!["projects"@, key@ + ".md"@],
        r.record.key@ == key@,
        r.record.title == p.title,
        r.record.status@ == "active"@,
        r.record.tags@ == p.tags@,
        r.record.created == Some(now.text),
        r.record.updated == Some(now.text),
        r.record.description is None,
{
    let record = ProjectFrontmatter {
        key: key.to_owned(),
        title: p.title.clone(),
        status: "active".to_owned(),
        tags: p.tags.clone(),
        created: Some(now.text.clone()),
        updated: Some(now.text.clone()),
        description: None,
    };
    ProjectPlan { key: key.to_owned(), path: project_path(key), record }
}

/// A new project keyed by the slug of its title, at the current time. A
/// project with the same slug is not looked for: writing the plan replaces it.
pub fn new_project(p: &ProjectNew) -> (r: Result<ProjectPlan, StoreError>)
    ensures
        r matches Err(e) ==> e == StoreError::Clock,
        r matches Ok(pl) ==> {
            &&& pl.key@ == slug_of(p.title@)
            &&& views(pl.path@) == seq!["projects"@, slug_of(p.title@) + ".md"@]
            &&& pl.record.key@ == slug_of(p.title@)
            &&& pl.record.title == p.title
            &&& pl.record.status@ == "active"@
            &&& pl.record.tags@ == p.tags@
            &&& pl.record.created is Some
            &&& pl.record.created == pl.record.updated
            &&& pl.record.description is None
        },
{
    let now = match now_stamp() {
        Ok(s) => s,
        Err(e) => return Err(e),
    };
    let key = slugify(p.title.as_str());
    Ok(plan_project(p, key.as_str(), &now))
}

} // verus!
