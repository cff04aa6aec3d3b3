//! Task and project records: their fields, the frontmatter envelope they are
//! stored in, and how listings gather and order them.

use vstd::prelude::*;

use crate::sort::{sort_ranked, sorted_by_rank, Ranked};
use crate::text::{
    chars_from, chars_of, lemma_lex_antisymmetric, lemma_lex_total, lemma_lex_transitive, lex_le,
    str_eq, str_le, string_of,
};

verus! {

/// What the caller gives to create a task.
#[derive(Clone, Debug)]
pub struct TaskNew {
    pub title: String,
    pub project: String,
    pub due: Option<String>,
    pub tags: Vec<String>,
}

/// The metadata block of a task file.
#[derive(Clone, Debug)]
pub struct Frontmatter {
    pub id: String,
    pub key: String,
    pub title: String,
    pub status: String,
    pub project: String,
    pub tags: Vec<String>,
    pub priority: String,
    pub due: Option<String>,
    pub created: Option<String>,
    pub updated: Option<String>,
    pub parent: Option<String>,
}

/// A task as listings show it.
#[derive(Clone, Debug)]
pub struct Task {
    pub id: String,
    pub title: String,
    pub status: String,
    pub project: String,
    pub updated: String,
}

/// What the caller gives to create a project.
#[derive(Clone, Debug)]
pub struct ProjectNew {
    pub title: String,
    pub tags: Vec<String>,
}

/// The metadata block of a project file.
#[derive(Clone, Debug)]
pub struct ProjectFrontmatter {
    pub key: String,
    pub title: String,
    pub status: String,
    pub tags: Vec<String>,
    pub created: Option<String>,
    pub updated: Option<String>,
    pub description: Option<String>,
}

/// A project as listings show it.
#[derive(Clone, Debug)]
pub struct Project {
    pub key: String,
    pub title: String,
    pub status: String,
    pub tags: Vec<String>,
    pub updated: String,
}

/// The string in `o`, or the empty string.
pub open spec fn or_empty(o: Option<String>) -> Seq<char> {
    match o {
        Some(s) => s@,
        None => Seq::empty(),
    }
}

fn string_or_empty(o: &Option<String>) -> (r: String)
    ensures
        r@ == or_empty(*o),
{
    match o {
        Some(s) => s.clone(),
        None => String::new(),
    }
}

impl Task {
    /// The listing entry of a decoded task; a missing update time reads as empty.
    pub fn from_frontmatter(fm: &Frontmatter) -> (r: Task)
        ensures
            r.id == fm.id,
            r.title == fm.title,
            r.status == fm.status,
            r.project == fm.project,
            r.updated@ == or_empty(fm.updated),
    {
        Task {
            id: fm.id.clone(),
            title: fm.title.clone(),
            status: fm.status.clone(),
            project: fm.project.clone(),
            updated: string_or_empty(&fm.updated),
        }
    }
}

impl Project {
    /// The listing entry of a decoded project; a missing update time reads as empty.
    pub fn from_frontmatter(fm: &ProjectFrontmatter) -> (r: Project)
        ensures
            r.key == fm.key,
            r.title == fm.title,
            r.status == fm.status,
            r.tags@ == fm.tags@,
            r.updated@ == or_empty(fm.updated),
    {
        Project {
            key: fm.key.clone(),
            title: fm.title.clone(),
            status: fm.status.clone(),
            tags: fm.tags.clone(),
            updated: string_or_empty(&fm.updated),
        }
    }
}

/// The delimiter line that opens and closes the metadata block.
pub open spec fn open_delim() -> Seq<char> {
    seq!['-', '-', '-', '\n']
}

/// The block closes at `k`: a newline and three dashes start there.
pub open spec fn closes_at(s: Seq<char>, k: int) -> bool {
    0 <= k && k + 4 <= s.len() && s[k] == '\n' && s[k + 1] == '-' && s[k + 2] == '-' && s[k + 3]
        == '-'
}

/// The first place at or after `i` where the block closes.
pub open spec fn first_close(s: Seq<char>, i: int) -> Option<int>
    decreases s.len() - i,
{
    if i < 0 || i + 4 > s.len() {
        None
    } else if closes_at(s, i) {
        Some(i)
    } else {
        first_close(s, i + 1)
    }
}

/// A stored record split into its metadata text and its body: the text
/// opens with `---` and a newline; the metadata runs to the first newline
/// followed by `---`; one newline after that is dropped and the rest is the
/// body, kept as it is.
pub open spec fn split_spec(s: Seq<char>) -> Option<(Seq<char>, Seq<char>)> {
    if s.len() >= 4 && s.subrange(0, 4) == open_delim() {
        match first_close(s, 4) {
            Some(k) => {
                let after = k + 4;
                let body_from = if after < s.len() && s[after] == '\n' {
                    after + 1
                } else {
                    after
                };
                Some((s.subrange(4, k), s.subrange(body_from, s.len() as int)))
            },
            None => None,
        }
    } else {
        None
    }
}

/// A record as stored: the opening delimiter, the metadata text (which ends
/// in a newline), the closing delimiter, then the body.
pub open spec fn framed(meta: Seq<char>, body: Seq<char>) -> Seq<char> {
    open_delim() + meta + open_delim() + body
}

/// Splits a stored record into its metadata text and its body, or `None`
/// when it has no metadata block.
pub fn split_record(s: &str) -> (r: Option<(String, String)>)
    ensures
        r matches Some(p) ==> split_spec(s@) == Some((p.0@, p.1@)),
        r is None ==> split_spec(s@) is None,
{
    let cs = chars_of(s);
    let n = cs.len();
    if n < 4 || !(cs[0] == '-' && cs[1] == '-' && cs[2] == '-' && cs[3] == '\n') {
        assert(n >= 4 ==> cs@.subrange(0, 4)[0] == cs@[0] && cs@.subrange(0, 4)[1] == cs@[1]
            && cs@.subrange(0, 4)[2] == cs@[2] && cs@.subrange(0, 4)[3] == cs@[3]);
        return None;
    }
    assert(cs@.subrange(0, 4) =~= open_delim());
    let mut k: usize = 4;
    while n - k >= 4 && !(cs[k] == '\n' && cs[k + 1] == '-' && cs[k + 2] == '-' && cs[k + 3]
        == '-')
        invariant
            n == cs@.len(),
            4 <= k <= n,
            first_close(cs@, 4) == first_close(cs@, k as int),
        decreases n - k,
    {
        k = k + 1;
    }
    if n - k < 4 {
        return None;
    }
    let after = k + 4;
    let body_from = if after < n && cs[after] == '\n' {
        after + 1
    } else {
        after
    };
    let mut meta: Vec<char> = Vec::new();
    let mut i: usize = 4;
    while i < k
        invariant
            n == cs@.len(),
            4 <= i <= k,
            k + 4 <= n,
            meta@ == cs@.subrange(4, i as int),
        decreases k - i,
    {
        meta.push(cs[i]);
        i = i + 1;
        assert(meta@ =~= cs@.subrange(4, i as int));
    }
    let body = chars_from(cs.as_slice(), body_from);
    Some((string_of(meta.as_slice()), string_of(body.as_slice())))
}

/// Joins metadata text and a body into a stored record.
pub fn frame_record(meta: &str, body: &str) -> (r: String)
    ensures
        r@ == framed(meta@, body@),
{
    let mut cs = chars_of("---\n");
    proof {
        reveal_strlit("---\n");
    }
    assert(cs@ =~= open_delim());
    let mut m = chars_of(meta);
    cs.append(&mut m);
    let mut d = chars_of("---\n");
    cs.append(&mut d);
    let mut b = chars_of(body);
    cs.append(&mut b);
    string_of(cs.as_slice())
}

/// Nowhere in `s` does a newline followed by three dashes start.
pub open spec fn no_close_in(s: Seq<char>) -> bool {
    forall|j: int| 0 <= j < s.len() ==> !closes_at(s, j)
}

proof fn lemma_first_close_skips(s: Seq<char>, i: int, k: int)
    requires
        0 <= i <= k,
        closes_at(s, k),
        forall|j: int| i <= j < k ==> !closes_at(s, j),
    ensures
        first_close(s, i) == Some(k),
    decreases k - i,
{
    if i < k {
        lemma_first_close_skips(s, i + 1, k);
    }
}

/// Framing metadata text and a body, then splitting the result, gives back
/// the metadata (without its final newline) and exactly the same body. So a
/// change that re-encodes only the metadata keeps the body byte for byte.
pub proof fn lemma_frame_round_trip(meta: Seq<char>, body: Seq<char>)
    requires
        meta.len() > 0,
        meta.last() == '\n',
        no_close_in(meta),
    ensures
        split_spec(framed(meta, body)) == Some((meta.drop_last(), body)),
{
    let s = framed(meta, body);
    let m = meta.len() as int;
    let k = 4 + m - 1;
    assert(s.subrange(0, 4) =~= open_delim());
    assert forall|j: int| 0 <= j < m ==> s[4 + j] == meta[j] by {}
    assert(s[k + 1] == '-' && s[k + 2] == '-' && s[k + 3] == '-' && s[k + 4] == '\n');
    assert forall|j: int| 4 <= j < k implies !closes_at(s, j) by {
        if j + 4 <= 4 + m {
            if closes_at(s, j) {
                assert(closes_at(meta, j - 4));
            }
        } else {
            assert(s[k] == '\n');
        }
    }
    lemma_first_close_skips(s, 4, k);
    assert(s.subrange(4, k) =~= meta.drop_last());
    assert(s.subrange(k + 5, s.len() as int) =~= body);
}

impl Ranked for Task {
    /// Most recently updated first.
    open spec fn before(&self, other: &Task) -> bool {
        lex_le(other.updated@, self.updated@)
    }

    fn ranks_before(&self, other: &Task) -> (r: bool) {
        str_le(other.updated.as_str(), self.updated.as_str())
    }

    proof fn lemma_before_total(a: &Task, b: &Task) {
        lemma_lex_total(a.updated@, b.updated@);
    }

    proof fn lemma_before_transitive(a: &Task, b: &Task, c: &Task) {
        lemma_lex_transitive(c.updated@, b.updated@, a.updated@);
    }
}

impl Ranked for Project {
    /// Most recently updated first, then by title.
    open spec fn before(&self, other: &Project) -> bool {
        if self.updated@ == other.updated@ {
            lex_le(self.title@, other.title@)
        } else {
            lex_le(other.updated@, self.updated@)
        }
    }

    fn ranks_before(&self, other: &Project) -> (r: bool) {
        if str_eq(self.updated.as_str(), other.updated.as_str()) {
            str_le(self.title.as_str(), other.title.as_str())
        } else {
            str_le(other.updated.as_str(), self.updated.as_str())
        }
    }

    proof fn lemma_before_total(a: &Project, b: &Project) {
        lemma_lex_total(a.updated@, b.updated@);
        lemma_lex_total(a.title@, b.title@);
    }

    proof fn lemma_before_transitive(a: &Project, b: &Project, c: &Project) {
        if a.updated@ == b.updated@ && b.updated@ == c.updated@ {
            lemma_lex_transitive(a.title@, b.title@, c.title@);
        } else if a.updated@ != b.updated@ && b.updated@ != c.updated@ {
            lemma_lex_transitive(c.updated@, b.updated@, a.updated@);
            if a.updated@ == c.updated@ {
                lemma_lex_antisymmetric(a.updated@, b.updated@);
            }
        }
    }
}

/// The records that decoded, in scan order; the entries that did not are left out.
pub open spec fn decoded<T>(found: Seq<Option<T>>) -> Seq<T>
    decreases found.len(),
{
    if found.len() == 0 {
        Seq::empty()
    } else {
        let r = decoded(found.drop_last());
        match found.last() {
            Some(t) => r.push(t),
            None => r,
        }
    }
}

fn keep_decoded<T>(found: Vec<Option<T>>) -> (r: Vec<T>)
    ensures
        r@ == decoded(found@),
{
    let mut rest = found;
    let mut back: Vec<T> = Vec::new();
    let ghost all = rest@;
    while rest.len() > 0
        invariant
            rest@ == all.subrange(0, rest@.len() as int),
            rest@.len() <= all.len(),
            decoded(all) == decoded(rest@) + back@.reverse(),
        decreases rest@.len(),
    {
        let ghost before = rest@;
        let x = rest.pop().unwrap();
        assert(before.drop_last() == rest@);
        match x {
            Some(t) => {
                let ghost old_back = back@;
                back.push(t);
                assert(back@.reverse() =~= seq![t] + old_back.reverse());
                assert(decoded(before) == decoded(rest@).push(t));
                assert(decoded(rest@).push(t) + old_back.reverse() =~= decoded(rest@) + back@.reverse());
            },
            None => {
                assert(decoded(before) == decoded(rest@));
            },
        }
        assert(rest@ =~= all.subrange(0, rest@.len() as int));
    }
    assert(decoded(rest@) =~= Seq::<T>::empty());
    let mut out: Vec<T> = Vec::new();
    let ghost rev = back@.reverse();
    assert(decoded(all) =~= rev);
    while back.len() > 0
        invariant
            rev == out@ + back@.reverse(),
        decreases back@.len(),
    {
        let ghost before = back@;
        let t = back.pop().unwrap();
        let ghost old_out = out@;
        out.push(t);
        assert(before.reverse() =~= seq![t] + back@.reverse());
        assert(out@ + back@.reverse() =~= old_out + before.reverse());
    }
    assert(back@.reverse() =~= Seq::<T>::empty());
    assert(out@ =~= rev);
    out
}

/// A task listing from what a scan of the task files decoded: the files that
/// failed to decode (`None`) are skipped, the rest come most recently updated
/// first.
pub fn collect_tasks(found: Vec<Option<Task>>) -> (r: Vec<Task>)
    ensures
        r@.to_multiset() == decoded(found@).to_multiset(),
        r@.len() == decoded(found@).len(),
        sorted_by_rank(r@),
{
    let kept = keep_decoded(found);
    let r = sort_ranked(kept);
    proof {
        r@.to_multiset_ensures();
        kept@.to_multiset_ensures();
    }
    r
}

/// A project listing from what a scan of the project files decoded: the
/// files that failed to decode are skipped, the rest come most recently
/// updated first, then by title.
pub fn collect_projects(found: Vec<Option<Project>>) -> (r: Vec<Project>)
    ensures
        r@.to_multiset() == decoded(found@).to_multiset(),
        r@.len() == decoded(found@).len(),
        sorted_by_rank(r@),
{
    let kept = keep_decoded(found);
    let r = sort_ranked(kept);
    proof {
        r@.to_multiset_ensures();
        kept@.to_multiset_ensures();
    }
    r
}

/// How many entries of `found` decoded.
pub open spec fn count_decoded<T>(found: Seq<Option<T>>) -> nat
    decreases found.len(),
{
    if found.len() == 0 {
        0
    } else {
        count_decoded(found.drop_last()) + if found.last() is Some {
            1nat
        } else {
            0nat
        }
    }
}

proof fn lemma_decoded_len<T>(found: Seq<Option<T>>)
    ensures
        decoded(found).len() == count_decoded(found),
    decreases found.len(),
{
    if found.len() > 0 {
        lemma_decoded_len(found.drop_last());
    }
}

proof fn lemma_count_all_but_one<T>(found: Seq<Option<T>>, bad: int)
    requires
        0 <= bad < found.len(),
        found[bad] is None,
        forall|i: int| 0 <= i < found.len() && i != bad ==> found[i] is Some,
    ensures
        count_decoded(found) + 1 == found.len(),
    decreases found.len(),
{
    if found.len() - 1 == bad {
        lemma_count_all_some(found.drop_last());
    } else {
        lemma_count_all_but_one(found.drop_last(), bad);
    }
}

proof fn lemma_count_all_some<T>(found: Seq<Option<T>>)
    requires
        forall|i: int| 0 <= i < found.len() ==> found[i] is Some,
    ensures
        count_decoded(found) == found.len(),
    decreases found.len(),
{
    if found.len() > 0 {
        lemma_count_all_some(found.drop_last());
    }
}

/// A scan that found N well-formed records and one that does not decode
/// lists exactly N records.
pub proof fn lemma_listing_skips_one_corrupt<T>(found: Seq<Option<T>>, bad: int)
    requires
        0 <= bad < found.len(),
        found[bad] is None,
        forall|i: int| 0 <= i < found.len() && i != bad ==> found[i] is Some,
    ensures
        decoded(found).len() == found.len() - 1,
{
    lemma_decoded_len(found);
    lemma_count_all_but_one(found, bad);
}

/// The body of a stored record (empty when it has no metadata block).
pub open spec fn stored_body(stored: Seq<char>) -> Seq<char> {
    match split_spec(stored) {
        Some(p) => p.1,
        None => Seq::empty(),
    }
}

/// A change that re-encodes only the metadata of a stored record keeps its
/// body byte for byte: the old record splits into some metadata and a body,
/// and framing new metadata text with that body splits back into the new
/// metadata and the same body.
pub proof fn lemma_metadata_change_keeps_body(stored: Seq<char>, meta: Seq<char>)
    requires
        split_spec(stored) is Some,
        meta.len() > 0,
        meta.last() == '\n',
        no_close_in(meta),
    ensures
        split_spec(framed(meta, stored_body(stored))) == Some(
            (meta.drop_last(), stored_body(stored)),
        ),
{
    lemma_frame_round_trip(meta, stored_body(stored));
}

} // verus!
