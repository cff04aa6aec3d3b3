//! What the user sees and moves through: the visible task list and the
//! selection within it.

use vstd::prelude::*;

use crate::actions::Action;
use crate::outside::{lower_of, lowercase};
use crate::record::Task;
use crate::text::{chars_of, concat, str_eq};

verus! {

/// `needle` occurs in `hay` as a run of consecutive characters.
pub open spec fn occurs_in(needle: Seq<char>, hay: Seq<char>) -> bool {
    exists|i: int| 0 <= i && i + needle.len() <= hay.len() && #[trigger] hay.subrange(i, i + needle.len()) == needle
}

/// Whether `needle` occurs in `hay`.
pub fn contains_chars(hay: &[char], needle: &[char]) -> (r: bool)
    ensures
        r == occurs_in(needle@, hay@),
{
    let n = hay.len();
    let m = needle.len();
    if m > n {
        return false;
    }
    let mut i: usize = 0;
    while i <= n - m
        invariant
            m <= n,
            n == hay@.len(),
            m == needle@.len(),
            forall|j: int| 0 <= j < i ==> #[trigger] hay@.subrange(j, j + m) != needle@,
        decreases n - m - i + 1,
    {
        let mut k: usize = 0;
        while k < m && hay[i + k] == needle[k]
            invariant
                k <= m,
                i + m <= n,
                n == hay@.len(),
                m == needle@.len(),
                forall|j: int| 0 <= j < k ==> hay@[i + j] == needle@[j],
            decreases m - k,
        {
            k = k + 1;
        }
        if k == m {
            assert(hay@.subrange(i as int, i + m) =~= needle@);
            return true;
        }
        assert(hay@.subrange(i as int, i + m)[k as int] != needle@[k as int]);
        i = i + 1;
    }
    assert forall|j: int| 0 <= j && j + m <= n implies #[trigger] hay@.subrange(j, j + m) != needle@ by {}
    false
}

/// Whether a lower-cased filter occurs in a lower-cased text; an empty
/// filter matches everything.
pub fn matches_folded(filter_lower: &str, hay_lower: &str) -> (r: bool)
    ensures
        r == occurs_in(filter_lower@, hay_lower@),
{
    let f = chars_of(filter_lower);
    let h = chars_of(hay_lower);
    proof {
        if f@.len() == 0 {
            assert(h@.subrange(0, 0) =~= f@);
        }
    }
    contains_chars(h.as_slice(), f.as_slice())
}

/// The text a filter is matched against: `[status] title project`.
pub open spec fn filter_text(t: Task) -> Seq<char> {
    "["@ + t.status@ + "] "@ + t.title@ + " "@ + t.project@
}

/// A task is visible when it belongs to the current project (if one is
/// chosen) and the filter occurs in its text, ignoring case.
pub open spec fn visible_spec(t: Task, project: Option<Seq<char>>, filter: Seq<char>) -> bool {
    (match project {
        Some(p) => t.project@ == p,
        None => true,
    }) && (filter.len() == 0 || occurs_in(lower_of(filter), lower_of(filter_text(t))))
}

pub open spec fn opt_chars(o: Option<String>) -> Option<Seq<char>> {
    match o {
        Some(s) => Some(s@),
        None => None,
    }
}

/// Whether a task is visible under the current project and filter.
pub fn task_visible(t: &Task, project: &Option<String>, filter: &str) -> (r: bool)
    ensures
        r == visible_spec(*t, opt_chars(*project), filter@),
{
    let in_project = match project {
        Some(p) => str_eq(t.project.as_str(), p.as_str()),
        None => true,
    };
    if !in_project {
        return false;
    }
    if filter.is_empty() {
        return true;
    }
    let hay = concat("[", t.status.as_str());
    let hay = concat(hay.as_str(), "] ");
    let hay = concat(hay.as_str(), t.title.as_str());
    let hay = concat(hay.as_str(), " ");
    let hay = concat(hay.as_str(), t.project.as_str());
    let hl = lowercase(hay.as_str());
    let fl = lowercase(filter);
    matches_folded(fl.as_str(), hl.as_str())
}

/// The indices, in order, of the tasks among the first `n` that are visible.
pub open spec fn visible_upto(
    tasks: Seq<Task>,
    project: Option<Seq<char>>,
    filter: Seq<char>,
    n: int,
) -> Seq<usize>
    decreases n,
{
    if n <= 0 {
        Seq::empty()
    } else {
        let r = visible_upto(tasks, project, filter, n - 1);
        if visible_spec(tasks[n - 1], project, filter) {
            r.push((n - 1) as usize)
        } else {
            r
        }
    }
}

/// The visible list: the indices of the visible tasks, in listing order.
pub fn visible_indices(tasks: &Vec<Task>, project: &Option<String>, filter: &str) -> (r: Vec<usize>)
    ensures
        r@ == visible_upto(tasks@, opt_chars(*project), filter@, tasks@.len() as int),
{
    let mut out: Vec<usize> = Vec::new();
    let mut i: usize = 0;
    while i < tasks.len()
        invariant
            i <= tasks@.len(),
            out@ == visible_upto(tasks@, opt_chars(*project), filter@, i as int),
        decreases tasks@.len() - i,
    {
        if task_visible(&tasks[i], project, filter) {
            out.push(i);
        }
        i = i + 1;
    }
    out
}

/// The selection kept within a list of `len` items: 0 when the list is
/// empty, the last item when it points past the end.
pub open spec fn clamped(selected: int, len: int) -> int {
    if len <= 0 {
        0
    } else if selected >= len {
        len - 1
    } else {
        selected
    }
}

/// Half a page: half the list, rounded up, and at least one.
pub open spec fn half_page(len: int) -> int {
    if (len + 1) / 2 >= 1 {
        (len + 1) / 2
    } else {
        1
    }
}

/// Where a navigation action leaves the selection in a list of `len` items;
/// other actions leave it (clamped) where it is.
pub open spec fn navigated(a: Action, selected: int, len: int) -> int {
    let s = clamped(selected, len);
    if len <= 0 {
        0
    } else {
        match a {
            Action::MoveDown => if s + 1 < len {
                s + 1
            } else {
                s
            },
            Action::MoveUp => if s > 0 {
                s - 1
            } else {
                s
            },
            Action::HalfPageDown => if s + half_page(len) < len - 1 {
                s + half_page(len)
            } else {
                len - 1
            },
            Action::HalfPageUp => if s - half_page(len) > 0 {
                s - half_page(len)
            } else {
                0
            },
            Action::GoTop => 0,
            Action::GoBottom => len - 1,
            _ => s,
        }
    }
}

/// Keeps a selection within a list of `len` items.
pub fn clamp_selection(selected: usize, len: usize) -> (r: usize)
    ensures
        r == clamped(selected as int, len as int),
{
    if len == 0 {
        0
    } else if selected >= len {
        len - 1
    } else {
        selected
    }
}

/// Moves the selection as a navigation action asks.
pub fn navigate(a: Action, selected: usize, len: usize) -> (r: usize)
    ensures
        r == navigated(a, selected as int, len as int),
{
    let s = clamp_selection(selected, len);
    if len == 0 {
        return 0;
    }
    let half = if len / 2 + len % 2 >= 1 {
        len / 2 + len % 2
    } else {
        1
    };
    assert(half == half_page(len as int));
    match a {
        Action::MoveDown => if s + 1 < len {
            s + 1
        } else {
            s
        },
        Action::MoveUp => if s > 0 {
            s - 1
        } else {
            s
        },
        Action::HalfPageDown => if half < len - 1 - s {
            s + half
        } else {
            len - 1
        },
        Action::HalfPageUp => if s > half {
            s - half
        } else {
            0
        },
        Action::GoTop => 0,
        Action::GoBottom => len - 1,
        _ => s,
    }
}

/// Navigation never leaves the list: on an empty list the selection is 0,
/// otherwise it is a valid index; moving down from the last item stays there.
pub proof fn lemma_navigation_clamped(a: Action, selected: int, len: int)
    requires
        selected >= 0,
    ensures
        len <= 0 ==> navigated(a, selected, len) == 0,
        len > 0 ==> 0 <= navigated(a, selected, len) < len,
        len > 0 && selected == len - 1 ==> navigated(Action::MoveDown, selected, len) == selected,
{
}

} // verus!
