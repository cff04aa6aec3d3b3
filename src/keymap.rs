//! Keymaps from normalized input tokens to actions, and the normalization of
//! key events into tokens.

use vstd::prelude::*;

use crate::actions::Action;
use crate::text::{
    ascii_lower, ascii_upper, chars_of, eq_chars, is_ascii_letter, str_eq, string_of,
    to_ascii_lower, to_ascii_upper,
};

verus! {

/// The bindings that `entries` make, a later entry overriding an earlier one
/// for the same token.
pub open spec fn bindings_of(entries: Seq<(String, Action)>) -> Map<Seq<char>, Action>
    decreases entries.len(),
{
    if entries.len() == 0 {
        Map::empty()
    } else {
        bindings_of(entries.drop_last()).insert(entries.last().0@, entries.last().1)
    }
}

/// What `m` binds `token` to, if anything.
pub open spec fn bound(m: Map<Seq<char>, Action>, token: Seq<char>) -> Option<Action> {
    if m.contains_key(token) {
        Some(m[token])
    } else {
        None
    }
}

/// A mapping from normalized tokens ("j", "Ctrl-d", "G", "/") to actions.
#[derive(Clone, Debug)]
pub struct Keymap {
    entries: Vec<(String, Action)>,
}

impl View for Keymap {
    type V = Map<Seq<char>, Action>;

    closed spec fn view(&self) -> Map<Seq<char>, Action> {
        bindings_of(self.entries@)
    }
}

proof fn lemma_bindings_tail(entries: Seq<(String, Action)>, i: int, token: Seq<char>)
    requires
        0 <= i <= entries.len(),
        forall|j: int| i <= j < entries.len() ==> entries[j].0@ != token,
    ensures
        bound(bindings_of(entries), token) == bound(bindings_of(entries.subrange(0, i)), token),
    decreases entries.len() - i,
{
    if i < entries.len() {
        assert(entries.drop_last() == entries.subrange(0, entries.len() - 1));
        lemma_bindings_tail(entries.drop_last(), i, token);
        assert(entries.drop_last().subrange(0, i) == entries.subrange(0, i));
    } else {
        assert(entries.subrange(0, i) == entries);
    }
}

impl Keymap {
    /// A keymap that binds nothing.
    pub fn new() -> (r: Keymap)
        ensures
            r@ == Map::<Seq<char>, Action>::empty(),
    {
        Keymap { entries: Vec::new() }
    }

    /// Binds `token` to `action`, replacing any earlier binding of it.
    pub fn bind(&mut self, token: String, action: Action)
        ensures
            final(self)@ == old(self)@.insert(token@, action),
    {
        self.entries.push((token, action));
        assert(self.entries@.drop_last() == old(self).entries@);
    }

    /// The action bound to `token`, if any.
    pub fn lookup(&self, token: &str) -> (r: Option<Action>)
        ensures
            r == bound(self@, token@),
    {
        let t = chars_of(token);
        let mut i: usize = self.entries.len();
        while i > 0
            invariant
                i <= self.entries@.len(),
                t@ == token@,
                forall|j: int| i <= j < self.entries@.len() ==> self.entries@[j].0@ != token@,
            decreases i,
        {
            let k = chars_of(self.entries[i - 1].0.as_str());
            if eq_chars(k.as_slice(), t.as_slice()) {
                let ghost e = self.entries@;
                proof {
                    lemma_bindings_tail(e, i as int, token@);
                    assert(e.subrange(0, i as int).drop_last() == e.subrange(0, i - 1));
                }
                return Some(self.entries[i - 1].1);
            }
            i = i - 1;
        }
        proof {
            lemma_bindings_tail(self.entries@, 0, token@);
        }
        None
    }
}

/// The built-in bindings.
pub open spec fn default_bindings() -> Map<Seq<char>, Action> {
    Map::empty().insert("j"@, Action::MoveDown).insert("Down"@, Action::MoveDown).insert(
        "k"@,
        Action::MoveUp,
    ).insert("Up"@, Action::MoveUp).insert("Ctrl-d"@, Action::HalfPageDown).insert(
        "Ctrl-u"@,
        Action::HalfPageUp,
    ).insert("G"@, Action::GoBottom).insert("/"@, Action::FocusFilter).insert(
        "q"@,
        Action::Quit,
    ).insert("x"@, Action::StatusNext).insert("X"@, Action::StatusPrev).insert(
        "1"@,
        Action::SetTodo,
    ).insert("2"@, Action::SetDoing).insert("3"@, Action::SetDone).insert("Home"@, Action::GoTop)
}

/// The built-in keymap.
pub fn default_keymap() -> (r: Keymap)
    ensures
        r@ == default_bindings(),
{
    let mut m = Keymap::new();
    m.bind("j".to_owned(), Action::MoveDown);
    m.bind("Down".to_owned(), Action::MoveDown);
    m.bind("k".to_owned(), Action::MoveUp);
    m.bind("Up".to_owned(), Action::MoveUp);
    m.bind("Ctrl-d".to_owned(), Action::HalfPageDown);
    m.bind("Ctrl-u".to_owned(), Action::HalfPageUp);
    m.bind("G".to_owned(), Action::GoBottom);
    m.bind("/".to_owned(), Action::FocusFilter);
    m.bind("q".to_owned(), Action::Quit);
    m.bind("x".to_owned(), Action::StatusNext);
    m.bind("X".to_owned(), Action::StatusPrev);
    m.bind("1".to_owned(), Action::SetTodo);
    m.bind("2".to_owned(), Action::SetDoing);
    m.bind("3".to_owned(), Action::SetDone);
    m.bind("Home".to_owned(), Action::GoTop);
    m
}

/// The action that a configuration names, by its snake-case name.
pub open spec fn action_of_name(s: Seq<char>) -> Option<Action> {
    if s == "move_down"@ {
        Some(Action::MoveDown)
    } else if s == "move_up"@ {
        Some(Action::MoveUp)
    } else if s == "half_page_down"@ {
        Some(Action::HalfPageDown)
    } else if s == "half_page_up"@ {
        Some(Action::HalfPageUp)
    } else if s == "go_top"@ {
        Some(Action::GoTop)
    } else if s == "go_bottom"@ {
        Some(Action::GoBottom)
    } else if s == "focus_filter"@ {
        Some(Action::FocusFilter)
    } else if s == "quit"@ {
        Some(Action::Quit)
    } else if s == "status_next"@ {
        Some(Action::StatusNext)
    } else if s == "status_prev"@ {
        Some(Action::StatusPrev)
    } else if s == "set_todo"@ {
        Some(Action::SetTodo)
    } else if s == "set_doing"@ {
        Some(Action::SetDoing)
    } else if s == "set_done"@ {
        Some(Action::SetDone)
    } else {
        None
    }
}

/// Maps an action name from a configuration to its action.
pub fn parse_action_name(s: &str) -> (r: Option<Action>)
    ensures
        r == action_of_name(s@),
{
    if str_eq(s, "move_down") {
        Some(Action::MoveDown)
    } else if str_eq(s, "move_up") {
        Some(Action::MoveUp)
    } else if str_eq(s, "half_page_down") {
        Some(Action::HalfPageDown)
    } else if str_eq(s, "half_page_up") {
        Some(Action::HalfPageUp)
    } else if str_eq(s, "go_top") {
        Some(Action::GoTop)
    } else if str_eq(s, "go_bottom") {
        Some(Action::GoBottom)
    } else if str_eq(s, "focus_filter") {
        Some(Action::FocusFilter)
    } else if str_eq(s, "quit") {
        Some(Action::Quit)
    } else if str_eq(s, "status_next") {
        Some(Action::StatusNext)
    } else if str_eq(s, "status_prev") {
        Some(Action::StatusPrev)
    } else if str_eq(s, "set_todo") {
        Some(Action::SetTodo)
    } else if str_eq(s, "set_doing") {
        Some(Action::SetDoing)
    } else if str_eq(s, "set_done") {
        Some(Action::SetDone)
    } else {
        None
    }
}

/// `base` with each (token, action name) pair applied in order; a pair whose
/// name is not an action is skipped.
pub open spec fn overridden(
    base: Map<Seq<char>, Action>,
    pairs: Seq<(String, String)>,
) -> Map<Seq<char>, Action>
    decreases pairs.len(),
{
    if pairs.len() == 0 {
        base
    } else {
        let m = overridden(base, pairs.drop_last());
        match action_of_name(pairs.last().1@) {
            Some(a) => m.insert(pairs.last().0@, a),
            None => m,
        }
    }
}

/// The built-in keymap with the bindings of a configuration laid over it.
pub fn keymap_with_overrides(pairs: &Vec<(String, String)>) -> (r: Keymap)
    ensures
        r@ == overridden(default_bindings(), pairs@),
{
    let mut km = default_keymap();
    let mut i: usize = 0;
    while i < pairs.len()
        invariant
            i <= pairs@.len(),
            km@ == overridden(default_bindings(), pairs@.subrange(0, i as int)),
        decreases pairs@.len() - i,
    {
        let ghost before = pairs@.subrange(0, i as int);
        assert(pairs@.subrange(0, i + 1).drop_last() == before);
        if let Some(a) = parse_action_name(pairs[i].1.as_str()) {
            km.bind(pairs[i].0.clone(), a);
        }
        i = i + 1;
    }
    assert(pairs@.subrange(0, pairs@.len() as int) == pairs@);
    km
}

/// A key as the input front-ends report it, before normalization.
#[derive(Clone, Copy, Debug, PartialEq, Eq, Structural)]
pub enum KeyName {
    Char(char),
    Down,
    Up,
    Left,
    Right,
    End,
    Home,
    Esc,
    Enter,
    Backspace,
    Other,
}

/// A key press with the modifiers that matter for normalization.
#[derive(Clone, Copy, Debug, PartialEq, Eq, Structural)]
pub struct KeyInput {
    pub key: KeyName,
    pub ctrl: bool,
    pub shift: bool,
}

/// The token of a key press: a control chord is `Ctrl-` and the lower-cased
/// character, a shifted letter is its upper case, any other character is
/// itself, and the named keys have fixed names.
pub open spec fn token_of(k: KeyInput) -> Option<Seq<char>> {
    match k.key {
        KeyName::Char(c) => if k.ctrl {
            Some("Ctrl-"@.push(ascii_lower(c)))
        } else if k.shift && is_ascii_letter(c) {
            Some(seq![ascii_upper(c)])
        } else {
            Some(seq![c])
        },
        KeyName::Down => Some("Down"@),
        KeyName::Up => Some("Up"@),
        KeyName::Left => Some("Left"@),
        KeyName::Right => Some("Right"@),
        KeyName::End => Some("End"@),
        KeyName::Home => Some("Home"@),
        KeyName::Esc => Some("Esc"@),
        _ => None,
    }
}

/// Normalizes a key press into the token that keymaps are keyed by.
pub fn key_token(k: &KeyInput) -> (r: Option<String>)
    ensures
        r matches Some(t) ==> token_of(*k) == Some(t@),
        r is None ==> token_of(*k) is None,
{
    match k.key {
        KeyName::Char(c) => {
            if k.ctrl {
                let mut cs = chars_of("Ctrl-");
                cs.push(to_ascii_lower(c));
                Some(string_of(cs.as_slice()))
            } else if k.shift && (('a' <= c && c <= 'z') || ('A' <= c && c <= 'Z')) {
                let cs = vec![to_ascii_upper(c)];
                assert(cs@ == seq![ascii_upper(c)]);
                Some(string_of(cs.as_slice()))
            } else {
                let cs = vec![c];
                assert(cs@ == seq![c]);
                Some(string_of(cs.as_slice()))
            }
        },
        KeyName::Down => Some("Down".to_owned()),
        KeyName::Up => Some("Up".to_owned()),
        KeyName::Left => Some("Left".to_owned()),
        KeyName::Right => Some("Right".to_owned()),
        KeyName::End => Some("End".to_owned()),
        KeyName::Home => Some("Home".to_owned()),
        KeyName::Esc => Some("Esc".to_owned()),
        _ => None,
    }
}

/// A control chord on a letter gives `Ctrl-` and the letter in lower case,
/// whichever case the front-end reported and whether shift was held.
pub proof fn lemma_ctrl_chord_token(c: char, shift: bool)
    requires
        is_ascii_letter(c),
    ensures
        token_of(KeyInput { key: KeyName::Char(c), ctrl: true, shift }) == Some(
            "Ctrl-"@.push(ascii_lower(c)),
        ),
        ascii_lower(c) == ascii_lower(ascii_upper(c)),
{
}

/// In the built-in keymap, the token of a control chord on `d` resolves to
/// half-page-down.
pub proof fn lemma_default_ctrl_d()
    ensures
        token_of(KeyInput { key: KeyName::Char('d'), ctrl: true, shift: false }) == Some(
            "Ctrl-d"@,
        ),
        bound(default_bindings(), "Ctrl-d"@) == Some(Action::HalfPageDown),
{
    reveal_strlit("Ctrl-");
    reveal_strlit("Ctrl-d");
    reveal_strlit("Ctrl-u");
    reveal_strlit("G");
    reveal_strlit("/");
    reveal_strlit("q");
    reveal_strlit("x");
    reveal_strlit("X");
    reveal_strlit("1");
    reveal_strlit("2");
    reveal_strlit("3");
    reveal_strlit("Home");
    assert("Ctrl-"@.push('d') =~= "Ctrl-d"@);
    assert("Ctrl-u"@[5] != "Ctrl-d"@[5]);
}

impl Default for Keymap {
    fn default() -> (r: Keymap)
        ensures
            r@ == Map::<Seq<char>, Action>::empty(),
    {
        Keymap::new()
    }
}

/// Every action has a built-in binding: a token (one that key presses
/// produce) that the default keymap resolves to it.
pub proof fn lemma_defaults_cover_all_actions(a: Action)
    ensures
        exists|t: Seq<char>| bound(default_bindings(), t) == Some(a),
{
    reveal_strlit("j");
    reveal_strlit("Down");
    reveal_strlit("k");
    reveal_strlit("Up");
    reveal_strlit("Ctrl-d");
    reveal_strlit("Ctrl-u");
    reveal_strlit("G");
    reveal_strlit("/");
    reveal_strlit("q");
    reveal_strlit("x");
    reveal_strlit("X");
    reveal_strlit("1");
    reveal_strlit("2");
    reveal_strlit("3");
    reveal_strlit("Home");
    let m = default_bindings();
    assert("Ctrl-u"@[5] != "Ctrl-d"@[5]);
    assert("Down"@[0] != "Home"@[0]);
    assert("Up"@[0] != "Ctrl-d"@[0]);
    match a {
        Action::MoveDown => {
            assert(bound(m, "Down"@) == Some(a));
        },
        Action::MoveUp => {
            assert(bound(m, "Up"@) == Some(a));
        },
        Action::HalfPageDown => {
            assert(bound(m, "Ctrl-d"@) == Some(a));
        },
        Action::HalfPageUp => {
            assert("Ctrl-u"@.len() != "G"@.len());
            assert("Ctrl-u"@.len() != "/"@.len());
            assert("Ctrl-u"@.len() != "q"@.len());
            assert("Ctrl-u"@.len() != "x"@.len());
            assert("Ctrl-u"@.len() != "X"@.len());
            assert("Ctrl-u"@.len() != "1"@.len());
            assert("Ctrl-u"@.len() != "2"@.len());
            assert("Ctrl-u"@.len() != "3"@.len());
            assert("Ctrl-u"@.len() != "Home"@.len());
            assert(bound(m, "Ctrl-u"@) == Some(a));
        },
        Action::GoTop => {
            assert(bound(m, "Home"@) == Some(a));
        },
        Action::GoBottom => {
            assert("G"@[0] != "/"@[0]);
            assert("G"@[0] != "q"@[0]);
            assert("G"@[0] != "x"@[0]);
            assert("G"@[0] != "X"@[0]);
            assert("G"@[0] != "1"@[0]);
            assert("G"@[0] != "2"@[0]);
            assert("G"@[0] != "3"@[0]);
            assert(bound(m, "G"@) == Some(a));
        },
        Action::FocusFilter => {
            assert("/"@[0] != "q"@[0]);
            assert("/"@[0] != "x"@[0]);
            assert("/"@[0] != "X"@[0]);
            assert("/"@[0] != "1"@[0]);
            assert("/"@[0] != "2"@[0]);
            assert("/"@[0] != "3"@[0]);
            assert(bound(m, "/"@) == Some(a));
        },
        Action::Quit => {
            assert("q"@[0] != "x"@[0]);
            assert("q"@[0] != "X"@[0]);
            assert("q"@[0] != "1"@[0]);
            assert("q"@[0] != "2"@[0]);
            assert("q"@[0] != "3"@[0]);
            assert(bound(m, "q"@) == Some(a));
        },
        Action::StatusNext => {
            assert("x"@[0] != "X"@[0]);
            assert("x"@[0] != "1"@[0]);
            assert("x"@[0] != "2"@[0]);
            assert("x"@[0] != "3"@[0]);
            assert(bound(m, "x"@) == Some(a));
        },
        Action::StatusPrev => {
            assert("X"@[0] != "1"@[0]);
            assert("X"@[0] != "2"@[0]);
            assert("X"@[0] != "3"@[0]);
            assert(bound(m, "X"@) == Some(a));
        },
        Action::SetTodo => {
            assert("1"@[0] != "2"@[0]);
            assert("1"@[0] != "3"@[0]);
            assert(bound(m, "1"@) == Some(a));
        },
        Action::SetDoing => {
            assert("2"@[0] != "3"@[0]);
            assert(bound(m, "2"@) == Some(a));
        },
        Action::SetDone => {
            assert(bound(m, "3"@) == Some(a));
        },
    }
}

} // verus!
