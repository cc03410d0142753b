//! Focus, selection and scroll state of the two panes, and the transitions
//! that key presses cause.
use vstd::prelude::*;
use crate::content::{key_label, key_label_spec};

verus! {

/// The pane that receives navigation input.
#[derive(Debug, Clone, Copy, PartialEq, Eq, Structural, PartialOrd, Ord)]
pub enum Focus {
    Keys,
    Value,
}

impl Focus {
    /// The pane on the other side.
    pub open spec fn other(self) -> Focus {
        match self {
            Focus::Keys => Focus::Value,
            Focus::Value => Focus::Keys,
        }
    }

    /// Hands the focus to the other pane.
    pub fn switch(&mut self)
        ensures
            *final(self) == old(self).other(),
    {
        match self {
            Focus::Keys => *self = Focus::Value,
            Focus::Value => *self = Focus::Keys,
        }
    }
}

/// A key of the keyboard, as far as navigation tells keys apart.
#[derive(Debug, Clone, Copy, PartialEq, Eq, Structural)]
pub enum Key {
    Char(char),
    Tab,
    Other,
}

/// What a key event asks of the navigator.
#[derive(Debug, Clone, Copy, PartialEq, Eq, Structural)]
pub enum Input {
    /// End the session.
    Quit,
    /// Modifier with "previous".
    Previous,
    /// Modifier with "next".
    Next,
    /// Hand the focus to the other pane.
    SwitchFocus,
    /// Anything else: no change.
    Ignored,
}

/// The input a key event stands for: only presses count; `q` quits; control
/// with `p` or `n` moves; tab switches the focus.
pub open spec fn input_spec(pressed: bool, key: Key, ctrl: bool) -> Input {
    if !pressed {
        Input::Ignored
    } else if key == Key::Char('q') {
        Input::Quit
    } else if ctrl && key == Key::Char('p') {
        Input::Previous
    } else if ctrl && key == Key::Char('n') {
        Input::Next
    } else if key == Key::Tab {
        Input::SwitchFocus
    } else {
        Input::Ignored
    }
}

/// The input a key event stands for.
pub fn input_of(pressed: bool, key: Key, ctrl: bool) -> (r: Input)
    ensures
        r == input_spec(pressed, key, ctrl),
{
    if !pressed {
        Input::Ignored
    } else if key == Key::Char('q') {
        Input::Quit
    } else if ctrl && key == Key::Char('p') {
        Input::Previous
    } else if ctrl && key == Key::Char('n') {
        Input::Next
    } else if key == Key::Tab {
        Input::SwitchFocus
    } else {
        Input::Ignored
    }
}

/// Focus, selection and scroll offset.
pub type NavState = (Focus, Option<usize>, usize);

/// The selection after "next" in a list of `n` keys: the first key from no
/// selection, then one further, stopping at the last.
pub open spec fn next_selection(sel: Option<usize>, n: nat) -> Option<usize> {
    if n == 0 {
        None
    } else {
        match sel {
            None => Some(0),
            Some(i) => Some(if i + 1 < n { (i + 1) as usize } else { (n - 1) as usize }),
        }
    }
}

/// The selection after "previous" in a list of `n` keys: the last key from
/// no selection, then one back, stopping at the first.
pub open spec fn previous_selection(sel: Option<usize>, n: nat) -> Option<usize> {
    if n == 0 {
        None
    } else {
        match sel {
            None => Some((n - 1) as usize),
            Some(i) => Some(if i == 0 { 0 } else { (i - 1) as usize }),
        }
    }
}

/// The selection is empty or indexes one of `n` keys.
pub open spec fn selection_valid(sel: Option<usize>, n: nat) -> bool {
    sel matches Some(i) ==> i < n
}

/// The state after one input, in a list of `n` keys.
pub open spec fn step(s: NavState, n: nat, input: Input) -> NavState {
    let (focus, sel, scroll) = s;
    match input {
        Input::Previous => if focus == Focus::Keys {
            (focus, previous_selection(sel, n), scroll)
        } else {
            (focus, sel, if scroll > 0 { (scroll - 1) as usize } else { 0 })
        },
        Input::Next => if focus == Focus::Keys {
            (focus, next_selection(sel, n), scroll)
        } else {
            (focus, sel, if scroll < usize::MAX { (scroll + 1) as usize } else { scroll })
        },
        Input::SwitchFocus => (focus.other(), sel, 0),
        _ => s,
    }
}

/// The state after the same input `k` times.
pub open spec fn steps(s: NavState, n: nat, input: Input, k: nat) -> NavState
    decreases k,
{
    if k == 0 {
        s
    } else {
        step(steps(s, n, input, (k - 1) as nat), n, input)
    }
}

/// Navigation over the keys of a store, read once.
pub struct App {
    /// Display form of each key, in store order.
    pub keys: Vec<String>,
    /// Each key as stored.
    pub raw_keys: Vec<Vec<u8>>,
    pub focus: Focus,
    /// Index of the highlighted key.
    pub selected: Option<usize>,
    /// Line offset into the shown value.
    pub scroll: usize,
}

impl App {
    pub open spec fn state(&self) -> NavState {
        (self.focus, self.selected, self.scroll)
    }

    /// Keys and raw keys correspond, the selection indexes a key, and the
    /// value is not scrolled while the key list has the focus.
    pub open spec fn wf(&self) -> bool {
        &&& self.keys@.len() == self.raw_keys@.len()
        &&& selection_valid(self.selected, self.keys@.len())
        &&& (self.focus == Focus::Keys ==> self.scroll == 0)
    }

    /// Navigation over the given raw keys, in their order, with the key list
    /// focused and nothing selected.
    pub fn from_raw_keys(raw_keys: Vec<Vec<u8>>) -> (r: App)
        ensures
            r.wf(),
            r.raw_keys@ == raw_keys@,
            forall|i: int|
                0 <= i < r.keys@.len() ==> #[trigger] r.keys@[i]@ == key_label_spec(
                    raw_keys@[i]@,
                ),
            r.focus == Focus::Keys,
            r.selected is None,
            r.scroll == 0,
    {
        let mut keys: Vec<String> = Vec::new();
        let mut i: usize = 0;
        while i < raw_keys.len()
            invariant
                i <= raw_keys@.len(),
                keys@.len() == i,
                forall|j: int| 0 <= j < i ==> #[trigger] keys@[j]@ == key_label_spec(raw_keys@[j]@),
            decreases raw_keys@.len() - i,
        {
            keys.push(key_label(raw_keys[i].as_slice()));
            i = i + 1;
        }
        App { keys, raw_keys, focus: Focus::Keys, selected: None, scroll: 0 }
    }

    /// Applies one input. Returns false on `Quit`, which ends the session and
    /// changes nothing.
    pub fn handle(&mut self, input: Input) -> (running: bool)
        requires
            old(self).wf(),
        ensures
            final(self).wf(),
            final(self).keys == old(self).keys,
            final(self).raw_keys == old(self).raw_keys,
            final(self).state() == step(old(self).state(), old(self).keys@.len(), input),
            final(self).selected != old(self).selected ==> final(self).scroll == 0,
            running == (input != Input::Quit),
    {
        let n = self.keys.len();
        match input {
            Input::Quit => {
                return false;
            },
            Input::Previous => {
                if self.focus == Focus::Keys {
                    if n == 0 {
                        self.selected = None;
                    } else {
                        self.selected = match self.selected {
                            None => Some(n - 1),
                            Some(i) => Some(if i == 0 { 0 } else { i - 1 }),
                        };
                    }
                } else {
                    self.scroll = if self.scroll > 0 { self.scroll - 1 } else { 0 };
                }
            },
            Input::Next => {
                if self.focus == Focus::Keys {
                    if n == 0 {
                        self.selected = None;
                    } else {
                        self.selected = match self.selected {
                            None => Some(0),
                            Some(i) => Some(if i + 1 < n { i + 1 } else { n - 1 }),
                        };
                    }
                } else {
                    self.scroll = self.scroll.saturating_add(1);
                }
            },
            Input::SwitchFocus => {
                self.scroll = 0;
                self.focus.switch();
            },
            Input::Ignored => {},
        }
        true
    }

    /// The stored form of the selected key, if any.
    pub fn selected_raw_key(&self) -> (r: Option<&Vec<u8>>)
        requires
            self.wf(),
        ensures
            r is Some <==> self.selected is Some,
            r is Some ==> r->0@ == self.raw_keys@[self.selected->0 as int]@,
    {
        match self.selected {
            Some(i) => Some(&self.raw_keys[i]),
            None => None,
        }
    }
}

} // verus!
