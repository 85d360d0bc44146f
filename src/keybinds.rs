use vstd::prelude::*;
use crate::text::owned;
use crate::util::Key;

verus! {

/// The action a key stands for.
#[derive(Clone, Copy, Debug, PartialEq, Eq, Hash, Structural)]
pub enum KeybindType {
    Up,
    Down,
    Restart,
    Start,
    Stop,
    Enter,
    Quit,
    Escape,
    Update,
}

/// The view in whose help line a key is listed.
#[derive(Clone, Copy, Debug, PartialEq, Eq, Structural)]
pub enum KeybindContext {
    Main,
    Logs,
}

#[derive(Clone, Debug)]
pub struct Keybind {
    pub t: KeybindType,
    pub name: String,
    pub context: KeybindContext,
}

impl Keybind {
    /// A binding listed in the main view.
    pub fn new(t: KeybindType, name: &str) -> (r: Keybind)
        ensures
            r.t == t,
            r.name@ == name@,
            r.context == KeybindContext::Main,
    {
        Keybind { t, name: owned(name), context: KeybindContext::Main }
    }

    /// A binding listed in the log view.
    pub fn new_logs(t: KeybindType, name: &str) -> (r: Keybind)
        ensures
            r.t == t,
            r.name@ == name@,
            r.context == KeybindContext::Logs,
    {
        Keybind { t, name: owned(name), context: KeybindContext::Logs }
    }
}

/// The binding of a key: its action, its label and the view that lists it.
pub open spec fn binding(code: Key) -> Option<(KeybindType, Seq<char>, KeybindContext)> {
    match code {
        Key::Up => Some((KeybindType::Up, "Up"@, KeybindContext::Main)),
        Key::Down => Some((KeybindType::Down, "Down"@, KeybindContext::Main)),
        Key::Char('r') => Some((KeybindType::Restart, "Restart"@, KeybindContext::Main)),
        Key::Char('s') => Some((KeybindType::Start, "Start"@, KeybindContext::Main)),
        Key::Char('x') => Some((KeybindType::Stop, "Stop"@, KeybindContext::Main)),
        Key::Enter => Some((KeybindType::Enter, "View Logs"@, KeybindContext::Main)),
        Key::Char('u') => Some((KeybindType::Update, "Update"@, KeybindContext::Main)),
        Key::Char('q') => Some((KeybindType::Quit, "Quit"@, KeybindContext::Main)),
        Key::Esc => Some((KeybindType::Escape, "Escape"@, KeybindContext::Logs)),
        _ => None,
    }
}

/// The action bound to a key, if any.
pub open spec fn bound_action(code: Key) -> Option<KeybindType> {
    match binding(code) {
        Some(b) => Some(b.0),
        None => None,
    }
}

/// The bound keys, ordered by label.
pub open spec fn bound_keys() -> Seq<Key> {
    seq![
        Key::Down,
        Key::Esc,
        Key::Char('q'),
        Key::Char('r'),
        Key::Char('s'),
        Key::Char('x'),
        Key::Up,
        Key::Char('u'),
        Key::Enter,
    ]
}

pub open spec fn describes(code: Key, b: Keybind) -> bool {
    binding(code) == Some((b.t, b.name@, b.context))
}

/// The binding of `code`, if it has one.
pub fn keybind_for(code: &Key) -> (r: Option<Keybind>)
    ensures
        match r {
            Some(b) => describes(*code, b),
            None => binding(*code).is_none(),
        },
{
    match code {
        Key::Up => Some(Keybind::new(KeybindType::Up, "Up")),
        Key::Down => Some(Keybind::new(KeybindType::Down, "Down")),
        Key::Char(c) => {
            if *c == 'r' {
                Some(Keybind::new(KeybindType::Restart, "Restart"))
            } else if *c == 's' {
                Some(Keybind::new(KeybindType::Start, "Start"))
            } else if *c == 'x' {
                Some(Keybind::new(KeybindType::Stop, "Stop"))
            } else if *c == 'u' {
                Some(Keybind::new(KeybindType::Update, "Update"))
            } else if *c == 'q' {
                Some(Keybind::new(KeybindType::Quit, "Quit"))
            } else {
                None
            }
        },
        Key::Enter => Some(Keybind::new(KeybindType::Enter, "View Logs")),
        Key::Esc => Some(Keybind::new_logs(KeybindType::Escape, "Escape")),
        Key::Other => None,
    }
}

/// The action bound to `code`, if any.
pub fn action_for(code: &Key) -> (r: Option<KeybindType>)
    ensures
        r == bound_action(*code),
{
    match keybind_for(code) {
        Some(b) => Some(b.t),
        None => None,
    }
}

/// Every binding with its key, ordered by label.
pub fn get_keybinds() -> (r: Vec<(Key, Keybind)>)
    ensures
        r@.len() == bound_keys().len(),
        forall|i: int| 0 <= i < r@.len() ==> r@[i].0 == bound_keys()[i] && describes(r@[i].0, r@[i].1),
{
    let keys: Vec<Key> = vec![
        Key::Down,
        Key::Esc,
        Key::Char('q'),
        Key::Char('r'),
        Key::Char('s'),
        Key::Char('x'),
        Key::Up,
        Key::Char('u'),
        Key::Enter,
    ];
    assert(keys@ =~= bound_keys());
    let mut r: Vec<(Key, Keybind)> = Vec::new();
    let mut i: usize = 0;
    while i < keys.len()
        invariant
            keys@ == bound_keys(),
            i <= keys@.len(),
            r@.len() == i,
            forall|j: int| 0 <= j < i ==> r@[j].0 == bound_keys()[j] && describes(r@[j].0, r@[j].1),
        decreases keys@.len() - i,
    {
        let k = keys[i];
        match keybind_for(&k) {
            Some(b) => {
                r.push((k, b));
            },
            None => {
                assert(false);
            },
        }
        i = i + 1;
    }
    r
}

} // verus!
