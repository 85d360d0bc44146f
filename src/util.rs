use vstd::prelude::*;
use crate::text::{dec, owned, push_char, push_decimal};

verus! {

/// A key as the dashboard reads it from the terminal.
#[derive(Clone, Copy, Debug, PartialEq, Eq, Structural)]
pub enum Key {
    Char(char),
    Enter,
    Esc,
    Up,
    Down,
    Other,
}

/// The label shown for a key in the help line.
pub open spec fn key_label(code: Key) -> Seq<char> {
    match code {
        Key::Char(c) => seq![c],
        Key::Enter => "Enter"@,
        Key::Esc => "Esc"@,
        Key::Up => seq!['\u{2191}'],
        Key::Down => seq!['\u{2193}'],
        Key::Other => "?"@,
    }
}

pub fn keycode_display(code: &Key) -> (r: String)
    ensures
        r@ == key_label(*code),
{
    match code {
        Key::Char(c) => {
            let mut s = String::new();
            push_char(&mut s, *c);
            s
        },
        Key::Enter => owned("Enter"),
        Key::Esc => owned("Esc"),
        Key::Up => {
            let mut s = String::new();
            push_char(&mut s, '\u{2191}');
            s
        },
        Key::Down => {
            let mut s = String::new();
            push_char(&mut s, '\u{2193}');
            s
        },
        Key::Other => owned("?"),
    }
}

/// A duration of `ms` milliseconds in its largest whole unit: milliseconds
/// below a second, then seconds, minutes, hours and days, each rounded down.
pub open spec fn duration_text(ms: nat) -> Seq<char> {
    let seconds = ms / 1000;
    let minutes = seconds / 60;
    let hours = minutes / 60;
    let days = hours / 24;
    if ms < 1000 {
        dec(ms) + "ms"@
    } else if seconds < 60 {
        dec(seconds) + "s"@
    } else if minutes < 60 {
        dec(minutes) + "m"@
    } else if hours < 24 {
        dec(hours) + "h"@
    } else {
        dec(days) + "d"@
    }
}

/// Formats an uptime of `ms` milliseconds for display.
pub fn format_duration(ms: u128) -> (r: String)
    ensures
        r@ == duration_text(ms as nat),
{
    let mut s = String::new();
    let seconds = ms / 1000;
    let minutes = seconds / 60;
    let hours = minutes / 60;
    let days = hours / 24;
    proof {
        reveal_strlit("ms");
        reveal_strlit("s");
        reveal_strlit("m");
        reveal_strlit("h");
        reveal_strlit("d");
    }
    if ms < 1000 {
        push_decimal(&mut s, ms);
        push_char(&mut s, 'm');
        push_char(&mut s, 's');
    } else if seconds < 60 {
        push_decimal(&mut s, seconds);
        push_char(&mut s, 's');
    } else if minutes < 60 {
        push_decimal(&mut s, minutes);
        push_char(&mut s, 'm');
    } else if hours < 24 {
        push_decimal(&mut s, hours);
        push_char(&mut s, 'h');
    } else {
        push_decimal(&mut s, days);
        push_char(&mut s, 'd');
    }
    assert(s@ =~= duration_text(ms as nat));
    s
}

} // verus!
