//! The scripts that hide and show applications on macOS, and how their
//! output is read.
use vstd::prelude::*;

use crate::models::chars_are;
use crate::text::{
    chars_of, concat_chars, has_substring, lit_then, lowercase_of, lower_chars, contains_chars,
    slice_chars, split_char, split_on_char, string_of, strip_leading, strip_leading_chars, trim,
    trim_chars, views,
};

verus! {

/// The script that minimizes the front window of process `app`.
pub open spec fn minimize_script_text(app: Seq<char>) -> Seq<char> {
    "tell application \"System Events\" to tell process \""@ + app
        + "\" to set value of attribute \"AXMinimized\" of window 1 to true"@
}

/// The script that minimizes the front window of process `app_name`.
pub fn minimize_script(app_name: &str) -> (res: String)
    ensures
        res@ == minimize_script_text(app_name@),
{
    let a = lit_then("tell application \"System Events\" to tell process \"", &chars_of(app_name));
    string_of(&concat_chars(&a, &chars_of("\" to set value of attribute \"AXMinimized\" of window 1 to true")))
}

/// The script that hides `app_name` when minimizing fails.
pub fn hide_fallback_script(app_name: &str) -> (res: String)
    ensures
        res@ == "tell application \""@ + app_name@ + "\" to set visible to false"@,
{
    let a = lit_then("tell application \"", &chars_of(app_name));
    string_of(&concat_chars(&a, &chars_of("\" to set visible to false")))
}

/// The script that brings `app_name` to the front.
pub fn activate_script(app_name: &str) -> (res: String)
    ensures
        res@ == "tell application \""@ + app_name@ + "\" to activate"@,
{
    let a = lit_then("tell application \"", &chars_of(app_name));
    string_of(&concat_chars(&a, &chars_of("\" to activate")))
}

/// The script that lists the running processes.
pub const LIST_PROCESSES_SCRIPT: &'static str = "tell application \"System Events\" to get name of application processes";

/// The script that activates Velosi under either spelling of its name.
pub const ACTIVATE_VELOSI_SCRIPT: &'static str = "try\n    tell application \"Velosi\" to activate\non error\n    try\n        tell application \"velosi\" to activate\n    end try\nend try";

/// `s` without trailing occurrences of `c`.
pub open spec fn strip_trailing(s: Seq<char>, c: char) -> Seq<char>
    decreases s.len(),
{
    if s.len() > 0 && s.last() == c {
        strip_trailing(s.drop_last(), c)
    } else {
        s
    }
}

/// A process name as listed: trimmed, without surrounding quotes.
pub open spec fn clean_name(p: Seq<char>) -> Seq<char> {
    strip_trailing(strip_leading(trim(p), '"'), '"')
}

/// Whether a listed name is Velosi's.
pub open spec fn is_velosi_name(n: Seq<char>) -> bool {
    n.len() > 0 && has_substring(lowercase_of(n), "velosi"@)
}

/// The first listed name that is Velosi's.
pub open spec fn first_velosi(ps: Seq<Seq<char>>) -> Option<Seq<char>>
    decreases ps.len(),
{
    if ps.len() == 0 {
        None
    } else if is_velosi_name(clean_name(ps[0])) {
        Some(clean_name(ps[0]))
    } else {
        first_velosi(ps.drop_first())
    }
}

/// `s` without trailing occurrences of `c`.
fn strip_trailing_chars(s: &Vec<char>, c: char) -> (res: Vec<char>)
    ensures
        res@ == strip_trailing(s@, c),
{
    let mut j: usize = s.len();
    assert(s@.take(j as int) =~= s@);
    while j > 0 && s[j - 1] == c
        invariant
            j <= s@.len(),
            strip_trailing(s@, c) == strip_trailing(s@.take(j as int), c),
        decreases j,
    {
        assert(s@.take(j as int).drop_last() =~= s@.take(j - 1));
        j = j - 1;
    }
    let r = slice_chars(s, 0, j);
    assert(r@ =~= s@.take(j as int));
    r
}

/// A listed process name, cleaned.
fn clean_name_chars(p: &Vec<char>) -> (res: Vec<char>)
    ensures
        res@ == clean_name(p@),
{
    let t = trim_chars(p);
    let a = strip_leading_chars(&t, '"');
    strip_trailing_chars(&a, '"')
}

/// The name of Velosi's process in the process list (names separated by
/// commas, possibly quoted), if it is running.
pub fn find_velosi_process(list_output: &str) -> (res: Option<String>)
    ensures
        match res {
            Some(n) => first_velosi(split_char(list_output@, ',')) == Some(n@),
            None => first_velosi(split_char(list_output@, ',')) is None,
        },
{
    let pieces = split_on_char(&chars_of(list_output), ',');
    let ghost ps = views(pieces@);
    let mut i: usize = 0;
    assert(ps.skip(0) =~= ps);
    let word = chars_of("velosi");
    while i < pieces.len()
        invariant
            i <= pieces@.len(),
            ps == views(pieces@),
            ps == split_char(list_output@, ','),
            ps.len() == pieces@.len(),
            word@ == "velosi"@,
            first_velosi(ps) == first_velosi(ps.skip(i as int)),
        decreases pieces@.len() - i,
    {
        assert(ps.skip(i as int)[0] == pieces@[i as int]@);
        assert(ps.skip(i as int).drop_first() =~= ps.skip(i + 1));
        let n = clean_name_chars(&pieces[i]);
        if n.len() > 0 && contains_chars(&lower_chars(&n), &word) {
            return Some(string_of(&n));
        }
        i = i + 1;
    }
    assert(ps.skip(i as int) =~= Seq::<Seq<char>>::empty());
    None
}

/// What the user chose in the blocking dialog.
#[derive(Debug, Clone, Copy, PartialEq, Eq, Structural)]
pub enum DialogChoice {
    DisableFocusMode,
    AllowApp,
    TimedOut,
    StayFocused,
}

/// The choice that the dialog's output reports.
pub open spec fn dialog_choice_of(out: Seq<char>) -> DialogChoice {
    let r = trim(out);
    if r == "disable_focus"@ {
        DialogChoice::DisableFocusMode
    } else if r == "allow_app"@ {
        DialogChoice::AllowApp
    } else if r == "timeout"@ {
        DialogChoice::TimedOut
    } else {
        DialogChoice::StayFocused
    }
}

/// Reads the dialog's output.
pub fn dialog_choice(output: &str) -> (res: DialogChoice)
    ensures
        res == dialog_choice_of(output@),
{
    let r = trim_chars(&chars_of(output));
    if chars_are(&r, "disable_focus") {
        DialogChoice::DisableFocusMode
    } else if chars_are(&r, "allow_app") {
        DialogChoice::AllowApp
    } else if chars_are(&r, "timeout") {
        DialogChoice::TimedOut
    } else {
        DialogChoice::StayFocused
    }
}

/// How long (seconds) "Allow This App" allows an application.
pub const TEMPORARY_ALLOW_SECONDS: i64 = 1800;

/// When an allowance given from the dialog at Unix time `now` (seconds) ends.
pub fn temporary_allow_expiry(now: i64) -> (res: i64)
    requires
        now + TEMPORARY_ALLOW_SECONDS <= i64::MAX,
    ensures
        res == now + TEMPORARY_ALLOW_SECONDS,
{
    now + TEMPORARY_ALLOW_SECONDS
}


/// Whether the System Events probe succeeded: the script ran and printed
/// "system_events_ok".
pub fn system_events_granted(status_ok: bool, output: &str) -> (res: bool)
    ensures
        res == (status_ok && trim(output@) == "system_events_ok"@),
{
    status_ok && chars_are(&trim_chars(&chars_of(output)), "system_events_ok")
}

/// Whether the browser probe succeeded: the script ran and could reach the
/// browser (with or without windows).
pub fn browser_access_granted(status_ok: bool, output: &str) -> (res: bool)
    ensures
        res == (status_ok && (trim(output@) == "chrome_access_ok"@ || trim(output@)
            == "chrome_no_windows"@)),
{
    let t = trim_chars(&chars_of(output));
    status_ok && (chars_are(&t, "chrome_access_ok") || chars_are(&t, "chrome_no_windows"))
}

} // verus!
