//! The focus overlay: the address of the page that explains a block, and
//! the overlay windows to open (one per monitor) or to close.
use vstd::prelude::*;
use vstd::string::StringSliceAdditionalSpecFns;

use crate::text::{chars_of, concat_chars, decimal, decimal_string, lit_then, string_of};

verus! {

// ---------------------------------------------------------------------------
// Percent-encoding
// ---------------------------------------------------------------------------

/// The upper-case hexadecimal digit of `d` (below 16).
pub open spec fn hex_digit(d: u8) -> char {
    if d < 10 {
        ((48 + d) as u8) as char
    } else {
        ((55 + d) as u8) as char
    }
}

/// Bytes that percent-encoding leaves as they are: ASCII letters and
/// digits, `-`, `.`, `_` and `~`.
pub open spec fn is_unreserved(b: u8) -> bool {
    (48 <= b <= 57) || (65 <= b <= 90) || (97 <= b <= 122) || b == 45 || b == 46 || b == 95
        || b == 126
}

/// The encoding of one byte: itself when unreserved, else `%` and two
/// upper-case hexadecimal digits.
pub open spec fn encode_byte(b: u8) -> Seq<char> {
    if is_unreserved(b) {
        seq![b as char]
    } else {
        seq!['%', hex_digit(b / 16), hex_digit(b % 16)]
    }
}

/// The percent-encoding of a byte sequence, byte by byte.
pub open spec fn percent_encoded(bytes: Seq<u8>) -> Seq<char>
    decreases bytes.len(),
{
    if bytes.len() == 0 {
        Seq::empty()
    } else {
        percent_encoded(bytes.drop_last()) + encode_byte(bytes.last())
    }
}

/// Calls `urlencoding::encode`, which percent-encodes every byte of the
/// UTF-8 form of `s` but ASCII letters, digits, `-`, `.`, `_` and `~`,
/// with upper-case hexadecimal digits.
#[verifier::external_body]
fn url_encode(s: &str) -> (res: String)
    ensures
        res@ == percent_encoded(s.spec_bytes()),
{
    urlencoding::encode(s).into_owned()
}

// ---------------------------------------------------------------------------
// Overlay windows
// ---------------------------------------------------------------------------

/// The address of the overlay page that explains why `app_name` is blocked.
pub fn focus_overlay_url(app_name: &str, reason: &str) -> (res: String)
    ensures
        res@ == "/focus-overlay?app_name="@ + percent_encoded(app_name.spec_bytes()) + "&reason="@
            + percent_encoded(reason.spec_bytes()),
{
    let a = url_encode(app_name);
    let r = url_encode(reason);
    let head = lit_then("/focus-overlay?app_name=", &chars_of(a.as_str()));
    let mid = concat_chars(&head, &chars_of("&reason="));
    string_of(&concat_chars(&mid, &chars_of(r.as_str())))
}

/// An overlay window to show.
#[derive(Debug, Clone)]
pub struct OverlayWindow {
    pub label: String,
    pub title: String,
    /// The monitor it covers; `None` for one full-screen overlay.
    pub monitor: Option<usize>,
    /// Whether it takes the focus.
    pub focused: bool,
}

/// The label of the overlay on monitor `i`.
pub open spec fn monitor_label(i: nat) -> Seq<char> {
    "focus-overlay-"@ + decimal(i)
}

/// The title of the overlay on monitor `i`, counted from one.
pub open spec fn monitor_title(i: nat) -> Seq<char> {
    "Focus Mode - App Blocked (Monitor "@ + decimal(i + 1) + ")"@
}

/// The label of monitor `i`'s overlay.
fn monitor_label_exec(i: usize) -> (res: String)
    ensures
        res@ == monitor_label(i as nat),
{
    string_of(&lit_then("focus-overlay-", &chars_of(decimal_string(i as u64).as_str())))
}

/// The overlays to show on `monitor_count` monitors: one per monitor when
/// there are several, the first focused; else a single full-screen one.
pub fn overlay_windows(monitor_count: usize) -> (res: Vec<OverlayWindow>)
    requires
        monitor_count < u64::MAX,
    ensures
        monitor_count > 1 ==> res@.len() == monitor_count && forall|i: int|
            0 <= i < monitor_count ==> {
                &&& (#[trigger] res@[i]).label@ == monitor_label(i as nat)
                &&& res@[i].title@ == monitor_title(i as nat)
                &&& res@[i].monitor == Some(i as usize)
                &&& res@[i].focused == (i == 0)
            },
        monitor_count <= 1 ==> res@.len() == 1 && res@[0].label@ == "focus-overlay"@ && res@[0].title@
            == "Focus Mode - App Blocked"@ && res@[0].monitor is None && res@[0].focused,
{
    let mut res: Vec<OverlayWindow> = Vec::new();
    if monitor_count <= 1 {
        res.push(
            OverlayWindow {
                label: String::from_str("focus-overlay"),
                title: String::from_str("Focus Mode - App Blocked"),
                monitor: None,
                focused: true,
            },
        );
        return res;
    }
    let mut i: usize = 0;
    while i < monitor_count
        invariant
            i <= monitor_count,
            monitor_count < u64::MAX,
            res@.len() == i,
            forall|k: int|
                0 <= k < i ==> {
                    &&& (#[trigger] res@[k]).label@ == monitor_label(k as nat)
                    &&& res@[k].title@ == monitor_title(k as nat)
                    &&& res@[k].monitor == Some(k as usize)
                    &&& res@[k].focused == (k == 0)
                },
        decreases monitor_count - i,
    {
        let num = decimal_string((i as u64) + 1);
        let head = lit_then("Focus Mode - App Blocked (Monitor ", &chars_of(num.as_str()));
        let title = string_of(&concat_chars(&head, &chars_of(")")));
        res.push(
            OverlayWindow {
                label: monitor_label_exec(i),
                title,
                monitor: Some(i),
                focused: i == 0,
            },
        );
        i = i + 1;
    }
    res
}

/// How many per-monitor overlays are looked for when closing.
pub const MAX_OVERLAY_MONITORS: usize = 10;

/// The labels of the overlays to close: those of the first ten monitors,
/// then the single full-screen one.
pub fn overlay_labels_to_close() -> (res: Vec<String>)
    ensures
        res@.len() == MAX_OVERLAY_MONITORS + 1,
        forall|i: int| 0 <= i < MAX_OVERLAY_MONITORS ==> (#[trigger] res@[i])@ == monitor_label(i as nat),
        res@[MAX_OVERLAY_MONITORS as int]@ == "focus-overlay"@,
{
    let mut res: Vec<String> = Vec::new();
    let mut i: usize = 0;
    while i < MAX_OVERLAY_MONITORS
        invariant
            i <= MAX_OVERLAY_MONITORS,
            res@.len() == i,
            forall|k: int| 0 <= k < i ==> (#[trigger] res@[k])@ == monitor_label(k as nat),
        decreases MAX_OVERLAY_MONITORS - i,
    {
        res.push(monitor_label_exec(i));
        i = i + 1;
    }
    res.push(String::from_str("focus-overlay"));
    res
}

} // verus!
