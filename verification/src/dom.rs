use vstd::prelude::*;
use vstd::string::StringExecFns;
use crate::text::{decimal, is_blank, spec_decimal, spec_is_blank};

verus! {

/// Opens a script that selects elements; the selectors follow.
pub const SELECT_OPEN: &'static str = "(function() { let elements = document.querySelectorAll(\"";

/// Closes a script that hides the selected elements.
pub const HIDE_CLOSE: &'static str = "\"); elements.forEach(e => e.style.visibility = 'hidden'); })();";

/// Closes a script that gives the selected elements their visibility back.
pub const SHOW_CLOSE: &'static str = "\"); elements.forEach(e => e.style.visibility = ''); })();";

/// Opens a script that asks the selected elements for their visibility.
pub const HIDDEN_OPEN: &'static str = "return Array.from(document.querySelectorAll(\"";

/// Closes a script that asks whether the selected elements are hidden.
pub const HIDDEN_CLOSE: &'static str = "\")).every(e => getComputedStyle(e).visibility === \"hidden\");";

/// Closes a script that asks whether the selected elements are visible.
pub const SHOWN_CLOSE: &'static str = "\")).every(e => getComputedStyle(e).visibility !== \"hidden\");";

/// Opens a relative scroll; the amount follows.
pub const SCROLL_OPEN: &'static str = "window.scrollBy(0, ";

/// Closes a relative scroll.
pub const SCROLL_CLOSE: &'static str = ");";

/// Reads the scroll offset.
pub const SCROLL_POSITION_SCRIPT: &'static str = "return window.scrollY;";

/// Reads how far the document has loaded.
pub const READY_STATE_SCRIPT: &'static str = "return document.readyState";

/// Reads the page's scroll height and the window's inner height.
pub const PAGE_METRICS_SCRIPT: &'static str =
    "return { innerHeight: window.innerHeight, totalScrollHeight: document.documentElement.scrollHeight };";

/// The script that hides the elements that `selectors` match; none where
/// `selectors` is blank, for then there is nothing to hide.
pub open spec fn hide_script(selectors: Seq<char>) -> Option<Seq<char>> {
    if spec_is_blank(selectors) {
        None
    } else {
        Some(SELECT_OPEN@ + selectors + HIDE_CLOSE@)
    }
}

/// The script that shows the elements that `selectors` match again; none
/// where `selectors` is blank.
pub open spec fn show_script(selectors: Seq<char>) -> Option<Seq<char>> {
    if spec_is_blank(selectors) {
        None
    } else {
        Some(SELECT_OPEN@ + selectors + SHOW_CLOSE@)
    }
}

/// Whether a script is the one expected, or absent as expected.
pub open spec fn script_is(script: Option<String>, expected: Option<Seq<char>>) -> bool {
    match script {
        Some(text) => expected == Some(text@),
        None => expected is None,
    }
}

fn selector_script(open: &str, selectors: &str, close: &str) -> (script: String)
    ensures
        script@ == open@ + selectors@ + close@,
{
    let mut script = String::from_str(open);
    script.append(selectors);
    script.append(close);
    script
}

/// The script to run on the remote surface to hide the elements that
/// `selectors` match. With blank selectors there is none: hiding then
/// succeeds without touching the surface.
pub fn hide_elements(selectors: &str) -> (script: Option<String>)
    ensures
        script_is(script, hide_script(selectors@)),
{
    if is_blank(selectors) {
        None
    } else {
        Some(selector_script(SELECT_OPEN, selectors, HIDE_CLOSE))
    }
}

/// The script to run on the remote surface to show the elements that
/// `selectors` match again. With blank selectors there is none: showing then
/// succeeds without touching the surface.
pub fn show_elements(selectors: &str) -> (script: Option<String>)
    ensures
        script_is(script, show_script(selectors@)),
{
    if is_blank(selectors) {
        None
    } else {
        Some(selector_script(SELECT_OPEN, selectors, SHOW_CLOSE))
    }
}

/// The script that asks the remote surface whether every element that
/// `selectors` match reports itself hidden.
pub fn hidden_check_script(selectors: &str) -> (script: String)
    ensures
        script@ == HIDDEN_OPEN@ + selectors@ + HIDDEN_CLOSE@,
{
    selector_script(HIDDEN_OPEN, selectors, HIDDEN_CLOSE)
}

/// The script that asks the remote surface whether no element that
/// `selectors` match reports itself hidden any more.
pub fn shown_check_script(selectors: &str) -> (script: String)
    ensures
        script@ == HIDDEN_OPEN@ + selectors@ + SHOWN_CLOSE@,
{
    selector_script(HIDDEN_OPEN, selectors, SHOWN_CLOSE)
}

/// The script that scrolls the page down by `pixels` logical rows.
pub fn scroll_by(pixels: u32) -> (script: String)
    ensures
        script@ == SCROLL_OPEN@ + spec_decimal(pixels as nat) + SCROLL_CLOSE@,
{
    let amount = decimal(pixels);
    selector_script(SCROLL_OPEN, amount.as_str(), SCROLL_CLOSE)
}

/// The offset that a reading of the scroll position stands for.
pub open spec fn position_of(reading: Option<i64>) -> nat {
    match reading {
        Some(offset) => if offset <= 0 {
            0
        } else if offset > u32::MAX {
            u32::MAX as nat
        } else {
            offset as nat
        },
        None => 0,
    }
}

/// Reads the remote surface's answer to the scroll-position script: its
/// number, held to the range of offsets, and zero where it gave none.
pub fn get_scroll_position(reading: Option<i64>) -> (offset: u32)
    ensures
        offset == position_of(reading),
{
    match reading {
        Some(value) => if value <= 0 {
            0
        } else if value > 0xFFFF_FFFFi64 {
            0xFFFF_FFFFu32
        } else {
            value as u32
        },
        None => 0,
    }
}

} // verus!
