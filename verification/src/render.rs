//! The renderer's pure side: the pinned footer line padded to the current
//! terminal width, and the coloured origin prefix put before each log line.
//! Writing to the terminal, raw-mode switching and width queries stay with
//! the caller.

use vstd::prelude::*;
use vstd::string::StringExecFns;
use crate::models::LogMessage;
use crate::text::chars_of;

verus! {

/// The footer text pinned to the terminal's bottom line.
pub open spec fn footer_text() -> Seq<char> {
    " [s] Search History | [q] Quit "@
}

/// The footer, padded with spaces to fill a line of `cols` columns without
/// wrapping; wider text than the line is left unpadded.
pub open spec fn footer_spec(cols: int) -> Seq<char> {
    let t = footer_text();
    if cols > t.len() {
        t + Seq::new((cols - t.len()) as nat, |i: int| ' ')
    } else {
        t
    }
}

/// Build the footer for the width the terminal has right now; the width is
/// re-read by the caller on every redraw, never cached.
pub fn footer_line(cols: u16) -> (r: String)
    ensures
        r@ == footer_spec(cols as int),
{
    let mut r = String::from_str(" [s] Search History | [q] Quit ");
    let tc = chars_of(" [s] Search History | [q] Quit ");
    let text_len = tc.len();
    let width = cols as usize;
    if width > text_len {
        let mut i: usize = text_len;
        while i < width
            invariant
                text_len == footer_text().len(),
                text_len <= i <= width,
                r@ == footer_text() + Seq::new((i - text_len) as nat, |j: int| ' '),
            decreases width - i,
        {
            r.append(" ");
            proof {
                reveal_strlit(" ");
                assert(r@ =~= footer_text() + Seq::new((i + 1 - text_len) as nat, |j: int| ' '));
            }
            i = i + 1;
        }
    } else {
        proof {
            assert(r@ =~= footer_spec(cols as int));
        }
    }
    r
}

/// The colour given to a pod's prefix, keyed off the pod name's byte
/// length, so equal names always get equal colours.
#[derive(PartialEq, Eq, Structural, Clone, Copy, Debug)]
pub enum PrefixColor {
    Cyan,
    Green,
    Magenta,
    Yellow,
}

/// The colour for a pod name of `n` bytes: cycled through four colours.
pub open spec fn prefix_color_spec(n: int) -> PrefixColor {
    if n % 4 == 0 {
        PrefixColor::Cyan
    } else if n % 4 == 1 {
        PrefixColor::Green
    } else if n % 4 == 2 {
        PrefixColor::Magenta
    } else {
        PrefixColor::Yellow
    }
}

/// Pick the prefix colour for a pod name.
pub fn prefix_color(pod_name: &str) -> (r: PrefixColor)
    ensures
        r == prefix_color_spec(pod_name.len() as int),
{
    let n = pod_name.len() % 4;
    if n == 0 {
        PrefixColor::Cyan
    } else if n == 1 {
        PrefixColor::Green
    } else if n == 2 {
        PrefixColor::Magenta
    } else {
        PrefixColor::Yellow
    }
}

/// The origin tag put before a printed line: `[pod/container]`.
pub fn line_prefix(m: &LogMessage) -> (r: String)
    ensures
        r@ == "["@ + m@.pod_name + "/"@ + m@.container_name + "]"@,
{
    let mut s = String::from_str("[");
    s.append(m.pod_name.as_str());
    s.append("/");
    s.append(m.container_name.as_str());
    s.append("]");
    s
}

} // verus!
