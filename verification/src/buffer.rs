//! Bounded, self-resetting console buffers.
//!
//! Each child's console output accumulates in a byte buffer capped at
//! 500,000 bytes. Before each epoch's append the buffer is checked: past
//! the leeway threshold it is cleared and replaced with a short rotation
//! notice, so the append that follows never pushes it past the cap.

use vstd::prelude::*;
use crate::fmt::{ascii, push_lit};
use crate::process::{ProcessName, name_text, name_bytes, hori_text, push_hori};
use crate::{MAX_GUI_OUTPUT_BYTES, GUI_OUTPUT_LEEWAY};

verus! {

/// The one-line notice that replaces a rotated log, bracketed by the
/// horizontal rule and followed by three blank lines.
pub open spec fn reset_notice(name: ProcessName) -> Seq<u8> {
    hori_text() + seq![('\n' as u8)] + name_text(name) + ascii(
        " GUI log is exceeding the maximum: 500000 bytes!"@,
    ) + seq![('\n' as u8)] + ascii("I've reset the logs for you!"@) + seq![('\n' as u8)]
        + hori_text() + seq![('\n' as u8), ('\n' as u8), ('\n' as u8), ('\n' as u8)]
}

/// What the epoch's reset check leaves in the buffer: unchanged under
/// the leeway threshold, else the rotation notice alone.
pub open spec fn checked(s: Seq<u8>, name: ProcessName) -> Seq<u8> {
    if s.len() > GUI_OUTPUT_LEEWAY {
        reset_notice(name)
    } else {
        s
    }
}

/// Render the rotation notice.
pub fn render_reset_notice(name: ProcessName) -> (r: Vec<u8>)
    ensures
        r@ == reset_notice(name),
        r@.len() <= GUI_OUTPUT_LEEWAY,
{
    let mut v: Vec<u8> = Vec::new();
    push_hori(&mut v);
    v.push('\n' as u8);
    let mut n = name_bytes(name);
    v.append(&mut n);
    proof {
        reveal_strlit("P2Pool");
        reveal_strlit("XMRig");
        reveal_strlit(
            "--------------------------------------------------------------------------------",
        );
        reveal_strlit(" GUI log is exceeding the maximum: 500000 bytes!");
        reveal_strlit("I've reset the logs for you!");
    }
    push_lit(&mut v, " GUI log is exceeding the maximum: 500000 bytes!");
    v.push('\n' as u8);
    push_lit(&mut v, "I've reset the logs for you!");
    v.push('\n' as u8);
    push_hori(&mut v);
    v.push('\n' as u8);
    v.push('\n' as u8);
    v.push('\n' as u8);
    v.push('\n' as u8);
    assert(v@ =~= reset_notice(name));
    v
}

/// Reset the console buffer if it is nearing the cap, replacing it with
/// the rotation notice; a buffer still under the leeway is untouched.
/// Either way the buffer leaves under the leeway threshold.
pub fn check_reset_gui_output(output: &mut Vec<u8>, name: ProcessName)
    requires
        old(output)@.len() <= MAX_GUI_OUTPUT_BYTES,
    ensures
        final(output)@ == checked(old(output)@, name),
        final(output)@.len() <= GUI_OUTPUT_LEEWAY,
{
    if output.len() > GUI_OUTPUT_LEEWAY {
        let mut notice = render_reset_notice(name);
        output.clear();
        output.append(&mut notice);
        assert(output@ =~= checked(old(output)@, name));
    }
}

/// Append one epoch's console bytes.
pub fn append_output(output: &mut Vec<u8>, chunk: &Vec<u8>)
    ensures
        final(output)@ == old(output)@ + chunk@,
{
    let mut c = chunk.clone();
    assert(c@ == chunk@);
    output.append(&mut c);
}

/// A console buffer that was reset-checked and then grew by at most the
/// leeway's complement stays under the 500,000-byte cap. (A single epoch
/// that appends more than that complement can push past the cap; the
/// watchdog's epochs stay well under it.)
pub proof fn law_output_bounded(s: Seq<u8>, chunk: Seq<u8>, name: ProcessName)
    requires
        chunk.len() <= MAX_GUI_OUTPUT_BYTES - GUI_OUTPUT_LEEWAY,
    ensures
        (checked(s, name) + chunk).len() <= MAX_GUI_OUTPUT_BYTES,
{
    reveal_strlit("P2Pool");
    reveal_strlit("XMRig");
    reveal_strlit("--------------------------------------------------------------------------------");
    reveal_strlit(" GUI log is exceeding the maximum: 500000 bytes!");
    reveal_strlit("I've reset the logs for you!");
    assert(hori_text().len() == 80);
    assert(reset_notice(name).len() <= GUI_OUTPUT_LEEWAY);
}

} // verus!
