//! Parsing of textual stack-trace lines into structured frames.
//!
//! A frame line holds at least four whitespace-separated columns; the
//! last four are, in order, the frame number, the child stack pointer,
//! the return address, and a call site of the form
//! `module+0x<hex offset>`. Debug-information fields are attached later,
//! once symbols for the module have been looked up.

use vstd::prelude::*;
use vstd::string::StrSliceExecFns;
use vstd::string::StringExecFns;

use crate::text::{
    contains_chars, contains_seq, find_last_char, last_index_of, lemma_last_index_of_bounds,
    parse_hex_u32, spec_hex_u32, split_whitespace_tokens, split_ws, strip_hex_prefix,
    strip_hex_prefix_str, trim_spaces, trim_str,
};

verus! {

/// One frame of a raw stack trace, with room for the debug information
/// attached after symbol resolution.
#[derive(Debug)]
pub struct StackFrame {
    pub frame_number: String,
    pub child_stack_pointer: String,
    pub return_address: String,
    pub module_name: String,
    pub start_rva: u32,
    pub file: Option<String>,
    pub line: Option<u32>,
    pub function: Option<String>,
    pub offset: u32,
    pub error: Option<String>,
}

/// Mathematical model of a freshly parsed frame.
pub ghost struct FrameView {
    pub frame_number: Seq<char>,
    pub child_stack_pointer: Seq<char>,
    pub return_address: Seq<char>,
    pub module_name: Seq<char>,
    pub start_rva: u32,
}

/// Whether a parsed frame holds exactly the modelled columns, with every
/// resolution field still empty.
pub open spec fn frame_matches(f: StackFrame, v: FrameView) -> bool {
    f.frame_number@ == v.frame_number && f.child_stack_pointer@ == v.child_stack_pointer
        && f.return_address@ == v.return_address && f.module_name@ == v.module_name && f.start_rva
        == v.start_rva && f.file is None && f.line is None && f.function is None && f.offset == 0
        && f.error is None
}

/// The frame a single line parses to: its last four columns, with the
/// call-site column split at its last `+` into a module name and a
/// 32-bit hexadecimal offset (an optional `0x` prefix is allowed).
/// Nothing when the line has fewer than four columns, no `+`, or a
/// malformed or oversized offset.
pub open spec fn spec_parse_frame(line: Seq<char>) -> Option<FrameView> {
    let parts = split_ws(line);
    if parts.len() < 4 {
        None
    } else {
        let call_site = parts[parts.len() - 1];
        let k = last_index_of(call_site, '+');
        if k < 0 {
            None
        } else {
            let digits = strip_hex_prefix(call_site.skip(k + 1));
            match spec_hex_u32(digits) {
                Some(rva) => Some(
                    FrameView {
                        frame_number: parts[parts.len() - 4],
                        child_stack_pointer: parts[parts.len() - 3],
                        return_address: parts[parts.len() - 2],
                        module_name: call_site.take(k),
                        start_rva: rva,
                    },
                ),
                None => None,
            }
        }
    }
}

/// Converts a single textual stack trace line into a structured frame.
pub fn create_stack_frame(line: &str) -> (r: Option<StackFrame>)
    ensures
        match (r, spec_parse_frame(line@)) {
            (Some(f), Some(v)) => frame_matches(f, v),
            (None, None) => true,
            _ => false,
        },
{
    let tokens = split_whitespace_tokens(line);
    let ghost parts = split_ws(line@);
    if tokens.len() < 4 {
        return None;
    }
    let idx = tokens.len();
    let call_site: &String = &tokens[idx - 1];
    proof {
        assert(call_site@ == parts[parts.len() - 1]);
    }
    let k = match find_last_char(call_site.as_str(), '+') {
        Some(k) => k,
        None => { return None },
    };
    proof {
        lemma_last_index_of_bounds(call_site@, '+');
    }
    let m = call_site.as_str().unicode_len();
    let after = call_site.as_str().substring_char(k + 1, m);
    proof {
        assert(after@ =~= call_site@.skip(k + 1));
    }
    let digits = strip_hex_prefix_str(after);
    let rva = match parse_hex_u32(digits) {
        Some(rva) => rva,
        None => { return None },
    };
    let module_name = call_site.as_str().substring_char(0, k).to_owned();
    proof {
        assert(module_name@ =~= call_site@.take(k as int));
        assert(tokens@[idx - 2]@ == parts[parts.len() - 2]);
        assert(tokens@[idx - 3]@ == parts[parts.len() - 3]);
        assert(tokens@[idx - 4]@ == parts[parts.len() - 4]);
    }
    let return_address = tokens[idx - 2].clone();
    let child_stack_pointer = tokens[idx - 3].clone();
    let frame_number = tokens[idx - 4].clone();
    Some(
        StackFrame {
            frame_number,
            child_stack_pointer,
            return_address,
            module_name,
            start_rva: rva,
            file: None,
            line: None,
            function: None,
            offset: 0,
            error: None,
        },
    )
}

/// The header marker that identifies a column-caption line rather than a
/// frame.
pub open spec fn return_address_marker() -> Seq<char> {
    seq!['R', 'e', 't', 'u', 'r', 'n', ' ', 'A', 'd', 'd', 'r', 'e', 's', 's']
}

/// The frame a raw input line contributes: the line is trimmed first;
/// blank lines and header lines (those carrying the column captions) are
/// skipped.
pub open spec fn spec_line_frame(line: Seq<char>) -> Option<FrameView> {
    let t = trim_spaces(line);
    if t.len() == 0 {
        None
    } else if contains_seq(t, return_address_marker()) {
        None
    } else {
        spec_parse_frame(t)
    }
}

/// The frames of a whole stack-trace text, in input order, one per line
/// that parses; blank, header and malformed lines contribute nothing.
pub open spec fn spec_parse_frames(lines: Seq<Seq<char>>) -> Seq<FrameView>
    decreases lines.len(),
{
    if lines.len() == 0 {
        Seq::empty()
    } else {
        let rest = spec_parse_frames(lines.drop_last());
        match spec_line_frame(lines.last()) {
            Some(v) => rest.push(v),
            None => rest,
        }
    }
}

/// Parses the stack trace text into a list of stack frames, skipping
/// blank lines, header lines and lines that do not parse.
pub fn create_stack_frames(stack_frames: Vec<String>) -> (r: Vec<StackFrame>)
    ensures
        r@.len() == spec_parse_frames(stack_frames@.map_values(|l: String| l@)).len(),
        forall|i: int|
            0 <= i < r@.len() ==> frame_matches(
                #[trigger] r@[i],
                spec_parse_frames(stack_frames@.map_values(|l: String| l@))[i],
            ),
{
    let ghost glines = stack_frames@.map_values(|l: String| l@);
    let mut marker: Vec<char> = vec!['R', 'e', 't', 'u', 'r', 'n', ' ', 'A', 'd', 'd', 'r', 'e', 's', 's'];
    proof {
        assert(marker@ =~= return_address_marker());
    }
    let n = stack_frames.len();
    let mut out: Vec<StackFrame> = Vec::new();
    for i in 0..n
        invariant
            n == stack_frames@.len(),
            glines == stack_frames@.map_values(|l: String| l@),
            marker@ == return_address_marker(),
            out@.len() == spec_parse_frames(glines.take(i as int)).len(),
            forall|j: int|
                0 <= j < out@.len() ==> frame_matches(
                    #[trigger] out@[j],
                    spec_parse_frames(glines.take(i as int))[j],
                ),
    {
        proof {
            assert(glines.take(i + 1).drop_last() =~= glines.take(i as int));
            assert(glines.take(i + 1).last() == glines[i as int]);
            assert(glines[i as int] == stack_frames@[i as int]@);
        }
        let line: &String = &stack_frames[i];
        let t = trim_str(line.as_str());
        if !t.is_empty() && !contains_chars(t, &marker) {
            match create_stack_frame(t) {
                Some(frame) => {
                    out.push(frame);
                },
                None => {},
            }
        }
    }
    proof {
        assert(glines.take(n as int) =~= glines);
    }
    out
}

impl StackFrame {
    /// Attaches the outcome of a successful symbol lookup: the source
    /// file, line and function, and the frame's offset from the start of
    /// the resolved function.
    pub fn apply_resolution(
        &mut self,
        file: String,
        line: u32,
        function: String,
        function_start_rva: u32,
    )
        requires
            function_start_rva <= old(self).start_rva,
        ensures
            final(self).file == Some(file),
            final(self).line == Some(line),
            final(self).function == Some(function),
            final(self).offset == old(self).start_rva - function_start_rva,
            final(self).frame_number == old(self).frame_number,
            final(self).child_stack_pointer == old(self).child_stack_pointer,
            final(self).return_address == old(self).return_address,
            final(self).module_name == old(self).module_name,
            final(self).start_rva == old(self).start_rva,
            final(self).error == old(self).error,
    {
        self.file = Some(file);
        self.line = Some(line);
        self.function = Some(function);
        self.offset = self.start_rva - function_start_rva;
    }

    /// Records why symbol lookup failed for this frame; every other
    /// field is left as parsed.
    pub fn set_error(&mut self, error: String)
        ensures
            final(self).error == Some(error),
            final(self).frame_number == old(self).frame_number,
            final(self).child_stack_pointer == old(self).child_stack_pointer,
            final(self).return_address == old(self).return_address,
            final(self).module_name == old(self).module_name,
            final(self).start_rva == old(self).start_rva,
            final(self).file == old(self).file,
            final(self).line == old(self).line,
            final(self).function == old(self).function,
            final(self).offset == old(self).offset,
    {
        self.error = Some(error);
    }
}

} // verus!
