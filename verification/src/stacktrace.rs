//! Rendering of a stack trace as plain text lines.
//!
//! Given the frames an unwinder produced for a halted core, each frame
//! becomes a header line `Frame <i>: <function> @ <pc>` (with an ` inline`
//! marker for inlined call sites) and, when a source location is known, a
//! second line indented seven spaces with `<dir>/<file>:<line>:<col>`,
//! omitting the components the unwinder did not report.

use vstd::prelude::*;
use vstd::string::*;

verus! {

/// Column report of a source location.
#[derive(Clone, Copy, PartialEq, Eq, Structural, Debug)]
pub enum ColumnType {
    /// The location points at the left edge of the line; rendered as
    /// column 1.
    LeftEdge,
    /// A literal column number.
    Column(u64),
}

/// Source location of a stack frame, every component optional.
#[derive(Debug)]
pub struct SourceLocation {
    /// Directory of the source file.
    pub directory: Option<String>,
    /// Name of the source file.
    pub file: Option<String>,
    /// Line number.
    pub line: Option<u64>,
    /// Column within that line.
    pub column: Option<ColumnType>,
}

/// One frame of an unwound stack trace.
#[derive(Debug)]
pub struct StackFrame {
    /// Name of the function the frame executes.
    pub function_name: String,
    /// Program counter of the frame.
    pub pc: u64,
    /// Whether the frame is an inlined call site.
    pub is_inlined: bool,
    /// Source location, when the debug info knows one.
    pub source_location: Option<SourceLocation>,
}

/// The decimal digit character for a value below ten.
pub open spec fn spec_digit(d: int) -> char {
    if d == 0 {
        '0'
    } else if d == 1 {
        '1'
    } else if d == 2 {
        '2'
    } else if d == 3 {
        '3'
    } else if d == 4 {
        '4'
    } else if d == 5 {
        '5'
    } else if d == 6 {
        '6'
    } else if d == 7 {
        '7'
    } else if d == 8 {
        '8'
    } else {
        '9'
    }
}

/// The usual decimal rendering of a non-negative number: no sign, no
/// leading zeroes (a lone zero for zero).
pub open spec fn spec_decimal(n: nat) -> Seq<char>
    decreases n,
{
    if n < 10 {
        seq![spec_digit(n as int)]
    } else {
        spec_decimal(n / 10) + seq![spec_digit((n % 10) as int)]
    }
}

/// The one-character string slice for a decimal digit.
fn digit_str(d: u64) -> (s: &'static str)
    requires
        d < 10,
    ensures
        s@ == seq![spec_digit(d as int)],
{
    proof {
        reveal_strlit("0");
        reveal_strlit("1");
        reveal_strlit("2");
        reveal_strlit("3");
        reveal_strlit("4");
        reveal_strlit("5");
        reveal_strlit("6");
        reveal_strlit("7");
        reveal_strlit("8");
        reveal_strlit("9");
    }
    let s = match d {
        0 => "0",
        1 => "1",
        2 => "2",
        3 => "3",
        4 => "4",
        5 => "5",
        6 => "6",
        7 => "7",
        8 => "8",
        _ => "9",
    };
    proof {
        assert(s@ =~= seq![spec_digit(d as int)]);
    }
    s
}

/// Renders a number in decimal.
pub fn decimal_string(n: u64) -> (s: String)
    ensures
        s@ == spec_decimal(n as nat),
    decreases n,
{
    if n < 10 {
        String::from_str(digit_str(n))
    } else {
        let mut s = decimal_string(n / 10);
        s.append(digit_str(n % 10));
        proof {
            assert(s@ =~= spec_decimal(n as nat));
        }
        s
    }
}

/// The header line of a frame: `Frame <i>: <function> @ <pc>`, with an
/// ` inline` marker appended for an inlined call site.
pub open spec fn spec_frame_header(index: nat, frame: StackFrame) -> Seq<char> {
    "Frame "@ + spec_decimal(index) + ": "@ + frame.function_name@ + " @ "@ + spec_decimal(
        frame.pc as nat,
    ) + (if frame.is_inlined {
        " inline"@
    } else {
        Seq::<char>::empty()
    })
}

/// Whether a known source location produces a location line at all: it
/// does as soon as a directory or a file name is known.
pub open spec fn spec_has_location_line(location: SourceLocation) -> bool {
    location.directory is Some || location.file is Some
}

/// The text of a location after the indentation: the directory (if any),
/// then `/<file>` (if any), then `:<line>` (if any, and only with a file),
/// then `:<col>` (if any, and only with a line), a left-edge column
/// rendering as 1.
pub open spec fn spec_location_text(location: SourceLocation) -> Seq<char> {
    (match location.directory {
        Some(directory) => directory@,
        None => Seq::<char>::empty(),
    }) + (match location.file {
        Some(file) => "/"@ + file@ + (match location.line {
            Some(line) => ":"@ + spec_decimal(line as nat) + (match location.column {
                Some(ColumnType::LeftEdge) => ":1"@,
                Some(ColumnType::Column(column)) => ":"@ + spec_decimal(column as nat),
                None => Seq::<char>::empty(),
            }),
            None => Seq::<char>::empty(),
        }),
        None => Seq::<char>::empty(),
    })
}

/// The location line of a frame: seven spaces of indentation, then the
/// location text.
pub open spec fn spec_location_line(location: SourceLocation) -> Seq<char> {
    "       "@ + spec_location_text(location)
}

/// The lines one frame renders to: the header, then the location line
/// when one is due.
pub open spec fn spec_frame_lines(index: nat, frame: StackFrame) -> Seq<Seq<char>> {
    seq![spec_frame_header(index, frame)] + (match frame.source_location {
        Some(location) => if spec_has_location_line(location) {
            seq![spec_location_line(location)]
        } else {
            Seq::<Seq<char>>::empty()
        },
        None => Seq::<Seq<char>>::empty(),
    })
}

/// The lines a run of frames renders to, the first frame numbered
/// `index`.
pub open spec fn spec_stacktrace_lines_from(frames: Seq<StackFrame>, index: nat) -> Seq<
    Seq<char>,
>
    decreases frames.len(),
{
    if frames.len() == 0 {
        Seq::<Seq<char>>::empty()
    } else {
        spec_frame_lines(index, frames[0]) + spec_stacktrace_lines_from(
            frames.skip(1),
            index + 1,
        )
    }
}

/// The lines a whole stack trace renders to, frames numbered from zero.
pub open spec fn spec_stacktrace_lines(frames: Seq<StackFrame>) -> Seq<Seq<char>> {
    spec_stacktrace_lines_from(frames, 0)
}

/// The views of a sequence of rendered lines.
pub open spec fn line_views(lines: Seq<String>) -> Seq<Seq<char>> {
    lines.map_values(|line: String| line@)
}

/// Renders the header line of one frame.
pub fn render_frame_header(index: u64, frame: &StackFrame) -> (line: String)
    ensures
        line@ == spec_frame_header(index as nat, *frame),
{
    let mut line = String::from_str("Frame ");
    let index_text = decimal_string(index);
    line.append(index_text.as_str());
    line.append(": ");
    line.append(frame.function_name.as_str());
    line.append(" @ ");
    let pc_text = decimal_string(frame.pc);
    line.append(pc_text.as_str());
    if frame.is_inlined {
        line.append(" inline");
    }
    proof {
        assert(line@ =~= spec_frame_header(index as nat, *frame));
    }
    line
}

/// Renders the location line of one frame (seven spaces, then whatever of
/// directory, file, line and column is known).
pub fn render_location_line(location: &SourceLocation) -> (line: String)
    ensures
        line@ == spec_location_line(*location),
{
    let mut line = String::from_str("       ");
    if let Some(directory) = &location.directory {
        line.append(directory.as_str());
    }
    if let Some(file) = &location.file {
        line.append("/");
        line.append(file.as_str());
        if let Some(line_number) = location.line {
            line.append(":");
            let line_text = decimal_string(line_number);
            line.append(line_text.as_str());
            if let Some(column) = location.column {
                match column {
                    ColumnType::LeftEdge => line.append(":1"),
                    ColumnType::Column(column_number) => {
                        line.append(":");
                        let column_text = decimal_string(column_number);
                        line.append(column_text.as_str());
                    },
                }
            }
        }
    }
    proof {
        assert(line@ =~= spec_location_line(*location));
    }
    line
}

/// Appending one more frame to a run extends its rendering by that
/// frame's lines, numbered right after the run.
proof fn lemma_stacktrace_lines_snoc(frames: Seq<StackFrame>, index: nat, frame: StackFrame)
    ensures
        spec_stacktrace_lines_from(frames.push(frame), index) == spec_stacktrace_lines_from(
            frames,
            index,
        ) + spec_frame_lines(index + frames.len(), frame),
    decreases frames.len(),
{
    reveal_with_fuel(spec_stacktrace_lines_from, 3);
    if frames.len() == 0 {
        assert(frames.push(frame)[frames.len() as int] == frame);
        assert(frames.push(frame).skip(1) =~= Seq::<StackFrame>::empty());
        assert(spec_stacktrace_lines_from(frames.push(frame), index)
            =~= spec_stacktrace_lines_from(frames, index) + spec_frame_lines(
            index + frames.len(),
            frame,
        ));
    } else {
        let pushed = frames.push(frame);
        let tail = frames.skip(1);
        assert(pushed[frames.len() as int] == frame);
        assert(pushed[0] == frames[0]);
        assert(pushed.skip(1) =~= tail.push(frame));
        lemma_stacktrace_lines_snoc(tail, index + 1, frame);
        assert(spec_stacktrace_lines_from(pushed, index) == spec_frame_lines(index, frames[0])
            + (spec_stacktrace_lines_from(tail, index + 1) + spec_frame_lines(
            index + frames.len(),
            frame,
        )));
        assert(spec_stacktrace_lines_from(frames, index) == spec_frame_lines(index, frames[0])
            + spec_stacktrace_lines_from(tail, index + 1));
        assert(spec_stacktrace_lines_from(pushed, index) =~= spec_stacktrace_lines_from(
            frames,
            index,
        ) + spec_frame_lines(index + frames.len(), frame));
    }
}

/// Renders a whole stack trace to its lines, frames numbered from zero.
pub fn render_stacktrace(frames: &Vec<StackFrame>) -> (lines: Vec<String>)
    ensures
        line_views(lines@) == spec_stacktrace_lines(frames@),
{
    let mut lines: Vec<String> = Vec::new();
    proof {
        assert(line_views(lines@) =~= spec_stacktrace_lines_from(frames@.take(0), 0));
    }
    let mut i: usize = 0;
    while i < frames.len()
        invariant
            i <= frames@.len(),
            line_views(lines@) == spec_stacktrace_lines_from(frames@.take(i as int), 0),
        decreases frames@.len() - i,
    {
        let frame = &frames[i];
        let header = render_frame_header(i as u64, frame);
        lines.push(header);
        if let Some(location) = &frame.source_location {
            let has_directory = location.directory.is_some();
            let has_file = location.file.is_some();
            if has_directory || has_file {
                let location_line = render_location_line(location);
                lines.push(location_line);
            }
        }
        proof {
            lemma_stacktrace_lines_snoc(frames@.take(i as int), 0, frames@[i as int]);
            assert(frames@.take(i as int + 1) =~= frames@.take(i as int).push(
                frames@[i as int],
            ));
            assert(line_views(lines@) =~= spec_stacktrace_lines_from(
                frames@.take(i as int + 1),
                0,
            ));
        }
        i = i + 1;
    }
    proof {
        assert(frames@.take(frames@.len() as int) =~= frames@);
    }
    lines
}

} // verus!
