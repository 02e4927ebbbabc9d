//! Colours for what goes to a terminal: lines of our own, and the reports of git.
//!
//! The reports are read for colouring alone. A line that is not recognised goes through
//! as it came, so a change of git's wording costs the colour and never the line.
//! Without colours not a single byte changes.

use vstd::prelude::*;
use vstd::slice::slice_subrange;
use vstd::utf8::encode_utf8;

use crate::finder::{HighlightColor, ANSI_RESET};
use crate::text::concat3;

verus! {

/// The byte of a space.
pub const SPACE: u8 = 0x20;

/// The byte of a tab.
pub const TAB: u8 = 0x09;

/// The byte of a newline.
pub const NEWLINE: u8 = 0x0a;

/// The byte of a carriage return.
pub const RETURN: u8 = 0x0d;

/// The byte of `[`.
pub const OPEN_BRACKET: u8 = 0x5b;

/// The byte of `]`.
pub const CLOSE_BRACKET: u8 = 0x5d;

/// The byte of `*`.
pub const STAR: u8 = 0x2a;

/// The byte of `t`.
pub const LETTER_T: u8 = 0x74;

/// The byte of `-`.
pub const MINUS: u8 = 0x2d;

/// The byte of `+`.
pub const PLUS: u8 = 0x2b;

/// The byte of `!`.
pub const BANG: u8 = 0x21;

/// The byte of `=`.
pub const EQUALS: u8 = 0x3d;

/// The byte of `A`.
pub const LETTER_A: u8 = 0x41;

/// The byte of `M`.
pub const LETTER_M: u8 = 0x4d;

/// The byte of `D`.
pub const LETTER_D: u8 = 0x44;

/// Where the status flag stands in a line of the fetch table.
const STATUS_FLAG_INDEX: usize = 1;

/// Where the summary starts in a line of the fetch table.
const SUMMARY_START_INDEX: usize = 3;

/// Whether `needle` occurs somewhere in `haystack`.
pub open spec fn occurs(haystack: Seq<u8>, needle: Seq<u8>) -> bool {
    exists|at: int| #[trigger] occurs_at(haystack, needle, at)
}

/// Whether `needle` stands at position `at` of `haystack`.
pub open spec fn occurs_at(haystack: Seq<u8>, needle: Seq<u8>, at: int) -> bool {
    0 <= at && at + needle.len() <= haystack.len() && haystack.subrange(at, at + needle.len())
        == needle
}

/// Whether `bytes` starts with the bytes of `prefix`.
pub open spec fn begins(bytes: Seq<u8>, prefix: Seq<char>) -> bool {
    occurs_at(bytes, encode_utf8(prefix), 0)
}

/// A coloured part of a line: from, to, colour.
pub open spec fn part(range: Option<(usize, usize, HighlightColor)>) -> Option<
    (int, int, HighlightColor),
> {
    match range {
        Some((start, end, color)) => Some((start as int, end as int, color)),
        None => None,
    }
}

/// Length of the summary in a line of the fetch table: a bracketed one goes up to its
/// closing bracket, any other up to the next space.
pub open spec fn summary_extent(summary: Seq<u8>) -> Option<int> {
    if summary.len() > 0 && summary[0] == OPEN_BRACKET {
        match summary.index_of_first(CLOSE_BRACKET) {
            Some(at) => Some(at + 1),
            None => None,
        }
    } else {
        summary.index_of_first(SPACE)
    }
}

/// The colour of a status flag: gained green, lost or replaced red, tags yellow, nothing
/// changed dim. An ordinary update takes none.
pub open spec fn color_of_flag(flag: u8, summary: Seq<u8>) -> Option<HighlightColor> {
    if flag == STAR {
        if begins(summary, "[new tag]"@) {
            Some(HighlightColor::Yellow)
        } else {
            Some(HighlightColor::Green)
        }
    } else if flag == LETTER_T {
        Some(HighlightColor::Yellow)
    } else if flag == MINUS || flag == PLUS || flag == BANG {
        Some(HighlightColor::Red)
    } else if flag == EQUALS {
        Some(HighlightColor::Dim)
    } else {
        None
    }
}

/// Whether a line has the shape of the fetch table: an arrow between two reference names,
/// and a flag between two spaces at the start.
pub open spec fn is_table_line(line: Seq<u8>) -> bool {
    &&& occurs(line, encode_utf8(" -> "@))
    &&& line.len() >= 3
    &&& line[0] == SPACE
    &&& line[2] == SPACE
}

/// The part of a line of `git fetch` that is coloured: the status flag and its summary.
pub open spec fn fetch_part(line: Seq<u8>) -> Option<(int, int, HighlightColor)> {
    if !is_table_line(line) {
        None
    } else {
        let summary = line.skip(3);
        match (summary_extent(summary), color_of_flag(line[1], summary)) {
            (Some(length), Some(color)) => Some((1, 3 + length, color)),
            _ => None,
        }
    }
}

/// The colour of a change that a switch carried over: a status letter and a tab.
pub open spec fn color_of_carried_change(line: Seq<u8>) -> Option<HighlightColor> {
    if line.len() < 2 || line[1] != TAB {
        None
    } else if line[0] == LETTER_A {
        Some(HighlightColor::Green)
    } else if line[0] == LETTER_M {
        Some(HighlightColor::Yellow)
    } else if line[0] == LETTER_D {
        Some(HighlightColor::Red)
    } else {
        None
    }
}

/// A line without the newlines and carriage returns at its end.
pub open spec fn without_line_end(line: Seq<u8>) -> Seq<u8>
    decreases line.len(),
{
    if line.len() > 0 && (line.last() == NEWLINE || line.last() == RETURN) {
        without_line_end(line.drop_last())
    } else {
        line
    }
}

/// The part of a line of `git switch` that is coloured: the letter of a carried change, or
/// the whole line but for its end.
pub open spec fn switch_part(line: Seq<u8>) -> Option<(int, int, HighlightColor)> {
    let body = without_line_end(line);
    if color_of_carried_change(line) is Some {
        Some((0, 1, color_of_carried_change(line)->0))
    } else if begins(body, "Switched to branch "@) || begins(body, "Switched to a new branch "@) {
        Some((0, body.len() as int, HighlightColor::Green))
    } else if begins(body, "Already on "@) || begins(body, "  ("@) || begins(body, "Your branch "@)
        || begins(body, "branch "@) {
        Some((0, body.len() as int, HighlightColor::Dim))
    } else {
        None
    }
}

/// Which report of git is read.
#[derive(Debug, Clone, Copy, PartialEq, Eq, Structural)]
pub enum OutputKind {
    /// The table of `git fetch`.
    FetchTable,
    /// The report of `git switch`.
    SwitchReport,
}

impl OutputKind {
    /// The part of a line that is coloured.
    pub open spec fn part_of(self, line: Seq<u8>) -> Option<(int, int, HighlightColor)> {
        match self {
            OutputKind::FetchTable => fetch_part(line),
            OutputKind::SwitchReport => switch_part(line),
        }
    }

    /// Finds the part of a line that is coloured.
    fn range(self, line: &[u8]) -> (range: Option<(usize, usize, HighlightColor)>)
        ensures
            part(range) == self.part_of(line@),
    {
        match self {
            OutputKind::FetchTable => fetch_range(line),
            OutputKind::SwitchReport => switch_range(line),
        }
    }
}

/// A coloured part lies inside its line.
pub proof fn lemma_part_in_line(kind: OutputKind, line: Seq<u8>)
    ensures
        kind.part_of(line) matches Some((start, end, _)) ==> 0 <= start <= end <= line.len(),
{
    let summary = line.skip(3);
    summary.index_of_first_ensures(CLOSE_BRACKET);
    summary.index_of_first_ensures(SPACE);
    lemma_without_line_end(line);
}

/// What is left without the line end is a beginning of the line.
pub proof fn lemma_without_line_end(line: Seq<u8>)
    ensures
        without_line_end(line).len() <= line.len(),
        without_line_end(line) == line.take(without_line_end(line).len() as int),
    decreases line.len(),
{
    if line.len() > 0 && (line.last() == NEWLINE || line.last() == RETURN) {
        lemma_without_line_end(line.drop_last());
        assert(line.drop_last().take(without_line_end(line).len() as int) =~= line.take(
            without_line_end(line).len() as int,
        ));
    } else {
        assert(line.take(line.len() as int) =~= line);
    }
}

/// Reads a line of the fetch table.
pub fn fetch_range(line: &[u8]) -> (range: Option<(usize, usize, HighlightColor)>)
    ensures
        part(range) == fetch_part(line@),
{
    if !contains(line, " -> ".as_bytes()) {
        return None;
    }
    if line.len() < SUMMARY_START_INDEX || line[0] != SPACE || line[STATUS_FLAG_INDEX + 1] != SPACE {
        return None;
    }
    let flag: u8 = line[STATUS_FLAG_INDEX];
    let summary: &[u8] = slice_subrange(line, SUMMARY_START_INDEX, line.len());
    assert(summary@ =~= line@.skip(3));
    match summary_length(summary) {
        None => None,
        Some(length) => match flag_color(flag, summary) {
            None => None,
            Some(color) => {
                Some((STATUS_FLAG_INDEX, SUMMARY_START_INDEX + length, color))
            },
        },
    }
}

/// Finds a byte.
fn position(bytes: &[u8], byte: u8) -> (at: Option<usize>)
    ensures
        match at {
            Some(i) => bytes@.index_of_first(byte) == Some(i as int) && i < bytes@.len(),
            None => bytes@.index_of_first(byte) is None,
        },
{
    let mut i: usize = 0;
    while i < bytes.len()
        invariant
            i <= bytes@.len(),
            forall|k: int| 0 <= k < i ==> bytes@[k] != byte,
        decreases bytes@.len() - i,
    {
        if bytes[i] == byte {
            proof {
                bytes@.index_of_first_ensures(byte);
                assert(bytes@[i as int] == byte);
                assert(bytes@.contains(byte));
            }
            return Some(i);
        }
        i += 1;
    }
    proof {
        bytes@.index_of_first_ensures(byte);
    }
    None
}

/// Measures the summary of a line of the fetch table.
fn summary_length(summary: &[u8]) -> (length: Option<usize>)
    ensures
        match length {
            Some(n) => summary_extent(summary@) == Some(n as int) && n <= summary@.len(),
            None => summary_extent(summary@) is None,
        },
{
    if summary.len() > 0 && summary[0] == OPEN_BRACKET {
        match position(summary, CLOSE_BRACKET) {
            Some(at) => Some(at + 1),
            None => None,
        }
    } else {
        position(summary, SPACE)
    }
}

/// Picks the colour of a status flag.
fn flag_color(flag: u8, summary: &[u8]) -> (color: Option<HighlightColor>)
    ensures
        color == color_of_flag(flag, summary@),
{
    if flag == STAR {
        if starts_with(summary, "[new tag]") {
            Some(HighlightColor::Yellow)
        } else {
            Some(HighlightColor::Green)
        }
    } else if flag == LETTER_T {
        Some(HighlightColor::Yellow)
    } else if flag == MINUS || flag == PLUS || flag == BANG {
        Some(HighlightColor::Red)
    } else if flag == EQUALS {
        Some(HighlightColor::Dim)
    } else {
        None
    }
}

/// Reads a line of the report of `git switch`.
pub fn switch_range(line: &[u8]) -> (range: Option<(usize, usize, HighlightColor)>)
    ensures
        part(range) == switch_part(line@),
{
    if let Some(color) = carried_change_color(line) {
        return Some((0, 1, color));
    }
    let body: &[u8] = trimmed_end(line);
    if starts_with(body, "Switched to branch ") || starts_with(body, "Switched to a new branch ") {
        return Some((0, body.len(), HighlightColor::Green));
    }
    if starts_with(body, "Already on ") {
        return Some((0, body.len(), HighlightColor::Dim));
    }
    if starts_with(body, "  (") || starts_with(body, "Your branch ") || starts_with(
        body,
        "branch ",
    ) {
        return Some((0, body.len(), HighlightColor::Dim));
    }
    None
}

/// Picks the colour of a carried change.
fn carried_change_color(line: &[u8]) -> (color: Option<HighlightColor>)
    ensures
        color == color_of_carried_change(line@),
{
    if line.len() < 2 || line[1] != TAB {
        None
    } else if line[0] == LETTER_A {
        Some(HighlightColor::Green)
    } else if line[0] == LETTER_M {
        Some(HighlightColor::Yellow)
    } else if line[0] == LETTER_D {
        Some(HighlightColor::Red)
    } else {
        None
    }
}

/// Drops the newlines and carriage returns at the end.
fn trimmed_end(line: &[u8]) -> (body: &[u8])
    ensures
        body@ == without_line_end(line@),
{
    let mut end: usize = line.len();
    assert(line@.take(end as int) =~= line@);
    while end > 0 && (line[end - 1] == NEWLINE || line[end - 1] == RETURN)
        invariant
            end <= line@.len(),
            without_line_end(line@.take(end as int)) == without_line_end(line@),
        decreases end,
    {
        assert(line@.take(end as int).drop_last() =~= line@.take(end - 1));
        end -= 1;
    }
    assert(line@.take(end as int) =~= line@.subrange(0, end as int));
    slice_subrange(line, 0, end)
}

/// Whether `needle` stands at position `at` of `haystack`.
fn matches_at(haystack: &[u8], needle: &[u8], at: usize) -> (found: bool)
    requires
        at <= haystack@.len(),
    ensures
        found == occurs_at(haystack@, needle@, at as int),
{
    if needle.len() > haystack.len() - at {
        return false;
    }
    let mut i: usize = 0;
    while i < needle.len()
        invariant
            i <= needle@.len(),
            at + needle@.len() <= haystack@.len(),
            haystack@.len() == haystack.len(),
            forall|k: int| 0 <= k < i ==> haystack@[at + k] == needle@[k],
        decreases needle@.len() - i,
    {
        if haystack[at + i] != needle[i] {
            assert(haystack@.subrange(at as int, at + needle@.len())[i as int] != needle@[i as int]);
            return false;
        }
        i += 1;
    }
    assert(haystack@.subrange(at as int, at + needle@.len()) =~= needle@);
    true
}

/// Whether `bytes` starts with the bytes of `prefix`.
fn starts_with(bytes: &[u8], prefix: &str) -> (found: bool)
    ensures
        found == begins(bytes@, prefix@),
{
    matches_at(bytes, prefix.as_bytes(), 0)
}

/// Whether `needle` occurs somewhere in `haystack`.
fn contains(haystack: &[u8], needle: &[u8]) -> (found: bool)
    ensures
        found == occurs(haystack@, needle@),
{
    let mut at: usize = 0;
    while at < haystack.len()
        invariant
            at <= haystack@.len(),
            forall|k: int| 0 <= k < at ==> !occurs_at(haystack@, needle@, k),
        decreases haystack@.len() - at,
    {
        if matches_at(haystack, needle, at) {
            return true;
        }
        at += 1;
    }
    matches_at(haystack, needle, at)
}

/// A line with its coloured part between a colour and a reset.
pub open spec fn painted_line(kind: OutputKind, line: Seq<u8>) -> Seq<u8> {
    match kind.part_of(line) {
        Some((start, end, color)) => line.take(start) + encode_utf8(color.ansi()) + line.subrange(
            start,
            end,
        ) + encode_utf8(ANSI_RESET@) + line.skip(end),
        None => line,
    }
}

/// Paints one line.
fn paint_line(kind: OutputKind, line: &[u8], out: &mut Vec<u8>)
    ensures
        final(out)@ == old(out)@ + painted_line(kind, line@),
{
    match kind.range(line) {
        None => {
            append_bytes(out, line);
        },
        Some((start, end, color)) => {
            proof {
                lemma_part_in_line(kind, line@);
            }
            append_bytes(out, slice_subrange(line, 0, start));
            append_bytes(out, color.to_ansi().as_bytes());
            append_bytes(out, slice_subrange(line, start, end));
            append_bytes(out, ANSI_RESET.as_bytes());
            append_bytes(out, slice_subrange(line, end, line.len()));
            proof {
                assert(line@.subrange(0, start as int) =~= line@.take(start as int));
                assert(line@.subrange(end as int, line@.len() as int) =~= line@.skip(end as int));
                assert(out@ =~= old(out)@ + painted_line(kind, line@));
            }
        },
    }
}

/// Writes bytes after those that are there.
pub(crate) fn append_bytes(out: &mut Vec<u8>, bytes: &[u8])
    ensures
        final(out)@ == old(out)@ + bytes@,
{
    out.extend_from_slice(bytes);
    assert(out@ =~= old(out)@ + bytes@);
}

/// What a stream still holds back after a byte: everything since the last separator.
pub open spec fn held_after(held: Seq<u8>, byte: u8) -> Seq<u8> {
    if byte == NEWLINE || byte == RETURN {
        Seq::empty()
    } else {
        held.push(byte)
    }
}

/// What a stream writes at a byte: a painted line at a newline, the fragment as it is at a
/// carriage return, nothing elsewhere.
pub open spec fn written_at(kind: OutputKind, held: Seq<u8>, byte: u8) -> Seq<u8> {
    if byte == NEWLINE {
        painted_line(kind, held.push(byte))
    } else if byte == RETURN {
        held.push(byte)
    } else {
        Seq::empty()
    }
}

/// What a stream that holds `held` holds after `bytes`.
pub open spec fn stream_held(held: Seq<u8>, bytes: Seq<u8>) -> Seq<u8>
    decreases bytes.len(),
{
    if bytes.len() == 0 {
        held
    } else {
        held_after(stream_held(held, bytes.drop_last()), bytes.last())
    }
}

/// What a stream that holds `held` writes for `bytes`.
pub open spec fn stream_written(kind: OutputKind, held: Seq<u8>, bytes: Seq<u8>) -> Seq<u8>
    decreases bytes.len(),
{
    if bytes.len() == 0 {
        Seq::empty()
    } else {
        stream_written(kind, held, bytes.drop_last()) + written_at(
            kind,
            stream_held(held, bytes.drop_last()),
            bytes.last(),
        )
    }
}

/// A whole output, painted.
pub open spec fn painted(kind: OutputKind, output: Seq<u8>) -> Seq<u8> {
    stream_written(kind, Seq::empty(), output) + stream_held(Seq::empty(), output)
}

/// Paints the output of git as it arrives.
///
/// Progress is overwritten in place by carriage returns. Those fragments go through as
/// they are, so that they are seen at once.
pub struct OutputStream {
    kind: OutputKind,
    pending: Vec<u8>,
}

impl OutputStream {
    /// Which report is read.
    pub closed spec fn report(&self) -> OutputKind {
        self.kind
    }

    /// The bytes held back until a separator arrives.
    pub closed spec fn held(&self) -> Seq<u8> {
        self.pending@
    }

    pub fn new(kind: OutputKind) -> (stream: Self)
        ensures
            stream.report() == kind,
            stream.held() == Seq::<u8>::empty(),
    {
        OutputStream { kind, pending: Vec::new() }
    }

    /// Takes bytes in, and writes what is complete.
    pub fn push(&mut self, bytes: &[u8], out: &mut Vec<u8>)
        ensures
            final(self).report() == old(self).report(),
            final(self).held() == stream_held(old(self).held(), bytes@),
            final(out)@ == old(out)@ + stream_written(old(self).report(), old(self).held(), bytes@),
    {
        let mut i: usize = 0;
        assert(old(out)@ + Seq::<u8>::empty() =~= old(out)@);
        while i < bytes.len()
            invariant
                i <= bytes@.len(),
                self.kind == old(self).kind,
                self.pending@ == stream_held(old(self).pending@, bytes@.take(i as int)),
                out@ == old(out)@ + stream_written(
                    old(self).kind,
                    old(self).pending@,
                    bytes@.take(i as int),
                ),
            decreases bytes@.len() - i,
        {
            let byte: u8 = bytes[i];
            assert(bytes@.take(i + 1).drop_last() =~= bytes@.take(i as int));
            let ghost before = out@;
            self.pending.push(byte);
            if byte == NEWLINE {
                paint_line(self.kind, self.pending.as_slice(), out);
                self.pending.clear();
            } else if byte == RETURN {
                out.append(&mut self.pending);
            }
            i += 1;
            assert(out@ =~= old(out)@ + stream_written(
                old(self).kind,
                old(self).pending@,
                bytes@.take(i as int),
            ));
        }
        assert(bytes@.take(i as int) =~= bytes@);
    }

    /// Writes what was held back.
    pub fn flush(&mut self, out: &mut Vec<u8>)
        ensures
            final(self).report() == old(self).report(),
            final(self).held() == Seq::<u8>::empty(),
            final(out)@ == old(out)@ + old(self).held(),
    {
        out.append(&mut self.pending);
    }
}

/// Whether colours are wanted where the output goes, decided once.
#[derive(Debug, Clone, Copy, PartialEq, Eq)]
pub struct Painter {
    enabled: bool,
}

impl Painter {
    /// Whether this painter adds colours.
    pub closed spec fn adds_colors(self) -> bool {
        self.enabled
    }

    /// The painter for a stream: colours go to a terminal, unless the value of `NO_COLOR`
    /// is there and not empty.
    pub fn for_stream(is_terminal: bool, no_color: Option<&[u8]>) -> (painter: Self)
        ensures
            painter.adds_colors() == (is_terminal && !(no_color matches Some(value) && value@.len()
                > 0)),
    {
        Painter { enabled: is_terminal && !no_color_requested(no_color) }
    }

    pub fn enabled() -> (painter: Self)
        ensures
            painter.adds_colors(),
    {
        Painter { enabled: true }
    }

    pub fn disabled() -> (painter: Self)
        ensures
            !painter.adds_colors(),
    {
        Painter { enabled: false }
    }

    pub fn is_enabled(self) -> (enabled: bool)
        ensures
            enabled == self.adds_colors(),
    {
        self.enabled
    }

    /// Puts one colour round a whole line. An empty line stays empty.
    pub fn paint(self, line: &str, color: HighlightColor) -> (painted: String)
        ensures
            painted@ == (if self.adds_colors() && line@.len() > 0 {
                color.ansi() + line@ + ANSI_RESET@
            } else {
                line@
            }),
    {
        if !self.enabled || line.is_empty() {
            return line.to_owned();
        }
        concat3(color.to_ansi(), line, ANSI_RESET)
    }

    /// Colours an output of git. The bytes need not be text in any encoding.
    pub fn paint_output(self, kind: OutputKind, output: &[u8]) -> (result: Vec<u8>)
        ensures
            result@ == (if self.adds_colors() {
                painted(kind, output@)
            } else {
                output@
            }),
    {
        let mut result: Vec<u8> = Vec::new();
        if !self.enabled {
            append_bytes(&mut result, output);
            assert(result@ =~= output@);
            return result;
        }
        let mut stream = OutputStream::new(kind);
        stream.push(output, &mut result);
        stream.flush(&mut result);
        assert(result@ =~= painted(kind, output@));
        result
    }
}

/// Whether the value of `NO_COLOR` asks for no colours: it is there and not empty.
fn no_color_requested(value: Option<&[u8]>) -> (requested: bool)
    ensures
        requested == (value matches Some(bytes) && bytes@.len() > 0),
{
    match value {
        Some(bytes) => bytes.len() > 0,
        None => false,
    }
}

/// Taking an output in two pieces writes and holds the same as taking it whole.
pub proof fn law_pieces_do_not_matter(kind: OutputKind, held: Seq<u8>, a: Seq<u8>, b: Seq<u8>)
    ensures
        stream_held(stream_held(held, a), b) == stream_held(held, a + b),
        stream_written(kind, held, a) + stream_written(kind, stream_held(held, a), b)
            == stream_written(kind, held, a + b),
    decreases b.len(),
{
    if b.len() == 0 {
        assert(a + b =~= a);
        assert(stream_written(kind, held, a) + Seq::<u8>::empty() =~= stream_written(kind, held, a));
    } else {
        law_pieces_do_not_matter(kind, held, a, b.drop_last());
        assert((a + b).drop_last() =~= a + b.drop_last());
        assert((a + b).last() == b.last());
        assert(stream_written(kind, held, a) + stream_written(kind, stream_held(held, a), b)
            =~= stream_written(kind, held, a + b));
    }
}

/// The byte that starts a control sequence.
pub const ESCAPE: u8 = 0x1b;

/// The byte that ends a colour sequence.
pub const LETTER_LOWER_M: u8 = 0x6d;

/// Bytes without their control sequences: from each escape up to the next `m`.
pub open spec fn without_colors(bytes: Seq<u8>) -> Seq<u8> {
    visible(bytes, false)
}

/// The bytes that stand outside control sequences, where `inside` says whether the first
/// one stands inside.
pub open spec fn visible(bytes: Seq<u8>, inside: bool) -> Seq<u8>
    decreases bytes.len(),
{
    if bytes.len() == 0 {
        Seq::empty()
    } else if inside {
        visible(bytes.drop_first(), bytes[0] != LETTER_LOWER_M)
    } else if bytes[0] == ESCAPE {
        visible(bytes.drop_first(), true)
    } else {
        seq![bytes[0]] + visible(bytes.drop_first(), false)
    }
}

/// Whether bytes hold no escape.
pub open spec fn no_escape(bytes: Seq<u8>) -> bool {
    forall|i: int| 0 <= i < bytes.len() ==> bytes[i] != ESCAPE
}

proof fn lemma_visible_plain(plain: Seq<u8>, rest: Seq<u8>)
    requires
        no_escape(plain),
    ensures
        visible(plain + rest, false) == plain + visible(rest, false),
    decreases plain.len(),
{
    if plain.len() == 0 {
        assert(plain + rest =~= rest);
        assert(plain + visible(rest, false) =~= visible(rest, false));
    } else {
        lemma_visible_plain(plain.drop_first(), rest);
        assert((plain + rest).drop_first() =~= plain.drop_first() + rest);
        assert(seq![plain[0]] + (plain.drop_first() + visible(rest, false)) =~= plain + visible(
            rest,
            false,
        ));
    }
}

/// Whether bytes are one control sequence: an escape, and one `m` at the very end.
spec fn is_sequence(bytes: Seq<u8>) -> bool {
    &&& bytes.len() >= 2
    &&& bytes[0] == ESCAPE
    &&& bytes.last() == LETTER_LOWER_M
    &&& forall|i: int| 0 < i < bytes.len() - 1 ==> bytes[i] != LETTER_LOWER_M
}

proof fn lemma_inside(tail: Seq<u8>, rest: Seq<u8>)
    requires
        tail.len() > 0,
        tail.last() == LETTER_LOWER_M,
        forall|i: int| 0 <= i < tail.len() - 1 ==> tail[i] != LETTER_LOWER_M,
    ensures
        visible(tail + rest, true) == visible(rest, false),
    decreases tail.len(),
{
    assert((tail + rest)[0] == tail[0]);
    assert((tail + rest).drop_first() =~= tail.drop_first() + rest);
    if tail.len() == 1 {
        assert(tail.drop_first() + rest =~= rest);
    } else {
        lemma_inside(tail.drop_first(), rest);
    }
}

proof fn lemma_visible_sequence(sequence: Seq<u8>, rest: Seq<u8>)
    requires
        is_sequence(sequence),
    ensures
        visible(sequence + rest, false) == visible(rest, false),
{
    assert((sequence + rest)[0] == ESCAPE);
    assert((sequence + rest).drop_first() =~= sequence.drop_first() + rest);
    lemma_inside(sequence.drop_first(), rest);
}

proof fn lemma_colors_are_sequences(color: HighlightColor)
    ensures
        is_sequence(encode_utf8(color.ansi())),
        is_sequence(encode_utf8(ANSI_RESET@)),
{
    reveal_strlit("\x1b[32m");
    reveal_strlit("\x1b[33m");
    reveal_strlit("\x1b[31m");
    reveal_strlit("\x1b[34m");
    reveal_strlit("\x1b[36m");
    reveal_strlit("\x1b[2m");
    reveal_strlit("\x1b[0m");
    vstd::utf8::is_ascii_chars_encode_utf8(color.ansi());
    vstd::utf8::is_ascii_chars_encode_utf8(ANSI_RESET@);
}

proof fn lemma_painted_line_visible(kind: OutputKind, line: Seq<u8>, rest: Seq<u8>)
    requires
        no_escape(line),
    ensures
        visible(painted_line(kind, line) + rest, false) == line + visible(rest, false),
{
    match kind.part_of(line) {
        None => {
            lemma_visible_plain(line, rest);
        },
        Some((start, end, color)) => {
            lemma_part_in_line(kind, line);
            lemma_colors_are_sequences(color);
            let open = encode_utf8(color.ansi());
            let close = encode_utf8(ANSI_RESET@);
            let r3 = line.skip(end) + rest;
            let r2 = close + r3;
            let r1 = line.subrange(start, end) + r2;
            let r0 = open + r1;
            assert(painted_line(kind, line) + rest =~= line.take(start) + r0);
            lemma_visible_plain(line.take(start), r0);
            lemma_visible_sequence(open, r1);
            lemma_visible_plain(line.subrange(start, end), r2);
            lemma_visible_sequence(close, r3);
            lemma_visible_plain(line.skip(end), rest);
            assert(line.take(start) + (line.subrange(start, end) + (line.skip(end) + visible(
                rest,
                false,
            ))) =~= line + visible(rest, false));
        },
    }
}

/// The input that a stream has written, without colours.
spec fn passed(held: Seq<u8>, bytes: Seq<u8>) -> Seq<u8>
    decreases bytes.len(),
{
    if bytes.len() == 0 {
        Seq::empty()
    } else {
        let before = bytes.drop_last();
        if bytes.last() == NEWLINE || bytes.last() == RETURN {
            passed(held, before) + stream_held(held, before).push(bytes.last())
        } else {
            passed(held, before)
        }
    }
}

proof fn lemma_nothing_is_lost(held: Seq<u8>, bytes: Seq<u8>)
    ensures
        passed(held, bytes) + stream_held(held, bytes) == held + bytes,
    decreases bytes.len(),
{
    if bytes.len() == 0 {
        assert(Seq::<u8>::empty() + held =~= held + bytes);
    } else {
        let before = bytes.drop_last();
        lemma_nothing_is_lost(held, before);
        assert(held + bytes =~= (held + before).push(bytes.last()));
        assert(passed(held, bytes) + stream_held(held, bytes) =~= (passed(held, before)
            + stream_held(held, before)).push(bytes.last()));
    }
}

proof fn lemma_held_without_escape(held: Seq<u8>, bytes: Seq<u8>)
    requires
        no_escape(held),
        no_escape(bytes),
    ensures
        no_escape(stream_held(held, bytes)),
    decreases bytes.len(),
{
    if bytes.len() > 0 {
        lemma_held_without_escape(held, bytes.drop_last());
    }
}

proof fn lemma_stream_visible(kind: OutputKind, held: Seq<u8>, bytes: Seq<u8>, rest: Seq<u8>)
    requires
        no_escape(held),
        no_escape(bytes),
    ensures
        visible(stream_written(kind, held, bytes) + rest, false) == passed(held, bytes) + visible(
            rest,
            false,
        ),
    decreases bytes.len(),
{
    if bytes.len() == 0 {
        assert(stream_written(kind, held, bytes) + rest =~= rest);
        assert(passed(held, bytes) + visible(rest, false) =~= visible(rest, false));
    } else {
        let before = bytes.drop_last();
        let byte = bytes.last();
        let kept = stream_held(held, before);
        let now = written_at(kind, kept, byte);
        lemma_stream_visible(kind, held, before, now + rest);
        assert(stream_written(kind, held, bytes) + rest =~= stream_written(kind, held, before) + (
        now + rest));
        lemma_held_without_escape(held, before);
        if byte == NEWLINE {
            lemma_painted_line_visible(kind, kept.push(byte), rest);
        } else if byte == RETURN {
            lemma_visible_plain(kept.push(byte), rest);
        } else {
            assert(now + rest =~= rest);
        }
        assert(passed(held, before) + (kept.push(byte) + visible(rest, false)) =~= passed(
            held,
            before,
        ) + kept.push(byte) + visible(rest, false));
    }
}

/// Painting only adds colours: without its control sequences, a painted output is the
/// output that came in, byte for byte. (An output that brings escapes of its own is left
/// out: those would be taken for ours.)
pub proof fn law_painting_only_adds_colors(kind: OutputKind, output: Seq<u8>)
    requires
        no_escape(output),
    ensures
        without_colors(painted(kind, output)) == output,
{
    let nothing = Seq::<u8>::empty();
    let rest = stream_held(nothing, output);
    lemma_held_without_escape(nothing, output);
    lemma_stream_visible(kind, nothing, output, rest);
    lemma_visible_plain(rest, nothing);
    assert(rest + nothing =~= rest);
    lemma_nothing_is_lost(nothing, output);
    assert(nothing + output =~= output);
}

/// A line that is not recognised goes through unchanged.
pub proof fn law_unrecognised_line_passes(kind: OutputKind, body: Seq<u8>)
    requires
        !body.contains(NEWLINE),
        !body.contains(RETURN),
        kind.part_of(body.push(NEWLINE)) is None,
    ensures
        painted(kind, body.push(NEWLINE)) == body.push(NEWLINE),
{
    lemma_unseparated(kind, body);
    assert(body.push(NEWLINE).drop_last() =~= body);
    assert(painted(kind, body.push(NEWLINE)) =~= body.push(NEWLINE));
}

/// A fragment that ends in a carriage return goes through unchanged, whatever it says.
pub proof fn law_progress_passes(kind: OutputKind, body: Seq<u8>)
    requires
        !body.contains(NEWLINE),
        !body.contains(RETURN),
    ensures
        stream_written(kind, Seq::empty(), body.push(RETURN)) == body.push(RETURN),
{
    lemma_unseparated(kind, body);
    assert(body.push(RETURN).drop_last() =~= body);
    assert(Seq::<u8>::empty() + body.push(RETURN) =~= body.push(RETURN));
}

proof fn lemma_unseparated(kind: OutputKind, body: Seq<u8>)
    requires
        !body.contains(NEWLINE),
        !body.contains(RETURN),
    ensures
        stream_held(Seq::empty(), body) == body,
        stream_written(kind, Seq::empty(), body) == Seq::<u8>::empty(),
    decreases body.len(),
{
    if body.len() > 0 {
        let before = body.drop_last();
        assert(body.contains(body.last()));
        assert forall|byte: u8| before.contains(byte) implies body.contains(byte) by {
            let i = before.index_of(byte);
            assert(body[i] == byte);
        }
        lemma_unseparated(kind, before);
        assert(before.push(body.last()) =~= body);
        assert(Seq::<u8>::empty() + Seq::<u8>::empty() =~= Seq::<u8>::empty());
    }
}

proof fn lemma_line_end_stops(line: Seq<u8>, at: int)
    requires
        0 <= at < line.len(),
        line[at] != NEWLINE,
        line[at] != RETURN,
    ensures
        at < without_line_end(line).len(),
    decreases line.len(),
{
    if line.last() == NEWLINE || line.last() == RETURN {
        lemma_line_end_stops(line.drop_last(), at);
    }
}

/// The end of a line stays outside its colour.
pub proof fn law_line_end_is_not_colored(line: Seq<u8>)
    ensures
        switch_part(line) matches Some((_, end, _)) ==> end <= without_line_end(line).len(),
{
    if color_of_carried_change(line) is Some {
        lemma_line_end_stops(line, 1);
    }
}

/// The colour of a line of `git fetch` tells what became of a reference: gained is green, lost or
/// replaced or refused is red, a tag is yellow, and what did not change is dim. The flag and its
/// summary take it, and an ordinary update takes none.
pub proof fn law_the_color_tells_what_became_of_a_reference(
    line: &[u8],
    range: Option<(usize, usize, HighlightColor)>,
)
    requires
        call_ensures(fetch_range, (line,), range),
    ensures
        range matches Some((start, end, color)) ==> {
            let flag = line@[1];
            &&& line@.len() >= 3 && line@[0] == 0x20 && line@[2] == 0x20
            &&& start == 1
            &&& 3 <= end <= line@.len()
            &&& color == HighlightColor::Green ==> flag == 0x2a
            &&& color == HighlightColor::Red <==> flag == 0x2d || flag == 0x2b || flag == 0x21
            &&& color == HighlightColor::Dim <==> flag == 0x3d
            &&& flag == 0x74 ==> color == HighlightColor::Yellow
            &&& flag == 0x2a ==> color == HighlightColor::Green || color == HighlightColor::Yellow
            &&& color == HighlightColor::Yellow ==> flag == 0x74 || flag == 0x2a
            &&& color != HighlightColor::Blue && color != HighlightColor::Cyan
        },
        line@.len() >= 2 && line@[1] == 0x20 ==> range is None,
{
    lemma_part_in_line(OutputKind::FetchTable, line@);
    line@.skip(3).index_of_first_ensures(CLOSE_BRACKET);
    line@.skip(3).index_of_first_ensures(SPACE);
}

/// A change that a switch carries over is coloured by its letter alone: added is green, modified
/// yellow and deleted red.
pub proof fn law_the_color_tells_what_a_switch_carries_over(
    line: &[u8],
    range: Option<(usize, usize, HighlightColor)>,
)
    requires
        line@.len() >= 2,
        line@[1] == 0x09,
        call_ensures(switch_range, (line,), range),
    ensures
        line@[0] == 0x41 ==> range == Some((0usize, 1usize, HighlightColor::Green)),
        line@[0] == 0x4d ==> range == Some((0usize, 1usize, HighlightColor::Yellow)),
        line@[0] == 0x44 ==> range == Some((0usize, 1usize, HighlightColor::Red)),
{
}

/// Colours go to a terminal, and nowhere else; what asks for none keeps them from it, unless it
/// is empty.
pub proof fn law_colors_are_for_terminals(
    is_terminal: bool,
    no_color: Option<&[u8]>,
    painter: Painter,
    enabled: bool,
)
    requires
        call_ensures(Painter::for_stream, (is_terminal, no_color), painter),
        call_ensures(Painter::is_enabled, (painter,), enabled),
    ensures
        enabled ==> is_terminal,
        no_color is None ==> (enabled <==> is_terminal),
        no_color matches Some(value) ==> (value@.len() == 0 ==> (enabled <==> is_terminal)),
        no_color matches Some(value) ==> (value@.len() > 0 ==> !enabled),
{
}

/// Where there are no colours, not a byte changes; where there are, a painted line is the line
/// between the start of its colour and the end of all colours.
pub proof fn law_a_painter_without_colors_changes_nothing(
    painter: Painter,
    kind: OutputKind,
    output: &[u8],
    result: Vec<u8>,
    line: &str,
    color: HighlightColor,
    painted: String,
)
    requires
        call_ensures(Painter::paint_output, (painter, kind, output), result),
        call_ensures(Painter::paint, (painter, line, color), painted),
    ensures
        !painter.adds_colors() ==> result@ == output@ && painted@ == line@,
        line@.len() == 0 ==> painted@ == line@,
        painter.adds_colors() && line@.len() > 0 ==> painted@ == color.ansi() + line@
            + "\x1b[0m"@,
{
}

/// The colour goes from the flag to the end of its summary: up to a closing bracket where the
/// summary is in brackets, and up to the next space where it is not.
pub proof fn law_the_color_ends_with_the_summary(
    line: &[u8],
    range: Option<(usize, usize, HighlightColor)>,
)
    requires
        call_ensures(fetch_range, (line,), range),
    ensures
        range matches Some((start, end, _)) ==> {
            &&& line@.len() > 3
            &&& line@[3] == 0x5b ==> line@[end - 1] == 0x5d && forall|k: int|
                3 <= k < end - 1 ==> line@[k] != 0x5d
            &&& line@[3] != 0x5b ==> end < line@.len() && line@[end as int] == 0x20 && forall|k: int|
                3 <= k < end ==> line@[k] != 0x20
        },
{
    let summary = line@.skip(3);
    summary.index_of_first_ensures(CLOSE_BRACKET);
    summary.index_of_first_ensures(SPACE);
    if let Some((start, end, color)) = range {
        let length = summary_extent(summary).unwrap();
        assert(end == 3 + length);
        if line@.len() > 3 {
            assert(summary[0] == line@[3]);
        }
        if summary.len() > 0 && summary[0] == OPEN_BRACKET {
            assert(line@[end - 1] == summary[length - 1]);
            assert forall|k: int| 3 <= k < end - 1 implies line@[k] != 0x5d by {
                assert(line@[k] == summary[k - 3]);
            }
        } else {
            assert(line@[end as int] == summary[length]);
            assert forall|k: int| 3 <= k < end implies line@[k] != 0x20 by {
                assert(line@[k] == summary[k - 3]);
            }
        }
    }
}

/// A new tag is yellow where a new branch is green.
pub proof fn law_a_tag_is_told_from_a_branch(
    line: &[u8],
    range: Option<(usize, usize, HighlightColor)>,
)
    requires
        line@.len() >= 3,
        line@[1] == 0x2a,
        call_ensures(fetch_range, (line,), range),
    ensures
        range matches Some((_, _, color)) ==> (color == HighlightColor::Yellow <==> begins(
            line@.skip(3),
            "[new tag]"@,
        )),
{
}

/// Where a switch led is green, and what goes with it is dim; either takes the whole line but its
/// end.
pub proof fn law_where_a_switch_led_is_green(
    line: &[u8],
    range: Option<(usize, usize, HighlightColor)>,
)
    requires
        line@.len() < 2 || line@[1] != 0x09,
        call_ensures(switch_range, (line,), range),
    ensures
        ({
            let body = without_line_end(line@);
            let led = begins(body, "Switched to branch "@) || begins(
                body,
                "Switched to a new branch "@,
            );
            let beside = begins(body, "Already on "@) || begins(body, "Your branch "@) || begins(
                body,
                "branch "@,
            ) || begins(body, "  ("@);
            &&& led ==> range == Some((0usize, body.len() as usize, HighlightColor::Green))
            &&& !led && beside ==> range == Some((0usize, body.len() as usize, HighlightColor::Dim))
            &&& !led && !beside ==> range is None
        }),
{
    lemma_without_line_end(line@);
}

/// A line with a coloured part is that part between the start of its colour and the end of all
/// colours, and what stands before and behind it as it was.
pub proof fn law_the_colored_part_is_enclosed(
    kind: OutputKind,
    line: Seq<u8>,
    start: int,
    end: int,
    color: HighlightColor,
)
    requires
        kind.part_of(line) == Some((start, end, color)),
    ensures
        ({
            let begun = line.take(start) + encode_utf8(color.ansi());
            let ended = encode_utf8("\x1b[0m"@) + line.skip(end);
            &&& begun.is_prefix_of(painted_line(kind, line))
            &&& painted_line(kind, line) == begun + line.subrange(start, end) + ended
        }),
{
    lemma_part_in_line(kind, line);
    let begun = line.take(start) + encode_utf8(color.ansi());
    let ended = encode_utf8("\x1b[0m"@) + line.skip(end);
    assert(painted_line(kind, line) =~= begun + line.subrange(start, end) + ended);
    assert(begun.is_prefix_of(begun + line.subrange(start, end) + ended));
}

/// What ends a line is cut off whole, and nothing else: what is left ends in neither a newline nor
/// a carriage return.
pub proof fn law_a_line_end_is_cut_off_whole(line: Seq<u8>, end: Seq<u8>)
    requires
        forall|i: int| 0 <= i < end.len() ==> end[i] == 0x0a || end[i] == 0x0d,
        line.len() > 0 ==> line.last() != 0x0a && line.last() != 0x0d,
    ensures
        without_line_end(line + end) == line,
    decreases end.len(),
{
    if end.len() > 0 {
        law_a_line_end_is_cut_off_whole(line, end.drop_last());
        assert((line + end).drop_last() =~= line + end.drop_last());
        assert((line + end).last() == end.last());
    } else {
        assert(line + end =~= line);
    }
}

} // verus!
