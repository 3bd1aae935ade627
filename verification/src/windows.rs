//! Listing the multiplexer's windows: the command that prints them and the
//! parser of what it prints.

use vstd::prelude::*;
use vstd::utf8::{decode_utf8, valid_utf8};
use crate::process::{decode_lossy, invoke, utf8_lossy, Invocation, OutcomeModel, ProcessOutcome};
use crate::status::Status;
use crate::text::{
    collect_chars, find_from, first_index_of, free_of, lemma_first_index_of,
    lemma_first_index_of_bounds, lemma_split_on_join, lemma_split_on_whole, lines_of, split_on,
    string_of, strip_cr,
};

verus! {

/// One window of the multiplexer.
#[derive(Debug, PartialEq, Eq)]
pub struct TmuxWindow {
    /// The window's address, `session:index`.
    pub target: String,
    /// The window's name.
    pub name: String,
}

/// Mathematical model of a [`TmuxWindow`].
pub struct WindowModel {
    pub target: Seq<char>,
    pub name: Seq<char>,
}

impl View for TmuxWindow {
    type V = WindowModel;

    open spec fn view(&self) -> WindowModel {
        WindowModel { target: self.target@, name: self.name@ }
    }
}

impl DeepView for TmuxWindow {
    type V = WindowModel;

    open spec fn deep_view(&self) -> WindowModel {
        self@
    }
}

/// The window that a line of the listing describes: the line has exactly
/// two fields when split on the tab character, the address and the name.
/// Any other line describes none.
pub open spec fn row_of(line: Seq<char>) -> Option<WindowModel> {
    let fields = split_on(line, '\t');
    if fields.len() == 2 {
        Some(WindowModel { target: fields[0], name: fields[1] })
    } else {
        None
    }
}

/// The windows that the given lines describe, in the order of the lines.
/// Lines that describe no window are passed over.
pub open spec fn rows_of(lines: Seq<Seq<char>>) -> Seq<WindowModel>
    decreases lines.len(),
{
    if lines.len() == 0 {
        Seq::empty()
    } else {
        let rest = rows_of(lines.drop_first());
        match row_of(lines[0]) {
            Some(window) => seq![window] + rest,
            None => rest,
        }
    }
}

/// The windows that a listing describes.
pub open spec fn windows_of(text: Seq<char>) -> Seq<WindowModel> {
    rows_of(lines_of(text))
}

/// The rows of a first line followed by further lines are the row of the
/// first, if it is one, followed by the rows of the others.
pub proof fn lemma_rows_of_cons(first: Seq<char>, rest: Seq<Seq<char>>)
    ensures
        rows_of(seq![first] + rest) == match row_of(first) {
            Some(window) => seq![window] + rows_of(rest),
            None => rows_of(rest),
        },
{
    let lines = seq![first] + rest;
    assert(lines[0] == first);
    assert(lines.drop_first() =~= rest);
}

/// Parses `chars[start..end]` as one line of the listing.
fn parse_row(chars: &Vec<char>, start: usize, end: usize) -> (row: Option<TmuxWindow>)
    requires
        start <= end <= chars.len(),
    ensures
        row.deep_view() == row_of(chars@.subrange(start as int, end as int)),
{
    let ghost line = chars@.subrange(start as int, end as int);
    let tab = find_from(chars, start, end, '\t');
    if tab == end {
        return None;
    }
    let second = find_from(chars, tab + 1, end, '\t');
    let ghost tail = line.skip(tab - start + 1);
    proof {
        assert(tail =~= chars@.subrange(tab + 1, end as int));
        assert(line.take(tab - start) =~= chars@.subrange(start as int, tab as int));
        assert(split_on(line, '\t') == seq![line.take(tab - start)] + split_on(tail, '\t'));
        if second < end {
            let beyond = tail.skip(second - tab);
            lemma_split_on_join(beyond, '\t');
            assert(split_on(tail, '\t') == seq![tail.take(second - tab - 1)] + split_on(
                beyond,
                '\t',
            ));
        } else {
            assert(split_on(tail, '\t') == seq![tail]);
        }
    }
    if second < end {
        return None;
    }
    let target = string_of(chars, start, tab);
    let name = string_of(chars, tab + 1, end);
    Some(TmuxWindow { target, name })
}

/// Parses the listing that the multiplexer prints: one window per line, the
/// address and the name separated by one tab. Lines of any other shape are
/// dropped.
pub fn parse_windows(text: &str) -> (windows: Vec<TmuxWindow>)
    ensures
        windows.deep_view() == windows_of(text@),
{
    let chars = collect_chars(text);
    let n = chars.len();
    let mut windows: Vec<TmuxWindow> = Vec::new();
    let mut pos: usize = 0;
    proof {
        assert(chars@.skip(0) =~= chars@);
        assert(windows.deep_view() =~= Seq::<WindowModel>::empty());
        assert(windows.deep_view() + windows_of(chars@.skip(0)) =~= windows_of(chars@));
    }
    while pos < n
        invariant
            pos <= n,
            n == chars.len(),
            chars@ == text@,
            windows.deep_view() + windows_of(chars@.skip(pos as int)) == windows_of(chars@),
        decreases n - pos,
    {
        let ghost rest = chars@.skip(pos as int);
        let ghost before = windows.deep_view();
        let feed = find_from(&chars, pos, n, '\n');
        let mut line_end = feed;
        let mut next = feed;
        if feed < n {
            next = feed + 1;
            if feed > pos && chars[feed - 1] == '\r' {
                line_end = feed - 1;
            }
        }
        let row = parse_row(&chars, pos, line_end);
        proof {
            assert(rest =~= chars@.subrange(pos as int, n as int));
            let line = chars@.subrange(pos as int, line_end as int);
            let after = chars@.skip(next as int);
            if feed < n {
                assert(rest.take(feed - pos) =~= chars@.subrange(pos as int, feed as int));
                assert(strip_cr(rest.take(feed - pos)) =~= line);
                assert(rest.skip(feed - pos + 1) =~= after);
                lemma_rows_of_cons(line, lines_of(after));
            } else {
                assert(line =~= rest);
                assert(after =~= Seq::<char>::empty());
                lemma_rows_of_cons(line, Seq::empty());
                assert(seq![line] + Seq::<Seq<char>>::empty() =~= seq![line]);
            }
        }
        match row {
            Some(window) => {
                windows.push(window);
                proof {
                    assert(windows.deep_view() =~= before.push(window.deep_view()));
                    assert(windows.deep_view() + windows_of(chars@.skip(next as int)) =~= before
                        + (seq![window.deep_view()] + windows_of(chars@.skip(next as int))));
                }
            },
            None => {},
        }
        pos = next;
    }
    proof {
        assert(chars@.skip(n as int) =~= Seq::<char>::empty());
        assert(windows.deep_view() + Seq::<WindowModel>::empty() =~= windows.deep_view());
    }
    windows
}

/// Arguments that make the multiplexer print all windows of all sessions,
/// one per line: session name, colon, window index, a tab, the window name.
pub open spec fn list_args() -> Seq<Seq<char>> {
    seq!["list-windows"@, "-a"@, "-F"@, "#{session_name}:#{window_index}\t#{window_name}"@]
}

/// The windows that are answered for the outcome of a listing: those that
/// the decoded output of a run that succeeded describes; none after any
/// failure.
pub open spec fn listed_windows(outcome: OutcomeModel) -> Seq<WindowModel> {
    match outcome {
        OutcomeModel::Exited { success: true, stdout, .. } => windows_of(utf8_lossy(stdout)),
        _ => Seq::empty(),
    }
}

/// The command to run for a request to list the windows.
pub fn list_command() -> (invocation: Invocation)
    ensures
        invocation@.program == crate::process::program_name(),
        invocation@.args == list_args(),
{
    let mut args: Vec<String> = Vec::new();
    args.push(String::from_str("list-windows"));
    args.push(String::from_str("-a"));
    args.push(String::from_str("-F"));
    args.push(String::from_str("#{session_name}:#{window_index}\t#{window_name}"));
    proof {
        assert(args.deep_view() =~= list_args());
    }
    invoke(args)
}

/// The answer to a request to list the windows, given how the command
/// ended. The status is always 200: a failure of any kind gives an empty
/// list. Output that is valid UTF-8 is parsed as the very characters it
/// encodes.
pub fn list_windows(outcome: &ProcessOutcome) -> (reply: (Status, Vec<TmuxWindow>))
    ensures
        reply.0 == Status::Success,
        reply.1.deep_view() == listed_windows(outcome@),
        outcome@ matches OutcomeModel::Exited { success: true, stdout, .. } ==> valid_utf8(stdout)
            ==> reply.1.deep_view() == windows_of(decode_utf8(stdout)),
{
    match outcome {
        ProcessOutcome::Exited { success, stdout, .. } => {
            if *success {
                let text = decode_lossy(stdout.as_slice());
                (Status::Success, parse_windows(text.as_str()))
            } else {
                (Status::Success, no_windows())
            }
        },
        ProcessOutcome::SpawnFailed { .. } => (Status::Success, no_windows()),
    }
}

/// The empty list of windows.
fn no_windows() -> (windows: Vec<TmuxWindow>)
    ensures
        windows.deep_view() == Seq::<WindowModel>::empty(),
{
    let windows: Vec<TmuxWindow> = Vec::new();
    assert(windows.deep_view() =~= Seq::<WindowModel>::empty());
    windows
}

/// The line that describes a window: address, tab, name.
pub open spec fn line_of(window: WindowModel) -> Seq<char> {
    window.target + seq!['\t'] + window.name
}

/// Whether a window can stand in a listing and be read back from it: its
/// address and name hold neither a tab nor a line feed, and the name does
/// not end in a carriage return.
pub open spec fn listable(window: WindowModel) -> bool {
    &&& free_of(window.target, '\t')
    &&& free_of(window.target, '\n')
    &&& free_of(window.name, '\t')
    &&& free_of(window.name, '\n')
    &&& (window.name.len() > 0 ==> window.name.last() != '\r')
}

/// The listing of the given windows: the line of each, ended by a line
/// feed.
pub open spec fn listing_of(windows: Seq<WindowModel>) -> Seq<char>
    decreases windows.len(),
{
    if windows.len() == 0 {
        Seq::empty()
    } else {
        line_of(windows[0]) + seq!['\n'] + listing_of(windows.drop_first())
    }
}

/// A line that describes a window is the window's address, a tab and the
/// window's name, and neither of the two holds a tab: the line holds
/// exactly one.
pub proof fn lemma_row_of_some(line: Seq<char>)
    requires
        row_of(line) is Some,
    ensures
        line == line_of(row_of(line)->0),
        free_of(row_of(line)->0.target, '\t'),
        free_of(row_of(line)->0.name, '\t'),
{
    let at = first_index_of(line, '\t') as int;
    lemma_first_index_of_bounds(line, '\t');
    let tail = line.skip(at + 1);
    let beyond = first_index_of(tail, '\t') as int;
    lemma_first_index_of_bounds(tail, '\t');
    if beyond < tail.len() {
        lemma_split_on_join(tail.skip(beyond + 1), '\t');
    }
    assert(split_on(tail, '\t') == seq![tail]);
    assert(split_on(line, '\t') == seq![line.take(at)] + seq![tail]);
    assert(line.take(at) + seq!['\t'] + tail =~= line);
}

/// The line made of an address, a tab and a name, neither of which holds a
/// tab, describes the window with that address and that name.
pub proof fn lemma_row_of_line(window: WindowModel)
    requires
        free_of(window.target, '\t'),
        free_of(window.name, '\t'),
    ensures
        row_of(line_of(window)) == Some(window),
{
    let line = line_of(window);
    let at = window.target.len() as int;
    lemma_first_index_of(line, '\t', at);
    assert(line.take(at) =~= window.target);
    assert(line.skip(at + 1) =~= window.name);
    lemma_split_on_whole(window.name, '\t');
    assert(split_on(line, '\t') == seq![window.target] + seq![window.name]);
}

/// A line without a tab describes no window.
pub proof fn lemma_row_of_plain(line: Seq<char>)
    requires
        free_of(line, '\t'),
    ensures
        row_of(line) is None,
{
    lemma_split_on_whole(line, '\t');
}

/// Reading a listing gives back the windows that it was written from, in
/// their order, whenever each of them can stand in a listing.
pub proof fn lemma_listing_round_trip(windows: Seq<WindowModel>)
    requires
        forall|i: int| 0 <= i < windows.len() ==> listable(#[trigger] windows[i]),
    ensures
        windows_of(listing_of(windows)) == windows,
    decreases windows.len(),
{
    if windows.len() > 0 {
        let first = windows[0];
        let others = windows.drop_first();
        let line = line_of(first);
        let text = listing_of(windows);
        let at = line.len() as int;
        assert(listable(first));
        assert forall|i: int| 0 <= i < others.len() implies listable(#[trigger] others[i]) by {
            assert(others[i] == windows[i + 1]);
        }
        lemma_listing_round_trip(others);
        assert forall|j: int| 0 <= j < at implies text[j] != '\n' by {
            if j < first.target.len() {
                assert(text[j] == first.target[j]);
            } else if j > first.target.len() {
                assert(text[j] == first.name[j - first.target.len() - 1]);
            }
        }
        lemma_first_index_of(text, '\n', at);
        assert(text.take(at) =~= line);
        assert(text.skip(at + 1) =~= listing_of(others));
        assert(strip_cr(line) == line) by {
            if first.name.len() > 0 {
                assert(line.last() == first.name.last());
            } else {
                assert(line.last() == '\t');
            }
        }
        lemma_row_of_line(first);
        lemma_rows_of_cons(line, lines_of(listing_of(others)));
        assert(seq![first] + others =~= windows);
    }
}

/// Two listings that ended the same way are answered with the same windows:
/// the answer depends on the outcome of the command and on nothing else.
pub proof fn lemma_listing_repeatable(first: OutcomeModel, second: OutcomeModel)
    requires
        first == second,
    ensures
        listed_windows(first) == listed_windows(second),
{
}

} // verus!
