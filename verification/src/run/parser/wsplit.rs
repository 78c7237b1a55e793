//! The reader for the splits files of WSplit.
//!
//! Such a file is a text of lines. A line that begins with one of the keys
//! `Title=`, `Attempts=`, `Offset=`, `Size=` or `Icons=` sets a field of the
//! run; an empty line says nothing; every other line is a row
//! `name,old time,best run time,best segment time` and stands for one
//! segment. The first faulty line ends the reading.

use super::number::{
    count_of, milliseconds_of_text, parse_count, parse_milliseconds, parse_seconds,
    seconds_of_text, DecimalError, IntegerError,
};
use crate::run::image::Image;
use crate::run::run::{icon_views, Run, RunView};
use crate::run::segment::{Segment, SegmentView};
use crate::text::{
    chars_of, has_prefix, lemma_at_least_one_piece, lines, lines_of, piece_views, pieces_of, split,
    string_of, strip_prefix, to_string,
};
use crate::time::{Time, TimeSpan};
use core::ops::Neg;
use vstd::prelude::*;

verus! {

/// The name of the comparison that holds the old times of a file.
pub const OLD_RUN: &'static str = "Old Run";

/// The key of the line that names the category.
pub const TITLE_KEY: &'static str = "Title=";

/// The key of the line that counts the attempts.
pub const ATTEMPTS_KEY: &'static str = "Attempts=";

/// The key of the line that gives the start offset in milliseconds.
pub const OFFSET_KEY: &'static str = "Offset=";

/// The key of the line that gives the size of the window.
pub const SIZE_KEY: &'static str = "Size=";

/// The key of the line that lists the icon files.
pub const ICONS_KEY: &'static str = "Icons=";

/// Why a text is no splits file of WSplit.
#[derive(Clone, Copy, Debug, PartialEq, Eq, Structural)]
pub enum Error {
    /// A row lacks the name of the segment.
    ExpectedSegmentName,
    /// A row lacks the old time.
    ExpectedOldTime,
    /// A row lacks the time of the best run.
    ExpectedPbTime,
    /// A row lacks the best segment time.
    ExpectedBestTime,
    /// The number of attempts is no count.
    Attempt(IntegerError),
    /// A time is no number in floating-point notation.
    Time(DecimalError),
}

/// What has been read of a file so far.
pub struct Draft {
    /// The run as far as it is built.
    pub run: RunView,
    /// The icon files that the last line of icons asks for, one for each
    /// segment in order; `None` where no file is named.
    pub icon_paths: Seq<Option<Seq<char>>>,
    /// Whether a row held an old time so far.
    pub old_run_exists: bool,
    /// Whether the reader may ask for icon files at all.
    pub load_icons: bool,
}

/// What a row stands for.
pub struct Row {
    /// The segment of the row.
    pub segment: SegmentView,
    /// Whether the row holds an old time.
    pub has_old_time: bool,
}

/// The entry of a time read from a row: a duration of zero stands for no
/// record.
pub open spec fn recorded(span: TimeSpan) -> Time {
    Time { real_time: if span == TimeSpan::zero() { None } else { Some(span) }, game_time: None }
}

/// The segment called `name` with the three times of its row.
pub open spec fn row_segment(name: Seq<char>, old: TimeSpan, pb: TimeSpan, best: TimeSpan) -> Row {
    Row {
        segment: SegmentView {
            name,
            icon: Seq::empty(),
            personal_best_split_time: recorded(pb),
            best_segment_time: recorded(best),
            comparisons: if old == TimeSpan::zero() {
                Map::empty()
            } else {
                Map::empty().insert(OLD_RUN@, recorded(old))
            },
        },
        has_old_time: old != TimeSpan::zero(),
    }
}

/// What the row `line` stands for. The fields are parted by commas; the
/// first four count. A missing field gives the error that names it; then the
/// time of the best run, the best segment time and the old time are read, in
/// this order, and the first that is no number gives the error.
pub open spec fn row_of(line: Seq<char>) -> Result<Row, Error> {
    let fields = pieces_of(line, ',');
    if fields.len() < 1 {
        Err(Error::ExpectedSegmentName)
    } else if fields.len() < 2 {
        Err(Error::ExpectedOldTime)
    } else if fields.len() < 3 {
        Err(Error::ExpectedPbTime)
    } else if fields.len() < 4 {
        Err(Error::ExpectedBestTime)
    } else {
        match seconds_of_text(fields[2]) {
            Err(error) => Err(Error::Time(error)),
            Ok(pb) => match seconds_of_text(fields[3]) {
                Err(error) => Err(Error::Time(error)),
                Ok(best) => match seconds_of_text(fields[1]) {
                    Err(error) => Err(Error::Time(error)),
                    Ok(old) => Ok(row_segment(fields[0], old, pb, best)),
                },
            },
        }
    }
}

/// The icon file that one entry of a line of icons names: the entry without
/// its first and last character, which quote it. An entry of less than two
/// characters names no file.
pub open spec fn icon_path_of(entry: Seq<char>) -> Option<Seq<char>> {
    if entry.len() >= 2 {
        Some(entry.subrange(1, entry.len() - 1))
    } else {
        None
    }
}

/// The icon files that the entries of a line of icons name, in order.
pub open spec fn icon_paths_of(entries: Seq<char>) -> Seq<Option<Seq<char>>> {
    let pieces = pieces_of(entries, ',');
    Seq::new(pieces.len(), |i: int| icon_path_of(pieces[i]))
}

/// Whether `line` is a row: it is not empty and begins with none of the
/// keys.
pub open spec fn is_row(line: Seq<char>) -> bool {
    &&& line.len() > 0
    &&& !has_prefix(line, TITLE_KEY@)
    &&& !has_prefix(line, ATTEMPTS_KEY@)
    &&& !has_prefix(line, OFFSET_KEY@)
    &&& !has_prefix(line, SIZE_KEY@)
    &&& !has_prefix(line, ICONS_KEY@)
}

/// The draft after `line`, or the error that `line` gives.
pub open spec fn apply_line(draft: Draft, line: Seq<char>) -> Result<Draft, Error> {
    if line.len() == 0 {
        Ok(draft)
    } else if has_prefix(line, TITLE_KEY@) {
        Ok(
            Draft {
                run: RunView { category_name: line.skip(TITLE_KEY@.len() as int), ..draft.run },
                ..draft
            },
        )
    } else if has_prefix(line, ATTEMPTS_KEY@) {
        match count_of(line.skip(ATTEMPTS_KEY@.len() as int)) {
            Err(error) => Err(Error::Attempt(error)),
            Ok(attempts) => Ok(
                Draft { run: RunView { attempt_count: attempts, ..draft.run }, ..draft },
            ),
        }
    } else if has_prefix(line, OFFSET_KEY@) {
        let value = line.skip(OFFSET_KEY@.len() as int);
        if value.len() == 0 {
            Ok(draft)
        } else {
            match milliseconds_of_text(value) {
                Err(error) => Err(Error::Time(error)),
                Ok(offset) => Ok(
                    Draft { run: RunView { offset: offset.negated(), ..draft.run }, ..draft },
                ),
            }
        }
    } else if has_prefix(line, SIZE_KEY@) {
        Ok(draft)
    } else if has_prefix(line, ICONS_KEY@) {
        if draft.load_icons {
            Ok(Draft { icon_paths: icon_paths_of(line.skip(ICONS_KEY@.len() as int)), ..draft })
        } else {
            Ok(draft)
        }
    } else {
        match row_of(line) {
            Err(error) => Err(error),
            Ok(row) => Ok(
                Draft {
                    run: RunView { segments: draft.run.segments.push(row.segment), ..draft.run },
                    old_run_exists: draft.old_run_exists || row.has_old_time,
                    ..draft
                },
            ),
        }
    }
}

/// The draft after the lines of `lines` from place `at` on, or the error of
/// the first faulty one among them.
pub open spec fn apply_lines(draft: Draft, lines: Seq<Seq<char>>, at: int) -> Result<Draft, Error>
    decreases lines.len() - at,
{
    if at < 0 || at >= lines.len() {
        Ok(draft)
    } else {
        match apply_line(draft, lines[at]) {
            Err(error) => Err(error),
            Ok(next) => apply_lines(next, lines, at + 1),
        }
    }
}

/// The draft before the first line.
pub open spec fn empty_draft(load_icons: bool) -> Draft {
    Draft {
        run: RunView {
            category_name: Seq::empty(),
            attempt_count: 0,
            offset: TimeSpan::zero(),
            segments: Seq::empty(),
            custom_comparisons: Seq::empty(),
            attempt_history: Seq::empty(),
        },
        icon_paths: Seq::empty(),
        old_run_exists: false,
        load_icons,
    }
}

/// The run of a draft once the last line is read: the comparison of the old
/// times is registered if a row held an old time, and only then.
pub open spec fn finished_run(draft: Draft) -> RunView {
    if draft.old_run_exists && !draft.run.custom_comparisons.contains(OLD_RUN@) {
        RunView { custom_comparisons: draft.run.custom_comparisons.push(OLD_RUN@), ..draft.run }
    } else {
        draft.run
    }
}

/// What reading the whole of `text` gives.
pub open spec fn parse_text(text: Seq<char>, load_icons: bool) -> Result<Draft, Error> {
    apply_lines(empty_draft(load_icons), lines_of(text), 0)
}

/// The rows among the lines of `lines` from place `at` on, in order.
pub open spec fn rows_from(lines: Seq<Seq<char>>, at: int) -> Seq<Seq<char>>
    decreases lines.len() - at,
{
    if at < 0 || at >= lines.len() {
        Seq::empty()
    } else if is_row(lines[at]) {
        seq![lines[at]] + rows_from(lines, at + 1)
    } else {
        rows_from(lines, at + 1)
    }
}

/// The rows of `text`, in order.
pub open spec fn rows_of(text: Seq<char>) -> Seq<Seq<char>> {
    rows_from(lines_of(text), 0)
}

/// Whether one of `segments` from place `from` on holds an old time.
pub open spec fn holds_old_time(segments: Seq<SegmentView>, from: int) -> bool {
    exists|i: int|
        from <= i < segments.len() && (#[trigger] segments[i]).comparisons.dom().contains(OLD_RUN@)
}

/// How the draft after a run of lines relates to the draft before them.
proof fn lemma_reading(draft: Draft, lines: Seq<Seq<char>>, at: int)
    requires
        0 <= at <= lines.len(),
        apply_lines(draft, lines, at) is Ok,
    ensures
        ({
            let end = apply_lines(draft, lines, at)->Ok_0;
            let rows = rows_from(lines, at);
            let kept = draft.run.segments.len() as int;
            &&& end.run.segments.len() == kept + rows.len()
            &&& end.run.segments.take(kept) == draft.run.segments
            &&& forall|i: int|
                0 <= i < rows.len() ==> row_of(#[trigger] rows[i]) is Ok && end.run.segments[kept
                    + i] == row_of(rows[i])->Ok_0.segment
            &&& forall|i: int, name: Seq<char>|
                kept <= i < end.run.segments.len() && #[trigger] end.run.segments[i].comparisons.dom().contains(
                name) ==> name == OLD_RUN@
            &&& end.load_icons == draft.load_icons
            &&& !draft.load_icons ==> end.icon_paths == draft.icon_paths
            &&& end.run.custom_comparisons == draft.run.custom_comparisons
            &&& end.run.attempt_history == draft.run.attempt_history
            &&& end.old_run_exists == (draft.old_run_exists || holds_old_time(
                end.run.segments,
                kept,
            ))
        }),
    decreases lines.len() - at,
{
    let end = apply_lines(draft, lines, at)->Ok_0;
    let kept = draft.run.segments.len() as int;
    if at < lines.len() {
        let line = lines[at];
        let next = apply_line(draft, line)->Ok_0;
        lemma_reading(next, lines, at + 1);
        let rest = rows_from(lines, at + 1);
        if is_row(line) {
            let row = row_of(line)->Ok_0;
            assert(next.run.segments == draft.run.segments.push(row.segment));
            assert(end.run.segments.take(kept + 1) == next.run.segments);
            assert(end.run.segments.take(kept) =~= end.run.segments.take(kept + 1).take(kept));
            assert(end.run.segments.take(kept) =~= draft.run.segments);
            assert(end.run.segments[kept] == end.run.segments.take(kept + 1)[kept]);
            let rows = rows_from(lines, at);
            assert(rows =~= seq![line] + rest);
            assert forall|i: int| 0 <= i < rows.len() implies row_of(#[trigger] rows[i]) is Ok
                && end.run.segments[kept + i] == row_of(rows[i])->Ok_0.segment by {
                if i > 0 {
                    assert(rows[i] == rest[i - 1]);
                    assert(end.run.segments[kept + 1 + (i - 1)] == row_of(
                        rest[i - 1],
                    )->Ok_0.segment);
                }
            }
            assert(row.segment.comparisons.dom().contains(OLD_RUN@) == row.has_old_time);
            assert forall|i: int, name: Seq<char>|
                kept <= i < end.run.segments.len() && #[trigger] end.run.segments[i].comparisons.dom().contains(
                name) implies name == OLD_RUN@ by {}
            if holds_old_time(end.run.segments, kept) {
                let i = choose|i: int|
                    kept <= i < end.run.segments.len() && (
                    #[trigger] end.run.segments[i]).comparisons.dom().contains(OLD_RUN@);
                if i > kept {
                    assert(holds_old_time(end.run.segments, kept + 1));
                }
            }
            if next.old_run_exists && !draft.old_run_exists {
                if row.has_old_time {
                    assert(end.run.segments[kept].comparisons.dom().contains(OLD_RUN@));
                } else {
                    assert(false);
                }
            }
            if holds_old_time(end.run.segments, kept + 1) {
                let i = choose|i: int|
                    kept + 1 <= i < end.run.segments.len() && (
                    #[trigger] end.run.segments[i]).comparisons.dom().contains(OLD_RUN@);
                assert(end.run.segments[i].comparisons.dom().contains(OLD_RUN@));
            }
        } else {
            assert(next.run.segments == draft.run.segments);
        }
    } else {
        assert(end.run.segments.take(kept) =~= draft.run.segments);
    }
}

/// Every row gives one segment: a file that can be read has as many segments
/// as it has rows, in the order of the rows, and each segment bears the
/// first field of its row as its name, character by character.
pub proof fn lemma_one_segment_for_each_row(text: Seq<char>, load_icons: bool)
    requires
        parse_text(text, load_icons) is Ok,
    ensures
        ({
            let run = finished_run(parse_text(text, load_icons)->Ok_0);
            let rows = rows_of(text);
            &&& run.segments.len() == rows.len()
            &&& forall|i: int|
                0 <= i < rows.len() ==> (#[trigger] run.segments[i]).name == pieces_of(
                    rows[i],
                    ',',
                )[0]
        }),
{
    lemma_reading(empty_draft(load_icons), lines_of(text), 0);
    let run = finished_run(parse_text(text, load_icons)->Ok_0);
    let rows = rows_of(text);
    assert forall|i: int| 0 <= i < rows.len() implies (#[trigger] run.segments[i]).name
        == pieces_of(rows[i], ',')[0] by {
        assert(row_of(rows[i]) is Ok);
    }
}

/// A row with less than four fields is rejected with the error that names
/// the first field that is missing, and the draft stays as it was: no draft
/// comes out of the line.
pub proof fn lemma_short_row_is_rejected(draft: Draft, line: Seq<char>)
    requires
        is_row(line),
        pieces_of(line, ',').len() < 4,
    ensures
        pieces_of(line, ',').len() == 1 ==> apply_line(draft, line) == Err::<Draft, Error>(
            Error::ExpectedOldTime,
        ),
        pieces_of(line, ',').len() == 2 ==> apply_line(draft, line) == Err::<Draft, Error>(
            Error::ExpectedPbTime,
        ),
        pieces_of(line, ',').len() == 3 ==> apply_line(draft, line) == Err::<Draft, Error>(
            Error::ExpectedBestTime,
        ),
        1 <= pieces_of(line, ',').len(),
        apply_line(draft, line) is Err,
{
    lemma_at_least_one_piece(line, 0, 0, ',');
}

/// A reader that may not load icons asks for no icon file, whatever lines of
/// icons the file holds.
pub proof fn lemma_no_icon_files_without_permission(text: Seq<char>)
    requires
        parse_text(text, false) is Ok,
    ensures
        parse_text(text, false)->Ok_0.icon_paths.len() == 0,
{
    lemma_reading(empty_draft(false), lines_of(text), 0);
}

/// The comparison of the old times is registered with the run exactly when
/// a segment holds an old time, and no segment holds a time for any other
/// custom comparison: every comparison of a segment is registered.
pub proof fn lemma_old_run_is_registered_iff_recorded(text: Seq<char>, load_icons: bool)
    requires
        parse_text(text, load_icons) is Ok,
    ensures
        ({
            let run = finished_run(parse_text(text, load_icons)->Ok_0);
            &&& run.custom_comparisons.contains(OLD_RUN@) == holds_old_time(run.segments, 0)
            &&& run.custom_comparisons.len() <= 1
            &&& run.comparisons_are_registered()
        }),
{
    lemma_reading(empty_draft(load_icons), lines_of(text), 0);
    let draft = parse_text(text, load_icons)->Ok_0;
    let run = finished_run(draft);
    assert(draft.run.custom_comparisons =~= Seq::<Seq<char>>::empty());
    if draft.old_run_exists {
        assert(run.custom_comparisons[0] == OLD_RUN@);
    }
    assert forall|i: int, name: Seq<char>|
        0 <= i < run.segments.len() && #[trigger] run.segments[i].comparisons.dom().contains(
            name,
        ) implies run.custom_comparisons.contains(name) by {
        assert(name == OLD_RUN@);
        assert(holds_old_time(run.segments, 0));
    }
}

/// The text of each icon file name of `paths`, in the same order.
pub open spec fn path_views(paths: Seq<Option<String>>) -> Seq<Option<Seq<char>>> {
    Seq::new(
        paths.len(),
        |i: int|
            match paths[i] {
                Some(path) => Some(path@),
                None => None,
            },
    )
}

/// Reads a file line by line.
pub struct Parser {
    run: Run,
    icon_paths: Vec<Option<String>>,
    old_run_exists: bool,
    load_icons: bool,
}

/// A file that was read to its end.
pub struct Parsed {
    /// The run, with no icon given to a segment yet.
    pub run: Run,
    /// The icon files that the file asks for, one for each segment in
    /// order; `None` where no file is named. It is empty unless the reader
    /// was allowed to ask for icon files.
    pub icon_paths: Vec<Option<String>>,
}

impl View for Parser {
    type V = Draft;

    closed spec fn view(&self) -> Draft {
        Draft {
            run: self.run@,
            icon_paths: path_views(self.icon_paths@),
            old_run_exists: self.old_run_exists,
            load_icons: self.load_icons,
        }
    }
}

/// Reads the row `line`.
fn read_row(line: &Vec<char>) -> (result: Result<(Segment, bool), Error>)
    ensures
        match result {
            Ok((segment, has_old_time)) => row_of(line@) == Ok::<Row, Error>(
                Row { segment: segment@, has_old_time },
            ),
            Err(error) => row_of(line@) == Err::<Row, Error>(error),
        },
{
    let fields = split(line, ',');
    assert(piece_views(fields@).len() == fields@.len());
    if fields.len() < 1 {
        return Err(Error::ExpectedSegmentName);
    }
    if fields.len() < 2 {
        return Err(Error::ExpectedOldTime);
    }
    if fields.len() < 3 {
        return Err(Error::ExpectedPbTime);
    }
    if fields.len() < 4 {
        return Err(Error::ExpectedBestTime);
    }
    assert(piece_views(fields@)[0] == fields@[0]@);
    assert(piece_views(fields@)[1] == fields@[1]@);
    assert(piece_views(fields@)[2] == fields@[2]@);
    assert(piece_views(fields@)[3] == fields@[3]@);
    let pb = match parse_seconds(&fields[2]) {
        Ok(span) => span,
        Err(error) => {
            return Err(Error::Time(error));
        },
    };
    let best = match parse_seconds(&fields[3]) {
        Ok(span) => span,
        Err(error) => {
            return Err(Error::Time(error));
        },
    };
    let old = match parse_seconds(&fields[1]) {
        Ok(span) => span,
        Err(error) => {
            return Err(Error::Time(error));
        },
    };
    let name = to_string(&fields[0]);
    let mut segment = Segment::new(name.as_str());
    let mut has_old_time = false;
    if pb != TimeSpan::zero() {
        segment.set_personal_best_split_time(Time::new().with_real_time(Some(pb)));
    }
    if best != TimeSpan::zero() {
        segment.set_best_segment_time(Time::new().with_real_time(Some(best)));
    }
    if old != TimeSpan::zero() {
        segment.set_comparison(OLD_RUN, Time::new().with_real_time(Some(old)));
        has_old_time = true;
        proof {
            lemma_old_run_is_custom();
        }
    }
    assert(segment@.comparisons =~= row_segment(fields@[0]@, old, pb, best).segment.comparisons);
    Ok((segment, has_old_time))
}

/// The comparison of the old times is not the personal best.
pub proof fn lemma_old_run_is_custom()
    ensures
        OLD_RUN@ != crate::run::segment::PERSONAL_BEST@,
{
    reveal_strlit("Old Run");
    reveal_strlit("Personal Best");
    assert(OLD_RUN@.len() == 7);
    assert(crate::run::segment::PERSONAL_BEST@.len() == 13);
}

/// Reads the icon files that the entries of a line of icons name.
fn read_icon_paths(entries: &Vec<char>) -> (paths: Vec<Option<String>>)
    ensures
        path_views(paths@) == icon_paths_of(entries@),
{
    let pieces = split(entries, ',');
    let mut paths: Vec<Option<String>> = Vec::new();
    let mut at: usize = 0;
    while at < pieces.len()
        invariant
            at <= pieces.len(),
            paths@.len() == at,
            piece_views(pieces@) == pieces_of(entries@, ','),
            forall|i: int|
                0 <= i < at ==> #[trigger] path_views(paths@)[i] == icon_path_of(pieces@[i]@),
        decreases pieces.len() - at,
    {
        let piece = &pieces[at];
        let ghost before = path_views(paths@);
        if piece.len() >= 2 {
            let path = string_of(piece, 1, piece.len() - 1);
            paths.push(Some(path));
        } else {
            paths.push(None);
        }
        assert forall|i: int| 0 <= i < at + 1 implies #[trigger] path_views(paths@)[i]
            == icon_path_of(pieces@[i]@) by {
            if i < at {
                assert(path_views(paths@)[i] == before[i]);
            }
        }
        at += 1;
    }
    assert(path_views(paths@) =~= icon_paths_of(entries@)) by {
        assert forall|i: int| 0 <= i < pieces@.len() implies piece_views(pieces@)[i]
            == pieces@[i]@ by {}
    }
    paths
}

impl Parser {
    /// The reader before the first line. With `load_icons` unset it never
    /// asks for an icon file, whatever the file says.
    pub fn new(load_icons: bool) -> (result: Parser)
        ensures
            result@ == empty_draft(load_icons),
    {
        let parser = Parser {
            run: Run::new(),
            icon_paths: Vec::new(),
            old_run_exists: false,
            load_icons,
        };
        assert(parser@.icon_paths =~= Seq::empty());
        parser
    }

    /// Reads one line, given without its line end. A faulty line gives its
    /// error and leaves what was read before untouched.
    pub fn feed_line(&mut self, line: &str) -> (result: Result<(), Error>)
        ensures
            match apply_line(old(self)@, line@) {
                Ok(draft) => result is Ok && final(self)@ == draft,
                Err(error) => result == Err::<(), Error>(error) && final(self)@ == old(self)@,
            },
    {
        let line = chars_of(line);
        self.feed(&line)
    }

    /// Reads one line.
    fn feed(&mut self, line: &Vec<char>) -> (result: Result<(), Error>)
        ensures
            match apply_line(old(self)@, line@) {
                Ok(draft) => result is Ok && final(self)@ == draft,
                Err(error) => result == Err::<(), Error>(error) && final(self)@ == old(self)@,
            },
    {
        if line.len() == 0 {
            return Ok(());
        }
        if let Some(title) = strip_prefix(line, TITLE_KEY) {
            self.run.set_category_name(to_string(&title).as_str());
            return Ok(());
        }
        if let Some(attempts) = strip_prefix(line, ATTEMPTS_KEY) {
            return match parse_count(&attempts) {
                Ok(count) => {
                    self.run.set_attempt_count(count);
                    Ok(())
                },
                Err(error) => Err(Error::Attempt(error)),
            };
        }
        if let Some(offset) = strip_prefix(line, OFFSET_KEY) {
            if offset.len() == 0 {
                return Ok(());
            }
            return match parse_milliseconds(&offset) {
                Ok(span) => {
                    self.run.set_offset(span.neg());
                    Ok(())
                },
                Err(error) => Err(Error::Time(error)),
            };
        }
        if let Some(_size) = strip_prefix(line, SIZE_KEY) {
            return Ok(());
        }
        if let Some(entries) = strip_prefix(line, ICONS_KEY) {
            if self.load_icons {
                self.icon_paths = read_icon_paths(&entries);
            }
            return Ok(());
        }
        match read_row(line) {
            Ok((segment, has_old_time)) => {
                self.run.push_segment(segment);
                if has_old_time {
                    self.old_run_exists = true;
                }
                Ok(())
            },
            Err(error) => Err(error),
        }
    }

    /// Ends the reading: registers the comparison of the old times if a row
    /// held one, and hands out the run with the icon files that it asks
    /// for.
    pub fn finish(self) -> (result: Parsed)
        ensures
            result.run@ == finished_run(self@),
            path_views(result.icon_paths@) == self@.icon_paths,
    {
        let mut run = self.run;
        if self.old_run_exists {
            run.add_custom_comparison(OLD_RUN);
        }
        Parsed { run, icon_paths: self.icon_paths }
    }
}

/// The bytes of the icon that each of `loaded` stands for, in the same
/// order: those of the icon where one was loaded, none where none was.
pub open spec fn loaded_views(loaded: Seq<Option<Image>>) -> Seq<Seq<u8>> {
    Seq::new(
        loaded.len(),
        |i: int|
            match loaded[i] {
                Some(icon) => icon@,
                None => Seq::empty(),
            },
    )
}

impl Parsed {
    /// Gives the icons to the segments by position, the first icon to the
    /// first segment and so on, and hands out the run.
    pub fn into_run(self, icons: Vec<Image>) -> (result: Run)
        ensures
            result@ == self.run@.with_icons(icon_views(icons@)),
    {
        let mut run = self.run;
        run.assign_icons(icons);
        run
    }

    /// Gives the segments what was loaded from the files of `icon_paths`,
    /// by position, and hands out the run: the icon where one was loaded,
    /// and the empty icon where no file is named or the file could not be
    /// read. A failed load never fails the reading.
    pub fn into_run_with(self, loaded: Vec<Option<Image>>) -> (result: Run)
        ensures
            result@ == self.run@.with_icons(loaded_views(loaded@)),
    {
        let mut loaded = loaded;
        let ghost all = loaded_views(loaded@);
        let mut icons: Vec<Image> = Vec::new();
        let mut run = self.run;
        while loaded.len() > 0
            invariant
                loaded@.len() <= all.len(),
                loaded_views(loaded@) == all.take(loaded@.len() as int),
                run@.segments.len() == self.run@.segments.len(),
                run@ == (RunView { segments: run@.segments, ..self.run@ }),
                forall|i: int|
                    0 <= i < run@.segments.len() ==> #[trigger] run@.segments[i] == if loaded@.len()
                        <= i < all.len() {
                        SegmentView { icon: all[i], ..self.run@.segments[i] }
                    } else {
                        self.run@.segments[i]
                    },
            decreases loaded@.len(),
        {
            let at: usize = loaded.len() - 1;
            let ghost before = loaded_views(loaded@);
            let icon = match loaded.pop() {
                Some(Some(icon)) => icon,
                _ => Image::default(),
            };
            assert(icon@ == before[at as int]);
            assert(loaded_views(loaded@) =~= all.take(loaded@.len() as int));
            if at < run.len() {
                run.set_segment_icon(at, icon);
            }
        }
        assert(run@.segments =~= self.run@.with_icons(all).segments);
        run
    }
}

/// Reads the splits file `source`. With `load_icons` unset the result asks
/// for no icon file, whatever the file says: a caller that must not touch
/// the file system passes `false`.
pub fn parse(source: &str, load_icons: bool) -> (result: Result<Parsed, Error>)
    ensures
        match parse_text(source@, load_icons) {
            Ok(draft) => match result {
                Ok(parsed) => parsed.run@ == finished_run(draft) && path_views(
                    parsed.icon_paths@,
                ) == draft.icon_paths,
                Err(_) => false,
            },
            Err(error) => match result {
                Ok(_) => false,
                Err(found) => found == error,
            },
        },
        !load_icons ==> match result {
            Ok(parsed) => parsed.icon_paths@.len() == 0,
            Err(_) => true,
        },
{
    let text = chars_of(source);
    let all = lines(&text);
    let mut parser = Parser::new(load_icons);
    let mut at: usize = 0;
    while at < all.len()
        invariant
            at <= all.len(),
            piece_views(all@) == lines_of(source@),
            parse_text(source@, load_icons) == apply_lines(
                parser@,
                lines_of(source@),
                at as int,
            ),
        decreases all.len() - at,
    {
        assert(piece_views(all@)[at as int] == all@[at as int]@);
        match parser.feed(&all[at]) {
            Ok(()) => {},
            Err(error) => {
                return Err(error);
            },
        }
        at += 1;
    }
    assert(piece_views(all@).len() == all@.len());
    proof {
        if !load_icons {
            lemma_no_icon_files_without_permission(source@);
        }
    }
    let parsed = parser.finish();
    assert(path_views(parsed.icon_paths@).len() == parsed.icon_paths@.len());
    Ok(parsed)
}

} // verus!
