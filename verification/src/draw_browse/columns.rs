//! Columns of the file list.

use crate::browse::{BrowseEntry, CachedInfo, EntryKind};
use crate::button_map::BrowseColumn;
use crate::display_width::{pad_or_truncate as fit, padded};
use crate::size::{size_str, size_text};
use crate::style::{bold_fg, dimmed, fg, muted, Style, Tone};
use crate::text::{minus, most, owned, plus, trim, trimmed};
use vstd::prelude::*;

verus! {

/// Cursor, selection mark and a space, before the columns.
pub const ROW_PREFIX: usize = 4;

pub const ROW_CURSOR_W: usize = 2;

pub const ROW_GUTTER_W: usize = 2;

/// Spaces between the columns and the right border.
pub const ROW_TRAILING: usize = 2;

/// The name column is never narrower than this while there are other columns.
pub const MIN_NAME_W: usize = 8;

/// A column with its width.
#[derive(Clone, Copy, Debug, PartialEq, Eq, Structural)]
pub struct BrowseColumnCell {
    pub column: BrowseColumn,
    pub width: usize,
}

/// The width of a column. That of the name column is its least.
#[verifier::allow_in_spec]
pub fn column_fixed_width(column: BrowseColumn) -> usize
    returns
        (match column {
            BrowseColumn::Name => 8usize,
            BrowseColumn::Size => 9,
            BrowseColumn::Date => 12,
            BrowseColumn::Type => 8,
            BrowseColumn::Format => 8,
            BrowseColumn::Codec => 12,
            BrowseColumn::SampleRate => 11,
            BrowseColumn::Channels => 8,
            BrowseColumn::Duration => 9,
            BrowseColumn::Artist => 16,
            BrowseColumn::Album => 16,
        }),
{
    match column {
        BrowseColumn::Name => 8,
        BrowseColumn::Size => 9,
        BrowseColumn::Date => 12,
        BrowseColumn::Type => 8,
        BrowseColumn::Format => 8,
        BrowseColumn::Codec => 12,
        BrowseColumn::SampleRate => 11,
        BrowseColumn::Channels => 8,
        BrowseColumn::Duration => 9,
        BrowseColumn::Artist => 16,
        BrowseColumn::Album => 16,
    }
}

/// Whether a column's values stand at its right edge.
#[verifier::allow_in_spec]
pub fn column_right_aligned(column: BrowseColumn) -> bool
    returns
        (match column {
            BrowseColumn::Size | BrowseColumn::SampleRate | BrowseColumn::Channels
            | BrowseColumn::Duration => true,
            _ => false,
        }),
{
    match column {
        BrowseColumn::Size | BrowseColumn::SampleRate | BrowseColumn::Channels
        | BrowseColumn::Duration => true,
        _ => false,
    }
}

/// Whether a column shows what a probe found.
#[verifier::allow_in_spec]
pub fn is_audio_column(column: BrowseColumn) -> bool
    returns
        (match column {
            BrowseColumn::Format | BrowseColumn::Codec | BrowseColumn::SampleRate
            | BrowseColumn::Channels | BrowseColumn::Duration | BrowseColumn::Artist
            | BrowseColumn::Album => true,
            _ => false,
        }),
{
    match column {
        BrowseColumn::Format | BrowseColumn::Codec | BrowseColumn::SampleRate
        | BrowseColumn::Channels | BrowseColumn::Duration | BrowseColumn::Artist
        | BrowseColumn::Album => true,
        _ => false,
    }
}

/// The name of a column in its heading.
pub open spec fn heading(column: BrowseColumn) -> Seq<char> {
    match column {
        BrowseColumn::Name => "name"@,
        BrowseColumn::Size => "size"@,
        BrowseColumn::Date => "date"@,
        BrowseColumn::Type => "type"@,
        BrowseColumn::Format => "format"@,
        BrowseColumn::Codec => "codec"@,
        BrowseColumn::SampleRate => "sample_rate"@,
        BrowseColumn::Channels => "channels"@,
        BrowseColumn::Duration => "duration"@,
        BrowseColumn::Artist => "artist"@,
        BrowseColumn::Album => "album"@,
    }
}

/// The name of a column in its heading.
pub fn config_key(column: BrowseColumn) -> (r: &'static str)
    ensures
        r@ == heading(column),
{
    match column {
        BrowseColumn::Name => "name",
        BrowseColumn::Size => "size",
        BrowseColumn::Date => "date",
        BrowseColumn::Type => "type",
        BrowseColumn::Format => "format",
        BrowseColumn::Codec => "codec",
        BrowseColumn::SampleRate => "sample_rate",
        BrowseColumn::Channels => "channels",
        BrowseColumn::Duration => "duration",
        BrowseColumn::Artist => "artist",
        BrowseColumn::Album => "album",
    }
}

/// The name column, then the first `n` configured columns, each once, in the order
/// of their first mention.
pub open spec fn wanted_columns(configured: Seq<BrowseColumn>, n: nat) -> Seq<BrowseColumn>
    decreases n,
{
    if n == 0 || n > configured.len() {
        seq![BrowseColumn::Name]
    } else {
        let front = wanted_columns(configured, (n - 1) as nat);
        if front.contains(configured[n - 1]) {
            front
        } else {
            front.push(configured[n - 1])
        }
    }
}

/// The widths of the first `n` columns, without the name column.
pub open spec fn fixed_total(columns: Seq<BrowseColumn>, n: nat) -> int
    decreases n,
{
    if n == 0 || n > columns.len() {
        0
    } else {
        let front = fixed_total(columns, (n - 1) as nat);
        if columns[n - 1] == BrowseColumn::Name {
            front
        } else {
            plus(front, column_fixed_width(columns[n - 1]) as int)
        }
    }
}

/// What a row needs besides the name: prefix, trailing space, the other columns and
/// a space between neighbours.
pub open spec fn row_overhead(columns: Seq<BrowseColumn>) -> int {
    plus(plus(6, fixed_total(columns, columns.len())), minus(columns.len() as int, 1))
}

/// `columns` without as many at the end as it takes for the rest to fit.
pub open spec fn fitted_columns(inner_width: int, columns: Seq<BrowseColumn>) -> Seq<BrowseColumn>
    decreases columns.len(),
{
    if columns.len() > 1 && plus(row_overhead(columns), MIN_NAME_W as int) > inner_width {
        fitted_columns(inner_width, columns.drop_last())
    } else {
        columns
    }
}

/// The columns shown in a list of `inner_width` columns.
pub open spec fn shown_columns(inner_width: int, configured: Seq<BrowseColumn>) -> Seq<BrowseColumn> {
    fitted_columns(inner_width, wanted_columns(configured, configured.len()))
}

/// `columns` with their widths: the name takes what the others leave, at least one.
pub open spec fn cells(inner_width: int, columns: Seq<BrowseColumn>) -> Seq<BrowseColumnCell> {
    Seq::new(
        columns.len(),
        |i: int|
            BrowseColumnCell {
                column: columns[i],
                width: if columns[i] == BrowseColumn::Name {
                    most(minus(inner_width, row_overhead(columns)), 1) as usize
                } else {
                    column_fixed_width(columns[i])
                },
            },
    )
}

/// The columns shown in a list of `inner_width` columns, with their widths.
pub open spec fn column_layout(inner_width: int, configured: Seq<BrowseColumn>) -> Seq<BrowseColumnCell> {
    cells(inner_width, shown_columns(inner_width, configured))
}

fn has_column(columns: &Vec<BrowseColumn>, column: BrowseColumn) -> (r: bool)
    ensures
        r == columns@.contains(column),
{
    for i in 0..columns.len()
        invariant
            forall|j: int| 0 <= j < i ==> columns@[j] != column,
    {
        if columns[i] == column {
            return true;
        }
    }
    false
}

fn overhead(columns: &Vec<BrowseColumn>) -> (r: usize)
    ensures
        r == row_overhead(columns@),
{
    let mut total: usize = 0;
    for i in 0..columns.len()
        invariant
            total == fixed_total(columns@, i as nat),
    {
        if columns[i] != BrowseColumn::Name {
            total = total.saturating_add(column_fixed_width(columns[i]));
        }
    }
    let six: usize = ROW_PREFIX + ROW_TRAILING;
    six.saturating_add(total).saturating_add(columns.len().saturating_sub(1))
}

/// The columns shown in a list of `inner_width` columns, with their widths. The name
/// comes first, no column comes twice, and columns at the end give way until the
/// name has its least width.
pub fn browse_column_layout(inner_width: usize, configured: &Vec<BrowseColumn>) -> (r: Vec<
    BrowseColumnCell,
>)
    ensures
        r@ == column_layout(inner_width as int, configured@),
{
    let mut columns: Vec<BrowseColumn> = Vec::new();
    columns.push(BrowseColumn::Name);
    for i in 0..configured.len()
        invariant
            columns@ == wanted_columns(configured@, i as nat),
    {
        if !has_column(&columns, configured[i]) {
            columns.push(configured[i]);
        }
    }
    let ghost wanted = columns@;
    while columns.len() > 1 && overhead(&columns).saturating_add(MIN_NAME_W) > inner_width
        invariant
            fitted_columns(inner_width as int, columns@) == fitted_columns(
                inner_width as int,
                wanted,
            ),
        decreases columns@.len(),
    {
        let ghost before = columns@;
        columns.pop();
        proof {
            assert(columns@ =~= before.drop_last());
        }
    }
    let rest: usize = inner_width.saturating_sub(overhead(&columns));
    let name_width: usize = if rest >= 1 { rest } else { 1 };
    let mut out: Vec<BrowseColumnCell> = Vec::new();
    for i in 0..columns.len()
        invariant
            name_width == most(minus(inner_width as int, row_overhead(columns@)), 1),
            out@ =~= cells(inner_width as int, columns@).take(i as int),
    {
        let column = columns[i];
        let width: usize = if column == BrowseColumn::Name {
            name_width
        } else {
            column_fixed_width(column)
        };
        out.push(BrowseColumnCell { column, width });
    }
    proof {
        assert(out@ =~= cells(inner_width as int, columns@));
    }
    out
}

/// The width of the name column among the cells from `from` on.
pub open spec fn name_width_from(layout: Seq<BrowseColumnCell>, from: int) -> usize
    decreases layout.len() - from,
{
    if 0 <= from < layout.len() {
        if layout[from].column == BrowseColumn::Name {
            layout[from].width
        } else {
            name_width_from(layout, from + 1)
        }
    } else {
        MIN_NAME_W
    }
}

/// The width of the name column.
pub fn name_column_width(layout: &Vec<BrowseColumnCell>) -> (r: usize)
    ensures
        r == name_width_from(layout@, 0),
{
    let mut i: usize = 0;
    while i < layout.len()
        invariant
            i <= layout@.len(),
            name_width_from(layout@, i as int) == name_width_from(layout@, 0),
        decreases layout@.len() - i,
    {
        if layout[i].column == BrowseColumn::Name {
            return layout[i].width;
        }
        i += 1;
    }
    MIN_NAME_W
}

proof fn lemma_wanted(configured: Seq<BrowseColumn>, n: nat)
    requires
        n <= configured.len(),
    ensures
        wanted_columns(configured, n).len() >= 1,
        wanted_columns(configured, n)[0] == BrowseColumn::Name,
        wanted_columns(configured, n).no_duplicates(),
        forall|i: int|
            1 <= i < wanted_columns(configured, n).len() ==> configured.contains(
                #[trigger] wanted_columns(configured, n)[i],
            ),
    decreases n,
{
    if n > 0 {
        lemma_wanted(configured, (n - 1) as nat);
        assert(configured.contains(configured[n - 1]));
    }
}

proof fn lemma_fitted(inner_width: int, columns: Seq<BrowseColumn>)
    requires
        columns.len() >= 1,
    ensures
        1 <= fitted_columns(inner_width, columns).len() <= columns.len(),
        fitted_columns(inner_width, columns) == columns.take(
            fitted_columns(inner_width, columns).len() as int,
        ),
        fitted_columns(inner_width, columns).len() > 1 ==> plus(
            row_overhead(fitted_columns(inner_width, columns)),
            MIN_NAME_W as int,
        ) <= inner_width,
    decreases columns.len(),
{
    if columns.len() > 1 && plus(row_overhead(columns), MIN_NAME_W as int) > inner_width {
        lemma_fitted(inner_width, columns.drop_last());
        let k = fitted_columns(inner_width, columns).len() as int;
        assert(columns.drop_last().take(k) =~= columns.take(k));
    } else {
        assert(columns.take(columns.len() as int) =~= columns);
    }
}

/// The name is always shown, and first; no column is shown twice; and every other
/// column shown was configured.
pub proof fn name_is_first_and_columns_are_distinct(inner_width: int, configured: Seq<BrowseColumn>)
    ensures
        ({
            let shown = shown_columns(inner_width, configured);
            &&& shown.len() >= 1
            &&& shown[0] == BrowseColumn::Name
            &&& shown.no_duplicates()
            &&& forall|i: int|
                1 <= i < shown.len() ==> configured.contains(#[trigger] shown[i])
        }),
{
    let wanted = wanted_columns(configured, configured.len());
    lemma_wanted(configured, configured.len());
    lemma_fitted(inner_width, wanted);
    let shown = shown_columns(inner_width, configured);
    assert forall|i: int, j: int| 0 <= i < j < shown.len() implies shown[i] != shown[j] by {
        assert(shown[i] == wanted[i]);
        assert(shown[j] == wanted[j]);
    }
    assert forall|i: int| 1 <= i < shown.len() implies configured.contains(
        #[trigger] shown[i],
    ) by {
        assert(shown[i] == wanted[i]);
    }
}

proof fn lemma_total_is_natural(columns: Seq<BrowseColumn>, n: nat)
    ensures
        fixed_total(columns, n) >= 0,
    decreases n,
{
    if n > 0 && n <= columns.len() {
        lemma_total_is_natural(columns, (n - 1) as nat);
    }
}

/// As long as any column stands beside the name, the row fits and the name has its
/// least width or more.
pub proof fn shown_columns_fit(inner_width: int, configured: Seq<BrowseColumn>)
    requires
        inner_width < usize::MAX,
        shown_columns(inner_width, configured).len() > 1,
    ensures
        ({
            let shown = shown_columns(inner_width, configured);
            let layout = column_layout(inner_width, configured);
            &&& layout[0].width >= MIN_NAME_W
            &&& layout[0].width + row_overhead(shown) == inner_width
        }),
{
    let wanted = wanted_columns(configured, configured.len());
    lemma_wanted(configured, configured.len());
    lemma_fitted(inner_width, wanted);
    name_is_first_and_columns_are_distinct(inner_width, configured);
    let shown = shown_columns(inner_width, configured);
    lemma_total_is_natural(shown, shown.len());
}

/// `value`, unless it is blank.
pub open spec fn non_blank(value: Seq<char>) -> Option<Seq<char>> {
    if trimmed(value).len() == 0 {
        None
    } else {
        Some(value)
    }
}

/// A copy of `value`, unless it is blank.
pub fn non_empty_str(value: &str) -> (r: Option<String>)
    ensures
        match r {
            Some(text) => non_blank(value@) == Some(text@),
            None => non_blank(value@) is None,
        },
{
    if trim(value).as_str().is_empty() {
        None
    } else {
        Some(owned(value))
    }
}

/// `value`, unless it is blank.
pub fn non_empty_owned(value: String) -> (r: Option<String>)
    ensures
        match r {
            Some(text) => non_blank(value@) == Some(text@),
            None => non_blank(value@) is None,
        },
{
    if trim(value.as_str()).as_str().is_empty() {
        None
    } else {
        Some(value)
    }
}

/// An optional value, unless it is blank.
pub open spec fn non_blank_tag(value: Option<String>) -> Option<Seq<char>> {
    match value {
        Some(text) => non_blank(text@),
        None => None,
    }
}

fn non_empty_tag(value: &Option<String>) -> (r: Option<String>)
    ensures
        match r {
            Some(text) => non_blank_tag(*value) == Some(text@),
            None => non_blank_tag(*value) is None,
        },
{
    match value {
        Some(text) => non_empty_str(text.as_str()),
        None => None,
    }
}

/// What a probed file has in an audio column.
pub open spec fn probed_value(entry: BrowseEntry, column: BrowseColumn, info: CachedInfo) -> Option<
    Seq<char>,
> {
    match column {
        BrowseColumn::Format => match non_blank(info.source.format_name@) {
            Some(name) => Some(name),
            None => Some(entry.type_label@),
        },
        BrowseColumn::Codec => non_blank(info.source.codec_display@),
        BrowseColumn::SampleRate => if info.source.sample_rate > 0 {
            Some(info.source.sample_rate_display@)
        } else {
            None
        },
        BrowseColumn::Channels => if info.source.channels > 0 {
            Some(info.source.channels_display@)
        } else {
            None
        },
        BrowseColumn::Duration => match info.source.duration_display {
            Some(duration) => Some(duration@),
            None => None,
        },
        BrowseColumn::Artist => non_blank_tag(info.metadata.artist),
        BrowseColumn::Album => non_blank_tag(info.metadata.album),
        _ => None,
    }
}

fn value_of_probe(entry: &BrowseEntry, column: BrowseColumn, info: &CachedInfo) -> (r: Option<
    String,
>)
    ensures
        match r {
            Some(text) => probed_value(*entry, column, *info) == Some(text@),
            None => probed_value(*entry, column, *info) is None,
        },
{
    match column {
        BrowseColumn::Format => match non_empty_str(info.source.format_name.as_str()) {
            Some(name) => Some(name),
            None => Some(owned(entry.type_label.as_str())),
        },
        BrowseColumn::Codec => non_empty_owned(owned(info.source.codec_display.as_str())),
        BrowseColumn::SampleRate => if info.source.sample_rate > 0 {
            Some(owned(info.source.sample_rate_display.as_str()))
        } else {
            None
        },
        BrowseColumn::Channels => if info.source.channels > 0 {
            Some(owned(info.source.channels_display.as_str()))
        } else {
            None
        },
        BrowseColumn::Duration => match &info.source.duration_display {
            Some(duration) => Some(owned(duration.as_str())),
            None => None,
        },
        BrowseColumn::Artist => non_empty_tag(&info.metadata.artist),
        BrowseColumn::Album => non_empty_tag(&info.metadata.album),
        _ => None,
    }
}

/// What an entry has in an audio column: a dash where it is no audio file, is not
/// probed, or the probe found nothing.
pub open spec fn audio_value(
    entry: BrowseEntry,
    column: BrowseColumn,
    cached: Option<&CachedInfo>,
) -> Seq<char> {
    match cached {
        Some(info) => if entry.audio() {
            match probed_value(entry, column, *info) {
                Some(value) => value,
                None => "—"@,
            }
        } else {
            "—"@
        },
        None => "—"@,
    }
}

/// What an entry has in an audio column.
pub fn audio_column_value(
    entry: &BrowseEntry,
    column: BrowseColumn,
    cached: Option<&CachedInfo>,
) -> (r: String)
    ensures
        r@ == audio_value(*entry, column, cached),
{
    if !entry.is_audio() {
        return owned("—");
    }
    match cached {
        Some(info) => match value_of_probe(entry, column, info) {
            Some(value) => value,
            None => owned("—"),
        },
        None => owned("—"),
    }
}

/// What an entry has in a column.
pub open spec fn column_text(
    entry: BrowseEntry,
    column: BrowseColumn,
    cached: Option<&CachedInfo>,
) -> Seq<char> {
    match column {
        BrowseColumn::Name => entry.name@,
        BrowseColumn::Size => match entry.kind {
            EntryKind::ParentDir | EntryKind::Directory => ""@,
            _ => size_text(entry.size as nat),
        },
        BrowseColumn::Date => entry.date_label@,
        BrowseColumn::Type => entry.type_label@,
        _ => audio_value(entry, column, cached),
    }
}

/// What an entry has in a column.
pub fn entry_column_text(
    entry: &BrowseEntry,
    column: BrowseColumn,
    cached: Option<&CachedInfo>,
) -> (r: String)
    ensures
        r@ == column_text(*entry, column, cached),
{
    match column {
        BrowseColumn::Name => owned(entry.name.as_str()),
        BrowseColumn::Size => match &entry.kind {
            EntryKind::ParentDir | EntryKind::Directory => owned(""),
            _ => size_str(entry.size),
        },
        BrowseColumn::Date => owned(entry.date_label.as_str()),
        BrowseColumn::Type => owned(entry.type_label.as_str()),
        _ => audio_column_value(entry, column, cached),
    }
}

/// Pad a text to `width` columns, or truncate it with an ellipsis if it is too long.
/// `right_align` pads on the left.
pub fn pad_or_truncate(s: &str, width: usize, right_align: bool) -> (r: String)
    ensures
        r@ == padded(s@, width as int, right_align),
{
    fit(s, width, right_align)
}

/// The style of an entry's name.
pub open spec fn name_style(entry: BrowseEntry, is_selected: bool) -> Style {
    if entry.is_broken_symlink {
        fg(Tone::Destructive)
    } else {
        match entry.kind {
            EntryKind::ParentDir => fg(Tone::TextMuted),
            EntryKind::Directory => fg(Tone::Blue),
            EntryKind::AudioFile(_) => if is_selected {
                bold_fg(Tone::TextBright)
            } else {
                fg(Tone::Text)
            },
            EntryKind::Archive => fg(Tone::Amber),
            EntryKind::OtherFile => dimmed(),
            _ => fg(Tone::Purple),
        }
    }
}

/// The style of an entry's name.
pub fn entry_name_style(entry: &BrowseEntry, is_selected: bool) -> (r: Style)
    ensures
        r == name_style(*entry, is_selected),
{
    if entry.is_broken_symlink {
        return fg(Tone::Destructive);
    }
    match &entry.kind {
        EntryKind::ParentDir => fg(Tone::TextMuted),
        EntryKind::Directory => fg(Tone::Blue),
        EntryKind::AudioFile(_) => if is_selected {
            bold_fg(Tone::TextBright)
        } else {
            fg(Tone::Text)
        },
        EntryKind::Archive => fg(Tone::Amber),
        EntryKind::OtherFile => dimmed(),
        _ => fg(Tone::Purple),
    }
}

/// The style of an entry's value in a column.
pub open spec fn column_style(entry: BrowseEntry, column: BrowseColumn, cached: Option<&CachedInfo>) -> Style {
    if is_audio_column(column) && (!entry.audio() || cached is None) {
        dimmed()
    } else {
        muted()
    }
}

/// The style of an entry's value in a column.
pub fn entry_column_style(
    entry: &BrowseEntry,
    column: BrowseColumn,
    cached: Option<&CachedInfo>,
) -> (r: Style)
    ensures
        r == column_style(*entry, column, cached),
{
    if is_audio_column(column) && (!entry.is_audio() || cached.is_none()) {
        dimmed()
    } else {
        muted()
    }
}

} // verus!
