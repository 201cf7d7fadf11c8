//! The listing of a database: keys and value sizes as a fixed-width table.
use vstd::prelude::*;
use vstd::string::*;
use vstd::utf8::*;
use crate::text::{append_dashes, append_padded, decimal, decimal_text, padded, repeated};

verus! {

/// One record of a listing: its key and the number of bytes of its value.
#[derive(Clone, Debug, PartialEq, Eq)]
pub struct ListEntry {
    pub key: String,
    pub size: usize,
}

/// What a [`ListEntry`] stands for.
pub struct EntryView {
    pub key: Seq<char>,
    pub size: nat,
}

impl View for ListEntry {
    type V = EntryView;

    open spec fn view(&self) -> EntryView {
        EntryView { key: self.key@, size: self.size as nat }
    }
}

/// The entries of a listing, each by its view.
pub open spec fn entries_view(entries: Seq<ListEntry>) -> Seq<EntryView> {
    Seq::new(entries.len(), |i: int| entries[i]@)
}

/// The lines of a text, each by its view.
pub open spec fn lines_view(lines: Seq<String>) -> Seq<Seq<char>> {
    Seq::new(lines.len(), |i: int| lines[i]@)
}

/// The key column is never narrower than its heading, `Key`.
pub const KEY_FLOOR: usize = 3;

/// The size column is never narrower than its heading, `Size (bytes)`.
pub const SIZE_FLOOR: usize = 12;

/// The room a key asks for in its column: its length in bytes of UTF-8.
pub open spec fn key_extent(key: Seq<char>) -> nat {
    encode_utf8(key).len()
}

/// The width of the key column: the largest room any key asks for, and at
/// least [`KEY_FLOOR`].
pub open spec fn key_width(entries: Seq<EntryView>) -> nat
    decreases entries.len(),
{
    if entries.len() == 0 {
        KEY_FLOOR as nat
    } else {
        let before = key_width(entries.drop_last());
        let here = key_extent(entries.last().key);
        if here > before {
            here
        } else {
            before
        }
    }
}

/// The width of the size column: the largest number of digits of any size,
/// and at least [`SIZE_FLOOR`].
pub open spec fn size_width(entries: Seq<EntryView>) -> nat
    decreases entries.len(),
{
    if entries.len() == 0 {
        SIZE_FLOOR as nat
    } else {
        let before = size_width(entries.drop_last());
        let here = decimal(entries.last().size).len();
        if here > before {
            here
        } else {
            before
        }
    }
}

/// One line of the table: two cells, each padded to its column.
pub open spec fn row(left: Seq<char>, right: Seq<char>, keys: nat, sizes: nat) -> Seq<char> {
    "| "@ + padded(left, keys) + " | "@ + padded(right, sizes) + " |"@
}

/// The line of headings.
pub open spec fn header_row(keys: nat, sizes: nat) -> Seq<char> {
    row("Key"@, "Size (bytes)"@, keys, sizes)
}

/// The line of dashes under the headings, as wide as each column.
pub open spec fn separator_row(keys: nat, sizes: nat) -> Seq<char> {
    "| "@ + repeated('-', keys) + " | "@ + repeated('-', sizes) + " |"@
}

/// The line of one entry.
pub open spec fn entry_row(entry: EntryView, keys: nat, sizes: nat) -> Seq<char> {
    row(entry.key, decimal(entry.size), keys, sizes)
}

/// The whole table: headings, dashes, then one line per entry in the order
/// given.
pub open spec fn table(entries: Seq<EntryView>) -> Seq<Seq<char>> {
    let keys = key_width(entries);
    let sizes = size_width(entries);
    seq![header_row(keys, sizes), separator_row(keys, sizes)] + Seq::new(
        entries.len(),
        |i: int| entry_row(entries[i], keys, sizes),
    )
}

/// A text has no more characters than bytes of UTF-8.
pub proof fn lemma_chars_within_extent(key: Seq<char>)
    ensures
        key.len() <= key_extent(key),
    decreases key.len(),
{
    if key.len() > 0 {
        lemma_chars_within_extent(key.drop_first());
    }
}

/// Both widths are at least their floor and at least what each entry needs.
pub proof fn lemma_widths_cover(entries: Seq<EntryView>)
    ensures
        key_width(entries) >= KEY_FLOOR,
        size_width(entries) >= SIZE_FLOOR,
        forall|i: int|
            0 <= i < entries.len() ==> key_extent(#[trigger] entries[i].key) <= key_width(
                entries,
            ),
        forall|i: int|
            0 <= i < entries.len() ==> decimal(#[trigger] entries[i].size).len() <= size_width(
                entries,
            ),
    decreases entries.len(),
{
    if entries.len() > 0 {
        lemma_widths_cover(entries.drop_last());
        assert forall|i: int| 0 <= i < entries.len() implies key_extent(
            #[trigger] entries[i].key,
        ) <= key_width(entries) by {
            if i < entries.len() - 1 {
                assert(entries.drop_last()[i] == entries[i]);
            }
        }
        assert forall|i: int| 0 <= i < entries.len() implies decimal(
            #[trigger] entries[i].size,
        ).len() <= size_width(entries) by {
            if i < entries.len() - 1 {
                assert(entries.drop_last()[i] == entries[i]);
            }
        }
    }
}

/// A table of N entries has N lines under its two heading lines, and every
/// line of it has the same width: the two columns and their frame.
pub proof fn law_table_shape(entries: Seq<EntryView>)
    ensures
        table(entries).len() == entries.len() + 2,
        forall|i: int|
            0 <= i < table(entries).len() ==> (#[trigger] table(entries)[i]).len() == key_width(
                entries,
            ) + size_width(entries) + 7,
{
    let keys = key_width(entries);
    let sizes = size_width(entries);
    let lines = table(entries);
    reveal_strlit("| ");
    reveal_strlit(" | ");
    reveal_strlit(" |");
    reveal_strlit("Key");
    reveal_strlit("Size (bytes)");
    lemma_widths_cover(entries);
    assert forall|i: int| 0 <= i < lines.len() implies (#[trigger] lines[i]).len() == keys + sizes
        + 7 by {
        if i >= 2 {
            let entry = entries[i - 2];
            assert(lines[i] == entry_row(entry, keys, sizes));
            lemma_chars_within_extent(entry.key);
            assert(key_extent(entry.key) <= keys);
            assert(decimal(entry.size).len() <= sizes);
        }
    }
}

/// The lines under the headings are the entries, in the order given.
pub proof fn law_table_keeps_order(entries: Seq<EntryView>, i: int)
    requires
        0 <= i < entries.len(),
    ensures
        table(entries)[i + 2] == entry_row(entries[i], key_width(entries), size_width(entries)),
{
}

/// The table of no entries is the two heading lines at the floor widths.
pub proof fn law_empty_table()
    ensures
        key_width(Seq::<EntryView>::empty()) == 3,
        size_width(Seq::<EntryView>::empty()) == 12,
        table(Seq::<EntryView>::empty()) == seq![
            "| Key | Size (bytes) |"@,
            "| --- | ------------ |"@,
        ],
{
    reveal_strlit("| ");
    reveal_strlit(" | ");
    reveal_strlit(" |");
    reveal_strlit("Key");
    reveal_strlit("Size (bytes)");
    reveal_strlit("| Key | Size (bytes) |");
    reveal_strlit("| --- | ------------ |");
    let none = Seq::<EntryView>::empty();
    assert(header_row(3, 12) =~= "| Key | Size (bytes) |"@);
    assert(separator_row(3, 12) =~= "| --- | ------------ |"@);
    assert(table(none) =~= seq![header_row(3, 12), separator_row(3, 12)]);
}

/// One line of the table from its two cells.
fn build_row(left: &str, right: &str, keys: usize, sizes: usize) -> (line: String)
    ensures
        line@ == row(left@, right@, keys as nat, sizes as nat),
{
    let mut line = String::from_str("| ");
    append_padded(&mut line, left, keys);
    line.append(" | ");
    append_padded(&mut line, right, sizes);
    line.append(" |");
    line
}

/// The line of dashes for columns of the given widths.
fn build_separator(keys: usize, sizes: usize) -> (line: String)
    ensures
        line@ == separator_row(keys as nat, sizes as nat),
{
    let mut line = String::from_str("| ");
    append_dashes(&mut line, keys);
    line.append(" | ");
    append_dashes(&mut line, sizes);
    line.append(" |");
    line
}

/// The two column widths, and the size of each entry written in decimal.
fn measure(entries: &Vec<ListEntry>) -> (measured: (usize, usize, Vec<String>))
    ensures
        measured.0 == key_width(entries_view(entries@)),
        measured.1 == size_width(entries_view(entries@)),
        measured.2@.len() == entries@.len(),
        forall|j: int|
            0 <= j < entries@.len() ==> (#[trigger] measured.2@[j])@ == decimal(
                entries@[j].size as nat,
            ),
{
    let ghost all = entries_view(entries@);
    let mut keys: usize = KEY_FLOOR;
    let mut sizes: usize = SIZE_FLOOR;
    let mut numbers: Vec<String> = Vec::new();
    let mut seen: usize = 0;
    proof {
        assert(all.take(0) =~= Seq::<EntryView>::empty());
    }
    while seen < entries.len()
        invariant
            seen <= entries@.len(),
            all == entries_view(entries@),
            keys == key_width(all.take(seen as int)),
            sizes == size_width(all.take(seen as int)),
            numbers@.len() == seen,
            forall|j: int|
                0 <= j < seen ==> (#[trigger] numbers@[j])@ == decimal(entries@[j].size as nat),
        decreases entries@.len() - seen,
    {
        let entry = &entries[seen];
        proof {
            let upto = all.take(seen + 1);
            assert(upto.drop_last() =~= all.take(seen as int));
            assert(upto.last() == entry@);
        }
        let extent = entry.key.as_str().as_bytes().len();
        assert(extent == key_extent(entry@.key));
        if extent > keys {
            keys = extent;
        }
        let number = decimal_text(entry.size);
        let digits = number.as_str().unicode_len();
        if digits > sizes {
            sizes = digits;
        }
        numbers.push(number);
        seen = seen + 1;
    }
    proof {
        assert(all.take(seen as int) =~= all);
    }
    (keys, sizes, numbers)
}

/// Renders the listing as a pipe-delimited table of fixed width.
///
/// The widths are taken over all entries before any line is written, so every
/// line, the headings included, is padded to the same columns.
pub fn render_table(entries: &Vec<ListEntry>) -> (lines: Vec<String>)
    ensures
        lines_view(lines@) == table(entries_view(entries@)),
{
    let ghost all = entries_view(entries@);
    let (keys, sizes, numbers) = measure(entries);
    let mut lines: Vec<String> = Vec::new();
    lines.push(build_row("Key", "Size (bytes)", keys, sizes));
    lines.push(build_separator(keys, sizes));
    let mut done: usize = 0;
    while done < entries.len()
        invariant
            done <= entries@.len(),
            all == entries_view(entries@),
            numbers@.len() == entries@.len(),
            forall|j: int|
                0 <= j < entries@.len() ==> (#[trigger] numbers@[j])@ == decimal(
                    entries@[j].size as nat,
                ),
            lines@.len() == done + 2,
            lines@[0]@ == header_row(keys as nat, sizes as nat),
            lines@[1]@ == separator_row(keys as nat, sizes as nat),
            forall|j: int|
                2 <= j < done + 2 ==> (#[trigger] lines@[j])@ == entry_row(
                    all[j - 2],
                    keys as nat,
                    sizes as nat,
                ),
        decreases entries@.len() - done,
    {
        let entry = &entries[done];
        let line = build_row(entry.key.as_str(), numbers[done].as_str(), keys, sizes);
        assert(line@ == entry_row(all[done as int], keys as nat, sizes as nat));
        lines.push(line);
        done = done + 1;
    }
    proof {
        let shown = lines_view(lines@);
        let wanted = table(all);
        assert(shown.len() == wanted.len());
        assert forall|j: int| 0 <= j < shown.len() implies shown[j] == wanted[j] by {
            if j >= 2 {
                assert(shown[j] == lines@[j]@);
            }
        }
        assert(shown =~= wanted);
    }
    lines
}

} // verus!
