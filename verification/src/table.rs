//! The tables that the commands print.

use crate::google_drive::DriveFile;
use crate::google_drive::DriveFileView;
use crate::google_sheet::CellValue;
use crate::google_sheet::CellView;
use crate::text::decimal;
use crate::text::decimal_string;
use vstd::prelude::*;

verus! {

/// The character with which a terminal escape sequence begins.
pub const ESCAPE: char = '\u{1b}';

/// The character that follows it where a sequence opens.
pub const OPEN_BRACKET: char = '[';

/// The character that ends a line.
pub const LINE_FEED: char = '\n';

/// The character that may stand before it at the end of a line.
pub const CARRIAGE_RETURN: char = '\r';

/// Whether an escape sequence opens at `i` in `text`: the escape character,
/// with `[` directly behind it.
pub open spec fn opens_escape_sequence(text: Seq<char>, i: int) -> bool {
    &&& 0 <= i
    &&& i + 1 < text.len()
    &&& text[i] == ESCAPE
    &&& text[i + 1] == OPEN_BRACKET
}

/// Whether an escape sequence opens anywhere in `text`.
pub open spec fn has_escape_sequence(text: Seq<char>) -> bool {
    exists|i: int| opens_escape_sequence(text, i)
}

/// `text` without its last line ending, if it ends in one: a line feed, and
/// the carriage return before it where there is one.
pub open spec fn without_final_line_ending(text: Seq<char>) -> Seq<char> {
    if text.len() > 0 && text.last() == LINE_FEED {
        let head = text.drop_last();
        if head.len() > 0 && head.last() == CARRIAGE_RETURN {
            head.drop_last()
        } else {
            head
        }
    } else {
        text
    }
}

/// `text` without the carriage returns that stand directly before a line feed.
pub open spec fn with_plain_line_endings(text: Seq<char>) -> Seq<char>
    decreases text.len(),
{
    if text.len() == 0 {
        text
    } else if text[0] == CARRIAGE_RETURN && text.len() >= 2 && text[1] == LINE_FEED {
        with_plain_line_endings(text.drop_first())
    } else {
        seq![text[0]] + with_plain_line_endings(text.drop_first())
    }
}

/// The text that a cell made from `text` holds: the lines of `text`, joined
/// by line feeds. A line ends with a line feed or with a carriage return and
/// a line feed, and the ending of the last line counts for nothing.
pub open spec fn cell_content(text: Seq<char>) -> Seq<char> {
    with_plain_line_endings(without_final_line_ending(text))
}

proof fn lemma_plain_text_stays(text: Seq<char>)
    requires
        !text.contains(LINE_FEED),
    ensures
        with_plain_line_endings(text) == text,
    decreases text.len(),
{
    if text.len() > 0 {
        let rest = text.drop_first();
        assert forall|i: int| 0 <= i < rest.len() implies rest[i] != LINE_FEED by {
            assert(rest[i] == text[i + 1]);
        }
        lemma_plain_text_stays(rest);
    }
}

/// A cell holds a text of one line as it is: what a cell makes of a text
/// without a line feed is the text.
pub proof fn lemma_one_line_cell(text: Seq<char>)
    requires
        !text.contains(LINE_FEED),
    ensures
        cell_content(text) == text,
{
    lemma_plain_text_stays(text);
}

/// Whether an escape sequence opens anywhere in `text`.
pub fn holds_escape_sequence(text: &str) -> (found: bool)
    ensures
        found == has_escape_sequence(text@),
{
    let mut found = false;
    let mut after_escape = false;
    for c in it: text.chars()
        invariant
            it.seq() == text@,
            after_escape == (it.index() > 0 && text@[it.index() - 1] == ESCAPE),
            found == (exists|j: int| j + 1 < it.index() && opens_escape_sequence(text@, j)),
    {
        proof {
            let i = it.index() as int;
            if after_escape && c == OPEN_BRACKET {
                assert(opens_escape_sequence(text@, i - 1));
            }
        }
        if after_escape && c == OPEN_BRACKET {
            found = true;
        }
        after_escape = c == ESCAPE;
    }
    found
}

/// `prettytable::Table`, a table of rows of cells to be printed.
#[verifier::external_type_specification]
#[verifier::external_body]
pub struct ExTable(prettytable::Table);

/// The rows of a table, top to bottom: for each row its cells, left to
/// right, and for each cell the text that it holds.
pub uninterp spec fn table_rows(table: prettytable::Table) -> Seq<Seq<Seq<char>>>;

/// Whether a table is drawn with box characters.
pub uninterp spec fn table_is_boxed(table: prettytable::Table) -> bool;

/// Whether a table has a row of titles, which is printed above its rows.
pub uninterp spec fn table_has_titles(table: prettytable::Table) -> bool;

/// `prettytable::Table::new`: a table without rows and without titles, in
/// the default format, which draws its lines with `+`, `-` and `|`.
#[verifier::external_body]
fn new_table() -> (table: prettytable::Table)
    ensures
        table_rows(table) == Seq::<Seq<Seq<char>>>::empty(),
        !table_is_boxed(table),
        !table_has_titles(table),
{
    prettytable::Table::new()
}

/// `prettytable::Table::set_format` with `FORMAT_BOX_CHARS`: the rows and
/// the titles stay, and the table is drawn with box characters from now on.
#[verifier::external_body]
fn set_box_format(table: &mut prettytable::Table)
    ensures
        table_rows(*final(table)) == table_rows(*old(table)),
        table_has_titles(*final(table)) == table_has_titles(*old(table)),
        table_is_boxed(*final(table)),
{
    table.set_format(*prettytable::format::consts::FORMAT_BOX_CHARS);
}

/// `prettytable::Table::add_row` with a row of one `prettytable::Cell::new`
/// for each text: the row is added below the others, and the format and
/// the titles stay. A cell keeps the lines of its text (`str::lines`) and
/// gives them back joined by line feeds (`Cell::get_content`). `Cell::new`
/// measures the width of each line, and its count of the characters inside
/// escape sequences can stop the program; it counts nothing in a text in
/// which no escape character stands directly before a `[`.
#[verifier::external_body]
fn add_row(table: &mut prettytable::Table, texts: &Vec<String>)
    requires
        forall|i: int| 0 <= i < texts@.len() ==> !has_escape_sequence((#[trigger] texts@[i])@),
    ensures
        table_rows(*final(table)) == table_rows(*old(table)).push(
            Seq::new(texts@.len(), |i: int| cell_content(texts@[i]@)),
        ),
        table_is_boxed(*final(table)) == table_is_boxed(*old(table)),
        table_has_titles(*final(table)) == table_has_titles(*old(table)),
{
    let cells = texts.iter().map(|text| prettytable::Cell::new(text)).collect();
    table.add_row(prettytable::Row::new(cells));
}

/// Heads the column of running numbers in the table of a listing.
pub const NUMBER_HEADING: &'static str = "No.";

/// Heads the column of titles in the table of a listing.
pub const TITLE_HEADING: &'static str = "Title";

/// Heads the column of spreadsheet ids in the table of a listing.
pub const ID_HEADING: &'static str = "Spreadsheet ID";

/// The first row of the table of a listing.
pub open spec fn listing_header() -> Seq<Seq<char>> {
    seq![NUMBER_HEADING@, TITLE_HEADING@, ID_HEADING@]
}

/// The table of a listing: the header, then one row for each file that has
/// both a name and an id, with the file's place in the listing (the first
/// is 1), its name and its id. A file that lacks either has no row, and its
/// place is passed over in the numbering.
pub open spec fn listing_grid(files: Seq<DriveFileView>) -> Seq<Seq<Seq<char>>>
    decreases files.len(),
{
    if files.len() == 0 {
        seq![listing_header()]
    } else {
        let above = listing_grid(files.drop_last());
        match (files.last().name, files.last().id) {
            (Some(name), Some(id)) => above.push(seq![decimal(files.len()), name, id]),
            _ => above,
        }
    }
}

/// The label of the column at `i`, the first being 0: `A`, `B`, `C` and so
/// on through the characters that follow, starting over after the character
/// with code 255.
pub open spec fn column_label(i: nat) -> char {
    ((65 + i) % 256) as char
}

/// The first row of the table of a range of `width` columns: an empty corner,
/// then the label of each column.
pub open spec fn value_header(width: nat) -> Seq<Seq<char>> {
    Seq::new(
        width + 1,
        |c: int|
            if c == 0 {
                Seq::<char>::empty()
            } else {
                seq![column_label((c - 1) as nat)]
            },
    )
}

/// A row of the table of a range: the row's number, then what each cell shows.
pub open spec fn value_row(number: nat, cells: Seq<CellView>) -> Seq<Seq<char>> {
    Seq::new(
        cells.len() + 1,
        |c: int|
            if c == 0 {
                decimal(number)
            } else {
                cells[c - 1].shown()
            },
    )
}

/// The number of labelled columns: as many as the first row has cells.
pub open spec fn labelled_width(data: Seq<Seq<CellView>>) -> nat {
    if data.len() == 0 {
        0
    } else {
        data[0].len()
    }
}

/// The table of a range: the header, then the rows, numbered from 1, each as
/// long as the data gives it.
pub open spec fn value_grid(data: Seq<Seq<CellView>>) -> Seq<Seq<Seq<char>>> {
    Seq::new(
        data.len() + 1,
        |r: int|
            if r == 0 {
                value_header(labelled_width(data))
            } else {
                value_row(r as nat, data[r - 1])
            },
    )
}

/// Whether a table can be made of `grid`: in none of its texts an escape
/// sequence opens.
pub open spec fn grid_is_printable(grid: Seq<Seq<Seq<char>>>) -> bool {
    forall|r: int, c: int|
        0 <= r < grid.len() && 0 <= c < grid[r].len() ==> !has_escape_sequence(
            #[trigger] grid[r][c],
        )
}

/// What the cells made from the texts of `grid` hold.
pub open spec fn cell_contents(grid: Seq<Seq<Seq<char>>>) -> Seq<Seq<Seq<char>>> {
    Seq::new(grid.len(), |r: int| Seq::new(grid[r].len(), |c: int| cell_content(grid[r][c])))
}

/// Whether `table` holds `grid` and nothing else: no titles, a cell for
/// each text, row by row, and in each cell what a cell makes of its text.
pub open spec fn table_holds(table: prettytable::Table, grid: Seq<Seq<Seq<char>>>) -> bool {
    &&& table_rows(table) == cell_contents(grid)
    &&& !table_has_titles(table)
}

/// The rows of the table of a listing.
pub fn listing_rows(files: &Vec<DriveFile>) -> (rows: Vec<Vec<String>>)
    ensures
        rows.deep_view() == listing_grid(files.deep_view()),
{
    let mut header: Vec<String> = Vec::new();
    header.push(String::from_str(NUMBER_HEADING));
    header.push(String::from_str(TITLE_HEADING));
    header.push(String::from_str(ID_HEADING));
    assert(header.deep_view() =~= listing_header());
    let mut rows: Vec<Vec<String>> = Vec::new();
    rows.push(header);
    let mut i: usize = 0;
    while i < files.len()
        invariant
            i <= files.len(),
            rows.deep_view() == listing_grid(files.deep_view().take(i as int)),
        decreases files.len() - i,
    {
        let ghost seen = files.deep_view().take(i as int);
        let ghost next = files.deep_view().take(i + 1);
        assert(next.drop_last() =~= seen);
        let file = &files[i];
        match (&file.name, &file.id) {
            (Some(name), Some(id)) => {
                let mut row: Vec<String> = Vec::new();
                row.push(decimal_string(i + 1));
                row.push(name.clone());
                row.push(id.clone());
                assert(row.deep_view() =~= seq![decimal((i + 1) as nat), name@, id@]);
                rows.push(row);
            },
            _ => {},
        }
        i = i + 1;
    }
    assert(files.deep_view().take(i as int) =~= files.deep_view());
    rows
}

/// The label of the column at `i`.
pub fn column_label_of(i: usize) -> (label: char)
    ensures
        label == column_label(i as nat),
{
    let code: usize = (i % 256 + 65) % 256;
    assert(code == (65 + i) % 256) by {
        vstd::arithmetic::div_mod::lemma_add_mod_noop(i as int, 65, 256);
        vstd::arithmetic::div_mod::lemma_small_mod(65, 256);
    }
    (code as u8) as char
}

/// The first row of the table of a range of `width` columns.
pub fn value_header_row(width: usize) -> (row: Vec<String>)
    ensures
        row.deep_view() == value_header(width as nat),
{
    let mut row: Vec<String> = Vec::new();
    row.push(String::new());
    let mut c: usize = 0;
    while c < width
        invariant
            c <= width,
            row.len() == c + 1,
            forall|k: int| 0 <= k <= c ==> (#[trigger] row[k])@ == value_header(width as nat)[k],
        decreases width - c,
    {
        let mut label = String::new();
        label.push(column_label_of(c));
        row.push(label);
        c = c + 1;
    }
    row
}

/// A row of the table of a range.
pub fn value_data_row(number: usize, cells: &Vec<CellValue>) -> (row: Vec<String>)
    ensures
        row.deep_view() == value_row(number as nat, cells.deep_view()),
{
    let ghost wanted = value_row(number as nat, cells.deep_view());
    let mut row: Vec<String> = Vec::new();
    row.push(decimal_string(number));
    let mut c: usize = 0;
    while c < cells.len()
        invariant
            c <= cells.len(),
            row.len() == c + 1,
            wanted == value_row(number as nat, cells.deep_view()),
            forall|k: int| 0 <= k <= c ==> (#[trigger] row[k])@ == wanted[k],
        decreases cells.len() - c,
    {
        let shown = match &cells[c] {
            CellValue::Text(text) => text.clone(),
            CellValue::Other => String::new(),
        };
        row.push(shown);
        c = c + 1;
    }
    row
}

/// The rows of the table of a range.
pub fn value_rows(data: &Vec<Vec<CellValue>>) -> (rows: Vec<Vec<String>>)
    ensures
        rows.deep_view() == value_grid(data.deep_view()),
{
    let ghost wanted = value_grid(data.deep_view());
    let width: usize = if data.len() == 0 {
        0
    } else {
        data[0].len()
    };
    let mut rows: Vec<Vec<String>> = Vec::new();
    rows.push(value_header_row(width));
    let mut r: usize = 0;
    while r < data.len()
        invariant
            r <= data.len(),
            rows.len() == r + 1,
            wanted == value_grid(data.deep_view()),
            forall|k: int| 0 <= k <= r ==> (#[trigger] rows[k]).deep_view() == wanted[k],
        decreases data.len() - r,
    {
        let row = value_data_row(r + 1, &data[r]);
        rows.push(row);
        r = r + 1;
    }
    rows
}

/// Whether a table can be made of `rows`.
pub fn is_printable(rows: &Vec<Vec<String>>) -> (printable: bool)
    ensures
        printable == grid_is_printable(rows.deep_view()),
{
    let ghost grid = rows.deep_view();
    let mut r: usize = 0;
    while r < rows.len()
        invariant
            r <= rows.len(),
            grid == rows.deep_view(),
            forall|i: int, j: int|
                0 <= i < r && 0 <= j < grid[i].len() ==> !has_escape_sequence(#[trigger] grid[i][j]),
        decreases rows.len() - r,
    {
        let row = &rows[r];
        let mut c: usize = 0;
        while c < row.len()
            invariant
                c <= row.len(),
                r < rows.len(),
                grid == rows.deep_view(),
                row == rows[r as int],
                forall|j: int| 0 <= j < c ==> !has_escape_sequence(#[trigger] grid[r as int][j]),
            decreases row.len() - c,
        {
            assert(grid[r as int][c as int] == row[c as int]@);
            if holds_escape_sequence(row[c].as_str()) {
                return false;
            }
            c = c + 1;
        }
        r = r + 1;
    }
    true
}

/// Makes the table that holds `rows`, drawn with box characters if `boxed`.
pub fn table_from_rows(rows: &Vec<Vec<String>>, boxed: bool) -> (table: prettytable::Table)
    requires
        grid_is_printable(rows.deep_view()),
    ensures
        table_holds(table, rows.deep_view()),
        table_is_boxed(table) == boxed,
{
    let ghost grid = rows.deep_view();
    let mut table = new_table();
    if boxed {
        set_box_format(&mut table);
    }
    let mut r: usize = 0;
    while r < rows.len()
        invariant
            r <= rows.len(),
            grid == rows.deep_view(),
            grid_is_printable(grid),
            table_is_boxed(table) == boxed,
            !table_has_titles(table),
            table_rows(table) == cell_contents(grid).take(r as int),
        decreases rows.len() - r,
    {
        let row = &rows[r];
        assert forall|i: int| 0 <= i < row@.len() implies !has_escape_sequence(
            (#[trigger] row@[i])@,
        ) by {
            assert(grid[r as int][i] == row@[i]@);
        }
        add_row(&mut table, row);
        assert(Seq::new(row@.len(), |i: int| cell_content(row@[i]@)) =~= cell_contents(grid)[r as int]);
        assert(cell_contents(grid).take(r as int).push(cell_contents(grid)[r as int])
            =~= cell_contents(grid).take(r + 1));
        r = r + 1;
    }
    assert(cell_contents(grid).take(r as int) =~= cell_contents(grid));
    table
}

/// Makes the table that holds `rows`, unless an escape sequence opens in
/// one of its texts: the width of such a text cannot be counted on, and no
/// table is made.
pub fn try_table(rows: &Vec<Vec<String>>, boxed: bool) -> (made: Option<prettytable::Table>)
    ensures
        made is Some <==> grid_is_printable(rows.deep_view()),
        made matches Some(table) ==> table_holds(table, rows.deep_view()) && table_is_boxed(table)
            == boxed,
{
    if is_printable(rows) {
        Some(table_from_rows(rows, boxed))
    } else {
        None
    }
}

/// The table of a listing, in the default format: it holds `listing_grid`.
/// There is none where an escape sequence opens in a name or an id.
pub fn listing_table(files: &Vec<DriveFile>) -> (made: Option<prettytable::Table>)
    ensures
        made is Some <==> grid_is_printable(listing_grid(files.deep_view())),
        made matches Some(table) ==> table_holds(table, listing_grid(files.deep_view()))
            && !table_is_boxed(table),
{
    let rows = listing_rows(files);
    try_table(&rows, false)
}

/// The table of a range, drawn with box characters: it holds `value_grid`.
/// There is none where an escape sequence opens in a cell.
pub fn value_table(data: &Vec<Vec<CellValue>>) -> (made: Option<prettytable::Table>)
    ensures
        made is Some <==> grid_is_printable(value_grid(data.deep_view())),
        made matches Some(table) ==> table_holds(table, value_grid(data.deep_view()))
            && table_is_boxed(table),
{
    let rows = value_rows(data);
    try_table(&rows, true)
}

} // verus!
