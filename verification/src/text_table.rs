//! A table of text: columns as wide as their widest cell, with a gap
//! between them.

use crate::text::{repeated, spaces};
use vstd::prelude::*;
use vstd::string::*;

verus! {

/// The number of bytes of a text in UTF-8.
pub open spec fn byte_width(s: Seq<char>) -> usize {
    vstd::utf8::encode_utf8(s).len() as usize
}

/// The upper-case form of a text, as the standard library gives it.
pub uninterp spec fn uppercased(s: Seq<char>) -> Seq<char>;

/// Calls `str::to_uppercase`.
#[verifier::external_body]
pub(crate) fn to_uppercase(s: &str) -> (upper: String)
    ensures
        upper@ == uppercased(s@),
{
    s.to_uppercase()
}

/// The number of bytes of a text.
pub fn width_of(s: &str) -> (width: usize)
    ensures
        width == byte_width(s@),
{
    s.len()
}

/// A table in the making: its gap and the titles of its columns.
pub struct TextTableBuilder {
    pub gap: usize,
    pub columns: Vec<String>,
}

/// A column: its title and its width.
pub struct Column {
    pub title: String,
    pub width: usize,
}

/// A table: its columns and its cells, row by row.
pub struct TextTable {
    gap: usize,
    columns: Vec<Column>,
    values: Vec<String>,
}

/// A table as contracts see it.
pub struct TextTableView {
    /// The spaces between two columns.
    pub gap: usize,
    /// The titles of the columns.
    pub titles: Seq<Seq<char>>,
    /// The width of each column.
    pub widths: Seq<usize>,
    /// The cells, row by row.
    pub values: Seq<Seq<char>>,
}

/// What follows the cell at place `i` of a row of `columns` cells: the gap,
/// or the end of the line after the last one.
pub open spec fn cell_end(i: int, columns: int, gap: usize) -> Seq<char> {
    if i % columns < columns - 1 {
        repeated(' ', gap as nat)
    } else {
        "\n"@
    }
}

/// A cell, filled with spaces to the width of its column, and what follows
/// it.
pub open spec fn cell_text(text: Seq<char>, shown: Seq<char>, width: usize, end: Seq<char>) -> Seq<
    char,
> {
    shown + repeated(' ', (width - byte_width(text)) as nat) + end
}

impl TextTableView {
    /// The first `n` titles as they are printed: in upper case.
    pub open spec fn header(self, n: int) -> Seq<char>
        decreases n,
    {
        if n <= 0 {
            Seq::<char>::empty()
        } else {
            self.header(n - 1) + cell_text(
                self.titles[n - 1],
                uppercased(self.titles[n - 1]),
                self.widths[n - 1],
                cell_end(n - 1, self.titles.len() as int, self.gap),
            )
        }
    }

    /// The first `n` cells as they are printed.
    pub open spec fn body(self, n: int) -> Seq<char>
        decreases n,
    {
        if n <= 0 {
            Seq::<char>::empty()
        } else {
            self.body(n - 1) + cell_text(
                self.values[n - 1],
                self.values[n - 1],
                self.widths[(n - 1) % (self.titles.len() as int)],
                cell_end(n - 1, self.titles.len() as int, self.gap),
            )
        }
    }

    /// The whole table as it is printed: the line of titles, then the rows.
    pub open spec fn rendered(self) -> Seq<char> {
        self.header(self.titles.len() as int) + self.body(self.values.len() as int)
    }

    /// The column that takes the next cell.
    pub open spec fn next_column(self) -> int {
        (self.values.len() as int) % (self.titles.len() as int)
    }

    /// Every column is as wide as its title and as each of its cells.
    pub open spec fn wide_enough(self) -> bool {
        &&& self.widths.len() == self.titles.len()
        &&& forall|i: int|
            0 <= i < self.titles.len() ==> byte_width(#[trigger] self.titles[i]) <= self.widths[i]
        &&& forall|j: int|
            0 <= j < self.values.len() ==> byte_width(#[trigger] self.values[j])
                <= self.widths[j % (self.titles.len() as int)]
        &&& self.values.len() > 0 ==> self.titles.len() > 0
    }
}

/// The larger of two widths.
pub open spec fn wider(a: usize, b: usize) -> usize {
    if a >= b {
        a
    } else {
        b
    }
}

impl TextTableBuilder {
    /// A builder with a gap of three spaces and no columns.
    pub fn new() -> (builder: TextTableBuilder)
        ensures
            builder.gap == 3,
            builder.columns@ == Seq::<String>::empty(),
    {
        TextTableBuilder { gap: 3, columns: Vec::new() }
    }

    /// Sets the number of spaces between two columns.
    pub fn set_gap(self, gap: usize) -> (builder: TextTableBuilder)
        ensures
            builder.gap == gap,
            builder.columns == self.columns,
    {
        let mut builder = self;
        builder.gap = gap;
        builder
    }

    /// Adds a column with this title after the others.
    pub fn add_column(self, column: &str) -> (builder: TextTableBuilder)
        ensures
            builder.gap == self.gap,
            builder.columns@.len() == self.columns@.len() + 1,
            builder.columns@.subrange(0, self.columns@.len() as int) == self.columns@,
            builder.columns@.last()@ == column@,
    {
        let mut builder = self;
        builder.columns.push(String::from_str(column));
        assert(builder.columns@.subrange(0, self.columns@.len() as int) =~= self.columns@);
        builder
    }

    /// The empty table with these columns, each as wide as its title.
    pub fn done(self) -> (table: TextTable)
        ensures
            table.wf(),
            table@.gap == self.gap,
            table@.titles == Seq::new(self.columns@.len(), |i: int| self.columns@[i]@),
            table@.widths == Seq::new(self.columns@.len(), |i: int| byte_width(self.columns@[i]@)),
            table@.values == Seq::<Seq<char>>::empty(),
    {
        let TextTableBuilder { gap, columns: titles } = self;
        let ghost all = titles@;
        let mut titles = titles;
        let mut columns: Vec<Column> = Vec::new();
        let count: usize = titles.len();
        let mut i: usize = 0;
        while i < count
            invariant
                i <= count,
                count == all.len(),
                titles@ == all.subrange(i as int, count as int),
                columns@.len() == i,
                forall|k: int|
                    0 <= k < i ==> (#[trigger] columns@[k]).title == all[k] && columns@[k].width
                        == byte_width(all[k]@),
            decreases count - i,
        {
            let title = titles.remove(0);
            let width = width_of(title.as_str());
            columns.push(Column { title, width });
            proof {
                assert(titles@ =~= all.subrange(i + 1, count as int));
            }
            i = i + 1;
        }
        let table = TextTable { gap, columns, values: Vec::new() };
        proof {
            assert(table@.titles =~= Seq::new(all.len(), |i: int| all[i]@));
            assert(table@.widths =~= Seq::new(all.len(), |i: int| byte_width(all[i]@)));
            assert(table@.values =~= Seq::<Seq<char>>::empty());
        }
        table
    }
}

impl View for TextTable {
    type V = TextTableView;

    closed spec fn view(&self) -> TextTableView {
        TextTableView {
            gap: self.gap,
            titles: Seq::new(self.columns@.len(), |i: int| self.columns@[i].title@),
            widths: Seq::new(self.columns@.len(), |i: int| self.columns@[i].width),
            values: Seq::new(self.values@.len(), |i: int| self.values@[i]@),
        }
    }
}

impl TextTable {
    /// The table is consistent: every column is wide enough.
    pub open spec fn wf(&self) -> bool {
        self@.wide_enough()
    }

    /// Starts a table.
    pub fn build() -> (builder: TextTableBuilder)
        ensures
            builder.gap == 3,
            builder.columns@ == Seq::<String>::empty(),
    {
        TextTableBuilder::new()
    }

    /// The number of columns.
    pub fn column_count(&self) -> (n: usize)
        ensures
            n == self@.titles.len(),
    {
        self.columns.len()
    }

    /// Puts the next cell into the table, after the last one, and widens its
    /// column to it. A table without columns takes no cells.
    pub fn push(&mut self, value: String)
        requires
            old(self).wf(),
            old(self)@.titles.len() > 0,
        ensures
            final(self).wf(),
            final(self)@.gap == old(self)@.gap,
            final(self)@.titles == old(self)@.titles,
            final(self)@.values == old(self)@.values.push(value@),
            final(self)@.widths == old(self)@.widths.update(
                old(self)@.next_column(),
                wider(old(self)@.widths[old(self)@.next_column()], byte_width(value@)),
            ),
    {
        let ghost before = self@;
        let i: usize = self.values.len() % self.columns.len();
        let width = width_of(value.as_str());
        let column = self.columns.remove(i);
        let new_width = if column.width >= width {
            column.width
        } else {
            width
        };
        self.columns.insert(i, Column { title: column.title, width: new_width });
        self.values.push(value);
        proof {
            assert(self@.titles =~= before.titles);
            assert(self@.values =~= before.values.push(value@));
            assert(self@.widths =~= before.widths.update(
                i as int,
                wider(before.widths[i as int], byte_width(value@)),
            ));
            assert forall|j: int| 0 <= j < self@.values.len() implies byte_width(
                #[trigger] self@.values[j],
            ) <= self@.widths[j % (self@.titles.len() as int)] by {
                if j < before.values.len() {
                    assert(self@.values[j] == before.values[j]);
                }
            }
            assert forall|k: int| 0 <= k < self@.titles.len() implies byte_width(
                #[trigger] self@.titles[k],
            ) <= self@.widths[k] by {
                assert(self@.titles[k] == before.titles[k]);
            }
        }
    }

    /// The table as it is printed: the titles in upper case, then the cells
    /// row by row; every cell is filled with spaces to the width of its
    /// column and followed by the gap, the last cell of a row by the end of
    /// the line.
    pub fn render(&self) -> (text: String)
        requires
            self.wf(),
        ensures
            text@ == self@.rendered(),
    {
        let mut out = String::new();
        let columns: usize = self.columns.len();
        let mut i: usize = 0;
        proof {
            assert(out@ =~= self@.header(0));
        }
        while i < columns
            invariant
                self.wf(),
                columns == self.columns@.len(),
                i <= columns,
                out@ == self@.header(i as int),
            decreases columns - i,
        {
            let column = &self.columns[i];
            proof {
                assert(self@.titles[i as int] == column.title@);
                assert(self@.widths[i as int] == column.width);
            }
            let ghost before = out@;
            out.append(to_uppercase(column.title.as_str()).as_str());
            out.append(spaces(column.width - width_of(column.title.as_str())).as_str());
            if i < columns - 1 {
                out.append(spaces(self.gap).as_str());
            } else {
                out.append("\n");
            }
            proof {
                vstd::arithmetic::div_mod::lemma_small_mod(i as nat, columns as nat);
                assert(out@ =~= before + cell_text(
                    self@.titles[i as int],
                    uppercased(self@.titles[i as int]),
                    self@.widths[i as int],
                    cell_end(i as int, columns as int, self.gap),
                ));
            }
            i = i + 1;
        }
        let ghost head = out@;
        let mut j: usize = 0;
        proof {
            assert(self@.body(0) =~= Seq::<char>::empty());
            assert(out@ =~= head + self@.body(0));
        }
        while j < self.values.len()
            invariant
                self.wf(),
                columns == self.columns@.len(),
                j <= self.values@.len(),
                head == self@.header(columns as int),
                out@ == head + self@.body(j as int),
            decreases self.values@.len() - j,
        {
            let value = &self.values[j];
            let k: usize = j % columns;
            let column = &self.columns[k];
            proof {
                assert(self@.values[j as int] == value@);
                assert(self@.widths[k as int] == column.width);
            }
            let ghost before = out@;
            out.append(value.as_str());
            out.append(spaces(column.width - width_of(value.as_str())).as_str());
            if k < columns - 1 {
                out.append(spaces(self.gap).as_str());
            } else {
                out.append("\n");
            }
            proof {
                assert(out@ =~= before + cell_text(
                    self@.values[j as int],
                    self@.values[j as int],
                    self@.widths[k as int],
                    cell_end(j as int, columns as int, self.gap),
                ));
            }
            j = j + 1;
        }
        out
    }
}

} // verus!
