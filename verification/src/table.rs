//! The table: its configuration and the layout that its header, body and
//! footer share.
//!
//! The widths are resolved once. Header, footer and every row of the body are
//! laid out with the same widths, so that their columns line up.

use vstd::prelude::*;
use crate::divider::Divider;
use crate::geometry::Padding;
use crate::width::{
    distribute_fill_widths, fill_proportion, is_distribution, remaining_width, CalculatedWidth,
    Width,
};

verus! {

/// How far a scrollable region has been scrolled from its origin.
#[derive(Clone, Copy, Debug, PartialEq, Eq, Structural)]
pub struct AbsoluteOffset {
    pub x: i32,
    pub y: i32,
}

/// A table of columns with its options.
#[derive(Clone, Debug, PartialEq, Eq)]
pub struct Table {
    /// The width specification of each column, in order.
    pub columns: Vec<Width>,
    /// Whether the table shows a footer.
    pub footer: bool,
    /// Whether the columns can be resized at all.
    pub resizable: bool,
    /// The width the table is to fill at least; `0` for none.
    pub min_width: i32,
    /// The width of the strip of every divider.
    pub divider_width: i32,
    /// The room around the content of every cell.
    pub cell_padding: Padding,
}

/// How one column is laid out, in the header, the footer and every row.
#[derive(Clone, Copy, Debug, PartialEq, Eq)]
pub struct Cell {
    /// The width of the column.
    pub width: i128,
    /// The divider on the column's cell in the header and in the footer.
    pub divider: Option<Divider>,
    /// The room kept free at the trailing edge of the column's cells in the
    /// body, on top of the cell padding, so that their content stays clear of
    /// the divider.
    pub reserved: i32,
}

/// How a table is laid out.
#[derive(Clone, Debug, PartialEq, Eq)]
pub struct Layout {
    /// The layout of each column, in order.
    pub cells: Vec<Cell>,
    /// The room to leave at the trailing edge of the table, so that it still
    /// reaches its minimum width where no column fills the width.
    pub unused_width: Option<i128>,
    /// Whether a footer is laid out.
    pub footer: bool,
}

/// The divider of column `index`, if the column has one: when the table is
/// resizable and the column is.
pub open spec fn divider_of(
    index: usize,
    calculated_width: CalculatedWidth,
    resizable: bool,
    divider_width: i32,
) -> Option<Divider> {
    if resizable && calculated_width.is_resizable {
        Some(Divider { index, width: divider_width })
    } else {
        None
    }
}

/// The room that the body cells of a column keep free for the divider: the
/// divider's width if the column is resizable, none otherwise.
pub open spec fn reserved_for(calculated_width: CalculatedWidth, divider_width: i32) -> i32 {
    if calculated_width.is_resizable {
        divider_width
    } else {
        0
    }
}

/// The layout of column `index` with the resolved width `calculated_width`.
pub open spec fn cell_of(
    index: usize,
    calculated_width: CalculatedWidth,
    resizable: bool,
    divider_width: i32,
) -> Cell {
    Cell {
        width: calculated_width.current,
        divider: divider_of(index, calculated_width, resizable, divider_width),
        reserved: reserved_for(calculated_width, divider_width),
    }
}

/// Gives column `index` its divider, if it is to have one. A column that is
/// not resizable never gets one, and no column does unless the table is
/// resizable.
pub fn with_divider(
    index: usize,
    calculated_width: CalculatedWidth,
    resizable: bool,
    divider_width: i32,
) -> (divider: Option<Divider>)
    ensures
        divider == divider_of(index, calculated_width, resizable, divider_width),
{
    if resizable && calculated_width.is_resizable {
        Some(Divider::new(index, divider_width))
    } else {
        None
    }
}

/// The room that a body cell keeps free at its trailing edge, on top of its
/// padding.
pub fn body_reserve(calculated_width: CalculatedWidth, divider_width: i32) -> (reserved: i32)
    ensures
        reserved == reserved_for(calculated_width, divider_width),
{
    if calculated_width.is_resizable {
        divider_width
    } else {
        0
    }
}

/// Creates a table of the given columns: without a footer, not resizable,
/// without a minimum width, with dividers 2 wide and cells padded by 4 on
/// every side.
pub fn table(columns: Vec<Width>) -> (table: Table)
    ensures
        table == (Table {
            columns,
            footer: false,
            resizable: false,
            min_width: 0,
            divider_width: 2,
            cell_padding: Padding { top: 4, right: 4, bottom: 4, left: 4 },
        }),
{
    Table {
        columns,
        footer: false,
        resizable: false,
        min_width: 0,
        divider_width: 2,
        cell_padding: Padding::new(4),
    }
}

impl Table {
    /// Lets the user resize the resizable columns by their dividers.
    pub fn on_column_resize(self) -> (table: Table)
        ensures
            table == (Table { resizable: true, ..self }),
    {
        Table { resizable: true, ..self }
    }

    /// Shows the footer.
    pub fn footer(self) -> (table: Table)
        ensures
            table == (Table { footer: true, ..self }),
    {
        Table { footer: true, ..self }
    }

    /// Sets the width that the table is to fill at least.
    pub fn min_width(self, min_width: i32) -> (table: Table)
        ensures
            table == (Table { min_width, ..self }),
    {
        Table { min_width, ..self }
    }

    /// Sets the width of the column dividers.
    pub fn divider_width(self, divider_width: i32) -> (table: Table)
        ensures
            table == (Table { divider_width, ..self }),
    {
        Table { divider_width, ..self }
    }

    /// Sets the room around the content of each cell.
    pub fn cell_padding(self, cell_padding: Padding) -> (table: Table)
        ensures
            table == (Table { cell_padding, ..self }),
    {
        Table { cell_padding, ..self }
    }

    /// The resolved widths that `layout` gives the columns of this table.
    pub open spec fn calculated_widths(self, layout: Layout) -> Seq<CalculatedWidth> {
        Seq::new(
            layout.cells@.len(),
            |i: int|
                CalculatedWidth {
                    current: layout.cells@[i].width,
                    is_resizable: self.columns@[i] is Resizable,
                },
        )
    }

    /// Whether `layout` is the layout of this table: the widths are the
    /// resolution of the columns against the minimum width, each cell follows
    /// from the width of its column, and the width that no column takes is
    /// left at the trailing edge.
    pub open spec fn is_layout(self, layout: Layout) -> bool {
        &&& layout.footer == self.footer
        &&& is_distribution(
            self.columns@,
            self.min_width as int,
            self.calculated_widths(layout),
            layout.unused_width,
        )
        &&& forall|i: int|
            0 <= i < layout.cells@.len() ==> #[trigger] layout.cells@[i] == cell_of(
                i as usize,
                self.calculated_widths(layout)[i],
                self.resizable,
                self.divider_width,
            )
    }

    /// Lays the table out.
    pub fn layout(&self) -> (layout: Layout)
        ensures
            self.is_layout(layout),
    {
        let (widths, unused_width) = distribute_fill_widths(
            self.columns.as_slice(),
            self.min_width,
        );
        let mut cells: Vec<Cell> = Vec::new();
        let mut index: usize = 0;
        while index < widths.len()
            invariant
                index <= widths@.len(),
                cells@.len() == index,
                forall|i: int|
                    0 <= i < index ==> #[trigger] cells@[i] == cell_of(
                        i as usize,
                        widths@[i],
                        self.resizable,
                        self.divider_width,
                    ),
            decreases widths@.len() - index,
        {
            let calculated_width = widths[index];
            cells.push(
                Cell {
                    width: calculated_width.current,
                    divider: with_divider(
                        index,
                        calculated_width,
                        self.resizable,
                        self.divider_width,
                    ),
                    reserved: body_reserve(calculated_width, self.divider_width),
                },
            );
            index = index + 1;
        }
        let layout = Layout { cells, unused_width, footer: self.footer };
        assert(self.calculated_widths(layout) =~= widths@);
        layout
    }

    /// The offset to bring the header and the footer to when the body has
    /// been scrolled to `offset`: they follow the body sideways and never move
    /// up or down.
    pub fn sync_offset(offset: AbsoluteOffset) -> (synced: AbsoluteOffset)
        ensures
            synced == (AbsoluteOffset { x: offset.x, y: 0 }),
    {
        AbsoluteOffset { x: offset.x, y: 0 }
    }
}

/// What a layout gives each column, read off the column itself: its resolved
/// width; a divider exactly when the table is resizable and the column is;
/// and room for the divider in the body exactly when the column is resizable,
/// whether or not the table is.
pub proof fn lemma_layout_follows_columns(table: Table, layout: Layout, i: int)
    requires
        table.is_layout(layout),
        0 <= i < table.columns@.len(),
    ensures
        layout.cells@[i].width == table.columns@[i].resolved(
            remaining_width(table.columns@, table.min_width as int),
            fill_proportion(table.columns@) as int,
        ),
        layout.cells@[i].divider == if table.resizable && table.columns@[i] is Resizable {
            Some(Divider { index: i as usize, width: table.divider_width })
        } else {
            None
        },
        layout.cells@[i].reserved == if table.columns@[i] is Resizable {
            table.divider_width
        } else {
            0
        },
{
    assert(layout.cells@[i] == cell_of(
        i as usize,
        table.calculated_widths(layout)[i],
        table.resizable,
        table.divider_width,
    ));
}

} // verus!
