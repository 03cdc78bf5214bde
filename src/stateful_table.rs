use vstd::prelude::*;

verus! {

/// The text of one displayed row: one sequence of characters per column.
pub open spec fn row_view(row: Vec<String>) -> Seq<Seq<char>> {
    row@.map_values(|cell: String| cell@)
}

/// The text of an ordered list of rows.
pub open spec fn rows_view(rows: Seq<Vec<String>>) -> Seq<Seq<Seq<char>>> {
    rows.map_values(|row: Vec<String>| row_view(row))
}

/// What a table shows: its rows and the selected row, if any.
pub struct TableView {
    pub rows: Seq<Seq<Seq<char>>>,
    pub selected: Option<int>,
}

impl TableView {
    /// The cursor is unselected or inside the rows.
    pub open spec fn wf(self) -> bool {
        match self.selected {
            Some(i) => 0 <= i < self.rows.len(),
            None => true,
        }
    }
}

/// The rows of one tab together with a selection cursor over them.
///
/// The cursor is either unselected or an index inside the rows; it is only
/// moved by `next` and `previous`, and an empty table is never selected.
pub struct StatefulTable {
    selected: Option<usize>,
    items: Vec<Vec<String>>,
}

/// The cursor after a step forward over `len` rows.
pub open spec fn next_selection(selected: Option<int>, len: int) -> Option<int> {
    if len == 0 {
        selected
    } else {
        match selected {
            None => Some(0),
            Some(i) => if i >= len - 1 { Some(0) } else { Some(i + 1) },
        }
    }
}

/// The cursor after a step backward over `len` rows.
pub open spec fn previous_selection(selected: Option<int>, len: int) -> Option<int> {
    if len == 0 {
        selected
    } else {
        match selected {
            None => Some(0),
            Some(i) => if i == 0 { Some(len - 1) } else { Some(i - 1) },
        }
    }
}

impl View for StatefulTable {
    type V = TableView;

    closed spec fn view(&self) -> TableView {
        TableView {
            rows: rows_view(self.items@),
            selected: match self.selected {
                Some(i) => Some(i as int),
                None => None,
            },
        }
    }
}

impl StatefulTable {
    /// The cursor is unselected or inside the rows.
    pub open spec fn wf(&self) -> bool {
        self@.wf()
    }

    /// A table over `items` with nothing selected.
    pub fn new(items: Vec<Vec<String>>) -> (t: StatefulTable)
        ensures
            t.wf(),
            t@.rows == rows_view(items@),
            t@.selected == None::<int>,
    {
        StatefulTable { selected: None, items }
    }

    /// Moves the cursor one row down, wrapping from the last row to the first.
    /// Selects the first row when nothing is selected; does nothing on an
    /// empty table.
    pub fn next(&mut self)
        requires
            old(self).wf(),
        ensures
            final(self).wf(),
            final(self)@.rows == old(self)@.rows,
            final(self)@.selected == next_selection(old(self)@.selected, old(self)@.rows.len() as int),
            old(self)@.rows.len() == 0 ==> final(self)@.selected == None::<int>,
            old(self)@.rows.len() > 0 && old(self)@.selected == Some(old(self)@.rows.len() - 1)
                ==> final(self)@.selected == Some(0int),
    {
        let len = self.items.len();
        if len == 0 {
            return;
        }
        let i: usize = match self.selected {
            Some(i) => if i >= len - 1 { 0 } else { i + 1 },
            None => 0,
        };
        self.selected = Some(i);
    }

    /// Moves the cursor one row up, wrapping from the first row to the last.
    /// Selects the first row when nothing is selected; does nothing on an
    /// empty table.
    pub fn previous(&mut self)
        requires
            old(self).wf(),
        ensures
            final(self).wf(),
            final(self)@.rows == old(self)@.rows,
            final(self)@.selected == previous_selection(old(self)@.selected, old(self)@.rows.len() as int),
            old(self)@.rows.len() == 0 ==> final(self)@.selected == None::<int>,
            old(self)@.rows.len() > 0 && old(self)@.selected == Some(0int)
                ==> final(self)@.selected == Some(old(self)@.rows.len() - 1),
    {
        let len = self.items.len();
        if len == 0 {
            return;
        }
        let i: usize = match self.selected {
            Some(i) => if i == 0 { len - 1 } else { i - 1 },
            None => 0,
        };
        self.selected = Some(i);
    }

    /// The rows, in display order.
    pub fn items(&self) -> (r: &Vec<Vec<String>>)
        ensures
            rows_view(r@) == self@.rows,
    {
        &self.items
    }

    /// The selected row, if any.
    pub fn selected(&self) -> (r: Option<usize>)
        requires
            self.wf(),
        ensures
            match r {
                Some(i) => self@.selected == Some(i as int) && i < self@.rows.len(),
                None => self@.selected == None::<int>,
            },
    {
        self.selected
    }

    /// Whether the table holds any rows.
    pub fn is_loaded(&self) -> (r: bool)
        ensures
            r == (self@.rows.len() > 0),
    {
        self.items.len() > 0
    }

    /// Replaces the rows and clears the selection.
    pub fn set_items(&mut self, items: Vec<Vec<String>>)
        ensures
            final(self).wf(),
            final(self)@.rows == rows_view(items@),
            final(self)@.selected == None::<int>,
    {
        self.items = items;
        self.selected = None;
    }
}

} // verus!
