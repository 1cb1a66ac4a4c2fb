use vstd::prelude::*;

verus! {

/// Kind of value a column holds.
#[derive(Clone, Copy, PartialEq, Eq, Debug)]
pub enum FieldType {
    String,
    Int,
    Float,
}

/// A column of the header: its name identifies the field in each row.
pub struct Column {
    pub name: String,
    pub field_type: FieldType,
}

/// One record: pairs of column name and serialized cell value. A name that
/// no pair carries has no value; where two pairs carry one, the first counts.
pub struct Row {
    pub fields: Vec<(String, String)>,
}

impl View for Row {
    type V = Seq<(Seq<char>, Seq<char>)>;

    open spec fn view(&self) -> Seq<(Seq<char>, Seq<char>)> {
        self.fields@.map_values(|p: (String, String)| (p.0@, p.1@))
    }
}

/// The value that a row holds under `name`.
pub open spec fn field_value(fields: Seq<(Seq<char>, Seq<char>)>, name: Seq<char>) -> Option<Seq<char>>
    decreases fields.len(),
{
    if fields.len() == 0 {
        None
    } else if fields[0].0 == name {
        Some(fields[0].1)
    } else {
        field_value(fields.drop_first(), name)
    }
}

pub open spec fn opt_view(o: Option<String>) -> Option<Seq<char>> {
    match o {
        Some(s) => Some(s@),
        None => None,
    }
}

/// `out` is what `f` returned on some argument whose view is `value`.
pub open spec fn mapped_by<F: Fn(Option<String>) -> U, U>(f: F, value: Option<Seq<char>>, out: U) -> bool {
    exists|a: Option<String>| opt_view(a) == value && #[trigger] f.ensures((a,), out)
}

impl Row {
    /// The value of the field `name`.
    pub fn get(&self, name: &String) -> (r: Option<String>)
        ensures
            opt_view(r) == field_value(self@, name@),
    {
        let ghost v = self@;
        assert(v.subrange(0, v.len() as int) =~= v);
        let mut i: usize = 0;
        while i < self.fields.len()
            invariant
                i <= self.fields.len(),
                v == self@,
                field_value(v.subrange(i as int, v.len() as int), name@) == field_value(v, name@),
            decreases self.fields.len() - i,
        {
            proof {
                assert(v.subrange(i as int, v.len() as int).drop_first() =~= v.subrange(i + 1, v.len() as int));
            }
            if self.fields[i].0 == *name {
                return Some(self.fields[i].1.clone());
            }
            i += 1;
        }
        None
    }

    /// A copy of the row with the same pairs in the same order.
    pub fn duplicate(&self) -> (r: Row)
        ensures
            r@ == self@,
    {
        let mut fields: Vec<(String, String)> = Vec::new();
        let mut i: usize = 0;
        while i < self.fields.len()
            invariant
                i <= self.fields.len(),
                fields@.len() == i,
                forall|j: int| 0 <= j < i ==> fields@[j].0@ == self.fields@[j].0@ && fields@[j].1@ == self.fields@[j].1@,
            decreases self.fields.len() - i,
        {
            let name = self.fields[i].0.clone();
            let value = self.fields[i].1.clone();
            fields.push((name, value));
            i += 1;
        }
        let r = Row { fields };
        assert(r@ =~= self@);
        r
    }
}

/// `set_header` was handed a different number of columns and widths.
pub struct SchemaMismatch {
    pub columns: usize,
    pub widths: usize,
}

/// The loaded part of a table: header, column widths, the buffered prefix of
/// the rows, and the number of rows the whole table has.
pub struct DataState {
    header: Vec<Column>,
    col_widths: Vec<usize>,
    rows: Vec<Row>,
    total: usize,
}

impl DataState {
    pub closed spec fn header(&self) -> Seq<Column> {
        self.header@
    }

    pub closed spec fn widths(&self) -> Seq<usize> {
        self.col_widths@
    }

    pub closed spec fn rows(&self) -> Seq<Row> {
        self.rows@
    }

    pub closed spec fn total(&self) -> nat {
        self.total as nat
    }

    /// One width for each column.
    pub open spec fn wf(&self) -> bool {
        self.widths().len() == self.header().len()
    }

    /// Name of the column at `col`, if there is one.
    pub open spec fn header_name(&self, col: int) -> Option<Seq<char>> {
        if 0 <= col < self.header().len() {
            Some(self.header()[col].name@)
        } else {
            None
        }
    }

    /// Value of the buffered row `row` under the column at `col`.
    pub open spec fn cell_value(&self, row: int, col: int) -> Option<Seq<char>> {
        if 0 <= row < self.rows().len() && 0 <= col < self.header().len() {
            field_value(self.rows()[row]@, self.header()[col].name@)
        } else {
            None
        }
    }

    /// What row index `row` shows in the column at `col`: the column's name
    /// on the header row 0, else the row's value under that name.
    pub open spec fn display_value(&self, row: int, col: int) -> Option<Seq<char>> {
        if row == 0 {
            self.header_name(col)
        } else {
            self.cell_value(row, col)
        }
    }

    pub fn new() -> (r: Self)
        ensures
            r.header().len() == 0,
            r.widths().len() == 0,
            r.rows().len() == 0,
            r.total() == 0,
            r.wf(),
    {
        DataState { header: Vec::new(), col_widths: Vec::new(), rows: Vec::new(), total: 0 }
    }

    /// Replaces the header and the column widths together; refused, with
    /// nothing changed, where their lengths differ.
    pub fn set_header(&mut self, header: Vec<Column>, col_widths: Vec<usize>) -> (r: Result<(), SchemaMismatch>)
        ensures
            r is Ok <==> header@.len() == col_widths@.len(),
            r is Ok ==> final(self).header() == header@ && final(self).widths() == col_widths@,
            r matches Err(e) ==> e.columns == header@.len() && e.widths == col_widths@.len()
                && final(self).header() == old(self).header() && final(self).widths() == old(self).widths(),
            final(self).rows() == old(self).rows(),
            final(self).total() == old(self).total(),
            old(self).wf() ==> final(self).wf(),
    {
        if header.len() != col_widths.len() {
            return Err(SchemaMismatch { columns: header.len(), widths: col_widths.len() });
        }
        self.header = header;
        self.col_widths = col_widths;
        Ok(())
    }

    pub fn get_column_by_idx(&self, idx: usize) -> (r: Option<&Column>)
        ensures
            r is Some <==> idx < self.header().len(),
            r matches Some(c) ==> *c == self.header()[idx as int],
    {
        if idx < self.header.len() {
            Some(&self.header[idx])
        } else {
            None
        }
    }

    pub fn get_row_by_idx(&self, idx: usize) -> (r: Option<&Row>)
        ensures
            r is Some <==> idx < self.rows().len(),
            r matches Some(row) ==> *row == self.rows()[idx as int],
    {
        if idx < self.rows.len() {
            Some(&self.rows[idx])
        } else {
            None
        }
    }

    /// Appends `rows` to the buffer, in order.
    pub fn append_rows(&mut self, rows: Vec<Row>)
        ensures
            final(self).rows() == old(self).rows() + rows@,
            final(self).header() == old(self).header(),
            final(self).widths() == old(self).widths(),
            final(self).total() == old(self).total(),
    {
        let mut rows = rows;
        self.rows.append(&mut rows);
    }

    pub fn set_total(&mut self, total: usize)
        ensures
            final(self).total() == total,
            final(self).rows() == old(self).rows(),
            final(self).header() == old(self).header(),
            final(self).widths() == old(self).widths(),
    {
        self.total = total;
    }

    pub fn get_total(&self) -> (r: usize)
        ensures
            r == self.total(),
    {
        self.total
    }

    pub fn get_rows_len(&self) -> (r: usize)
        ensures
            r == self.rows().len(),
    {
        self.rows.len()
    }

    pub fn get_col_widths(&self) -> (r: &Vec<usize>)
        ensures
            r@ == self.widths(),
    {
        &self.col_widths
    }

    /// Column-major grid for the rows `row_range` and columns `col_range`:
    /// row index 0 stands for the header and gives the column's name through
    /// `map_header`; any other index gives the row's value under that
    /// column's name through `map_data`.
    pub fn get_columns_data<F, T, U>(
        &self,
        row_range: &Vec<usize>,
        col_range: &Vec<usize>,
        map_header: F,
        map_data: T,
    ) -> (r: Vec<Vec<U>>) where F: Fn(Option<String>) -> U, T: Fn(Option<String>) -> U
        requires
            forall|a: Option<String>| map_header.requires((a,)),
            forall|a: Option<String>| map_data.requires((a,)),
        ensures
            r@.len() == col_range@.len(),
            forall|c: int| 0 <= c < r@.len() ==> (#[trigger] r@[c])@.len() == row_range@.len(),
            forall|c: int, k: int| 0 <= c < col_range@.len() && 0 <= k < row_range@.len()
                ==> self.produced(&map_header, &map_data, row_range@[k] as int, col_range@[c] as int, #[trigger] r@[c]@[k]),
    {
        let mut data: Vec<Vec<U>> = Vec::new();
        let mut c: usize = 0;
        while c < col_range.len()
            invariant
                c <= col_range@.len(),
                data@.len() == c,
                forall|a: Option<String>| map_header.requires((a,)),
                forall|a: Option<String>| map_data.requires((a,)),
                forall|j: int| 0 <= j < c ==> (#[trigger] data@[j])@.len() == row_range@.len(),
                forall|j: int, k: int| 0 <= j < c && 0 <= k < row_range@.len()
                    ==> self.produced(&map_header, &map_data, row_range@[k] as int, col_range@[j] as int, #[trigger] data@[j]@[k]),
            decreases col_range@.len() - c,
        {
            let col_idx = col_range[c];
            let column = self.column_cells(row_range, col_idx, &map_header, &map_data);
            data.push(column);
            c += 1;
        }
        data
    }

    /// `out` is what the grid of `get_columns_data` holds for row `row` and column `col`.
    pub open spec fn produced<F: Fn(Option<String>) -> U, T: Fn(Option<String>) -> U, U>(
        &self,
        map_header: &F,
        map_data: &T,
        row: int,
        col: int,
        out: U,
    ) -> bool {
        if row == 0 {
            mapped_by(*map_header, self.header_name(col), out)
        } else {
            mapped_by(*map_data, self.cell_value(row, col), out)
        }
    }

    fn column_cells<F, T, U>(&self, row_range: &Vec<usize>, col_idx: usize, map_header: &F, map_data: &T) -> (r: Vec<U>)
        where F: Fn(Option<String>) -> U, T: Fn(Option<String>) -> U
        requires
            forall|a: Option<String>| map_header.requires((a,)),
            forall|a: Option<String>| map_data.requires((a,)),
        ensures
            r@.len() == row_range@.len(),
            forall|k: int| 0 <= k < row_range@.len()
                ==> self.produced(map_header, map_data, row_range@[k] as int, col_idx as int, #[trigger] r@[k]),
    {
        let mut column: Vec<U> = Vec::new();
        let header_data = self.get_column_by_idx(col_idx);
        let mut k: usize = 0;
        while k < row_range.len()
            invariant
                k <= row_range@.len(),
                column@.len() == k,
                forall|a: Option<String>| map_header.requires((a,)),
                forall|a: Option<String>| map_data.requires((a,)),
                header_data is Some <==> col_idx < self.header().len(),
                header_data matches Some(h) ==> *h == self.header()[col_idx as int],
                forall|j: int| 0 <= j < k
                    ==> self.produced(map_header, map_data, row_range@[j] as int, col_idx as int, #[trigger] column@[j]),
            decreases row_range@.len() - k,
        {
            let row_idx = row_range[k];
            let cell = if row_idx == 0 {
                let arg: Option<String> = match header_data {
                    Some(h) => Some(h.name.clone()),
                    None => None,
                };
                let out = map_header(arg);
                assert(opt_view(arg) == self.header_name(col_idx as int) && map_header.ensures((arg,), out));
                out
            } else {
                let arg: Option<String> = match (self.get_row_by_idx(row_idx), header_data) {
                    (Some(row), Some(h)) => row.get(&h.name),
                    _ => None,
                };
                let out = map_data(arg);
                assert(opt_view(arg) == self.cell_value(row_idx as int, col_idx as int) && map_data.ensures((arg,), out));
                out
            };
            column.push(cell);
            k += 1;
        }
        column
    }
}

} // verus!
