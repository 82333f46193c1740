use vstd::prelude::*;

use crate::text::{is_alnum_text, join, push_char, push_joined, push_text, views};
use crate::typed_generator::generator::{
    is_bool_text, is_float_text, is_int_text, is_json_text, is_time_text, Generator,
};

verus! {

/// The value category of a column, tagged with its catalog type id.
#[derive(Clone, Copy, Debug, PartialEq, Eq, Structural)]
pub enum TypeInfo {
    Text(u32),
    Int(u32),
    Float(u32),
    Bool(u32),
    Time(u32),
    Json(u32),
}

impl Default for TypeInfo {
    fn default() -> (r: TypeInfo)
        ensures
            r == TypeInfo::Text(0),
    {
        TypeInfo::Text(0)
    }
}

/// The category of each catalog type id that values can be generated for.
pub open spec fn type_map(tid: u32) -> Option<TypeInfo> {
    if tid == 1042 || tid == 1043 || tid == 25 {
        Some(TypeInfo::Text(tid))
    } else if tid == 20 || tid == 23 || tid == 26 || tid == 27 || tid == 28 || tid == 29 {
        Some(TypeInfo::Int(tid))
    } else if tid == 1700 || tid == 701 {
        Some(TypeInfo::Float(tid))
    } else if tid == 16 {
        Some(TypeInfo::Bool(tid))
    } else if tid == 1114 || tid == 1184 || tid == 1082 {
        Some(TypeInfo::Time(tid))
    } else if tid == 3802 {
        Some(TypeInfo::Json(tid))
    } else {
        None
    }
}

/// The category of catalog type id `tid`, if it is a known one.
pub fn lookup_type(tid: u32) -> (r: Option<TypeInfo>)
    ensures
        r == type_map(tid),
{
    match tid {
        1042 | 1043 | 25 => Some(TypeInfo::Text(tid)),
        20 | 23 | 26 | 27 | 28 | 29 => Some(TypeInfo::Int(tid)),
        1700 | 701 => Some(TypeInfo::Float(tid)),
        16 => Some(TypeInfo::Bool(tid)),
        1114 | 1184 | 1082 => Some(TypeInfo::Time(tid)),
        3802 => Some(TypeInfo::Json(tid)),
        _ => None,
    }
}

/// One column: its name, category and type modifier.
#[derive(Clone, Debug)]
pub struct AttrInfo {
    pub attname: String,
    pub type_info: TypeInfo,
    pub typmod: i32,
}

impl Default for AttrInfo {
    fn default() -> (r: AttrInfo)
        ensures
            r.attname@.len() == 0,
            r.type_info == TypeInfo::Text(0),
            r.typmod == 0,
    {
        AttrInfo { attname: String::new(), type_info: TypeInfo::Text(0), typmod: 0 }
    }
}

/// The bound on the length of generated text for a column with modifier
/// `typmod`: the declared length (the modifier less 4) where there is one,
/// else 500.
pub open spec fn text_limit(typmod: i32) -> int {
    if typmod > 0 {
        typmod - 4
    } else {
        500
    }
}

/// Whether a column's values can be generated: a text column's length bound is positive.
pub open spec fn column_ok(a: AttrInfo) -> bool {
    a.type_info is Text ==> text_limit(a.typmod) > 0
}

/// Whether `v` is a value generated for a column of category `t` and modifier `typmod`.
pub open spec fn is_value_for(t: TypeInfo, typmod: i32, v: Seq<char>) -> bool {
    match t {
        TypeInfo::Text(_) => is_alnum_text(v, text_limit(typmod)),
        TypeInfo::Int(_) => is_int_text(v),
        TypeInfo::Float(_) => is_float_text(v),
        TypeInfo::Bool(_) => is_bool_text(v),
        TypeInfo::Time(_) => is_time_text(v),
        TypeInfo::Json(_) => is_json_text(v),
    }
}

/// A value as it stands in a statement: text and timestamps between single quotes.
pub open spec fn cell_seq(t: TypeInfo, v: Seq<char>) -> Seq<char> {
    match t {
        TypeInfo::Text(_) | TypeInfo::Time(_) => seq!['\''] + v + seq!['\''],
        _ => v,
    }
}

/// Whether `values` holds one generated value for each of `cols`, in order.
pub open spec fn is_row_for(cols: Seq<AttrInfo>, values: Seq<Seq<char>>) -> bool {
    &&& values.len() == cols.len()
    &&& forall|j: int|
        0 <= j < cols.len() ==> is_value_for(cols[j].type_info, cols[j].typmod, #[trigger] values[j])
}

/// The value tuple of `values` for `cols`: the cells, separated by commas, in parentheses.
pub open spec fn row_seq(cols: Seq<AttrInfo>, values: Seq<Seq<char>>) -> Seq<char> {
    seq!['('] + join(Seq::new(values.len(), |j: int| cell_seq(cols[j].type_info, values[j])))
        + seq![')']
}

/// The insert statement of the tuples `rows` into table `name`.
pub open spec fn statement_seq(name: Seq<char>, rows: Seq<Seq<char>>) -> Seq<char> {
    "insert into "@ + name + " values "@ + join(rows) + seq![';']
}

/// Whether `rows` holds `n` value lists, each one generated for `cols`.
pub open spec fn is_batch_for(cols: Seq<AttrInfo>, rows: Seq<Seq<Seq<char>>>, n: int) -> bool {
    &&& rows.len() == n
    &&& forall|i: int| 0 <= i < n ==> is_row_for(cols, #[trigger] rows[i])
}

/// The statement that inserts one tuple for each of `rows` into `table`.
pub open spec fn batch_seq(table: Table, rows: Seq<Seq<Seq<char>>>) -> Seq<char> {
    statement_seq(table.tablename@, Seq::new(rows.len(), |i: int| row_seq(table.tids@, rows[i])))
}

/// Every text value generated for a column is shorter than the declared
/// length (the modifier less 4) where the modifier is positive, and shorter
/// than 500 characters where it is not.
pub proof fn text_value_within_modifier(cols: Seq<AttrInfo>, values: Seq<Seq<char>>, j: int)
    requires
        is_row_for(cols, values),
        0 <= j < cols.len(),
        cols[j].type_info is Text,
    ensures
        cols[j].typmod > 0 ==> values[j].len() < cols[j].typmod - 4,
        cols[j].typmod <= 0 ==> values[j].len() < 500,
{
    assert(is_value_for(cols[j].type_info, cols[j].typmod, values[j]));
}

/// A value rendered for a column of category `t`: text and timestamps quoted.
pub fn render_cell(t: TypeInfo, v: String) -> (r: String)
    ensures
        r@ == cell_seq(t, v@),
{
    match t {
        TypeInfo::Text(_) | TypeInfo::Time(_) => Table::quote_val(v.as_str()),
        _ => v,
    }
}

/// A table: its name and its columns in ordinal order.
#[derive(Clone, Debug)]
pub struct Table {
    pub tablename: String,
    pub tids: Vec<AttrInfo>,
}

impl Table {
    /// Whether values can be generated for every column.
    pub open spec fn wf(&self) -> bool {
        forall|j: int| 0 <= j < self.tids.len() ==> column_ok(#[trigger] self.tids[j])
    }

    /// A table named `tablename`, with no columns yet.
    pub fn new(tablename: String) -> (r: Table)
        ensures
            r.tablename@ == tablename@,
            r.tids.len() == 0,
            r.wf(),
    {
        Table { tablename, tids: Vec::new() }
    }

    /// Whether values can be generated for every column.
    pub fn is_well_formed(&self) -> (r: bool)
        ensures
            r == self.wf(),
    {
        let mut i: usize = 0;
        while i < self.tids.len()
            invariant
                i <= self.tids.len(),
                forall|j: int| 0 <= j < i ==> column_ok(#[trigger] self.tids[j]),
            decreases self.tids.len() - i,
        {
            let a = &self.tids[i];
            match a.type_info {
                TypeInfo::Text(_) => {
                    if a.typmod > 0 && a.typmod <= 4 {
                        return false;
                    }
                },
                _ => {},
            }
            i = i + 1;
        }
        true
    }

    /// Appends the column that the catalog describes as `attname`, of type id
    /// `tid` and modifier `typmod`. A type id outside the map gives a text
    /// column with modifier 0 and the answer `false`.
    pub fn add_column(&mut self, attname: String, tid: u32, typmod: i32) -> (mapped: bool)
        ensures
            mapped == (type_map(tid) is Some),
            final(self).tablename == old(self).tablename,
            final(self).tids.len() == old(self).tids.len() + 1,
            forall|j: int| 0 <= j < old(self).tids.len() ==> final(self).tids[j] == old(self).tids[j],
            final(self).tids@.last().attname@ == attname@,
            final(self).tids@.last().type_info == match type_map(tid) {
                Some(t) => t,
                None => TypeInfo::Text(0),
            },
            final(self).tids@.last().typmod == if mapped { typmod } else { 0 },
            final(self).wf() == (old(self).wf() && column_ok(final(self).tids@.last())),
    {
        let attr = match lookup_type(tid) {
            Some(t) => AttrInfo { attname, type_info: t, typmod },
            None => AttrInfo { attname, type_info: TypeInfo::Text(0), typmod: 0 },
        };
        self.tids.push(attr);
        proof {
            let n = self.tids.len() - 1;
            assert(forall|j: int| 0 <= j < n ==> self.tids[j] == old(self).tids[j]);
        }
        lookup_type(tid).is_some()
    }

    /// The value tuple of `values`, one for each column in order.
    pub fn render_row(&self, values: &Vec<String>) -> (r: String)
        requires
            values.len() == self.tids.len(),
        ensures
            r@ == row_seq(self.tids@, views(values@)),
    {
        let ghost vs = views(values@);
        let ghost cells_spec = Seq::new(vs.len(), |j: int| cell_seq(self.tids@[j].type_info, vs[j]));
        let mut cells: Vec<String> = Vec::new();
        let mut i: usize = 0;
        while i < values.len()
            invariant
                i <= values.len() == self.tids.len(),
                vs == views(values@),
                cells_spec == Seq::new(vs.len(), |j: int| cell_seq(self.tids@[j].type_info, vs[j])),
                cells.len() == i,
                forall|j: int| 0 <= j < i ==> #[trigger] cells[j]@ == cells_spec[j],
            decreases values.len() - i,
        {
            let c = render_cell(self.tids[i].type_info, values[i].clone());
            cells.push(c);
            i = i + 1;
        }
        assert(views(cells@) =~= cells_spec);
        let mut r = String::new();
        push_char(&mut r, '(');
        push_joined(&mut r, &cells);
        push_char(&mut r, ')');
        assert(r@ =~= row_seq(self.tids@, vs));
        r
    }

    /// The insert statement of the value tuples `rows` into this table.
    pub fn render_statement(&self, rows: &Vec<String>) -> (r: String)
        ensures
            r@ == statement_seq(self.tablename@, views(rows@)),
    {
        let mut r = String::new();
        push_text(&mut r, "insert into ");
        push_text(&mut r, self.tablename.as_str());
        push_text(&mut r, " values ");
        push_joined(&mut r, rows);
        push_char(&mut r, ';');
        assert(r@ =~= statement_seq(self.tablename@, views(rows@)));
        r
    }

    /// One value tuple: a random value for each column, in column order.
    pub fn generate_one_value(&self, generator: &mut Generator) -> (r: String)
        requires
            self.wf(),
        ensures
            exists|values: Seq<Seq<char>>|
                is_row_for(self.tids@, values) && r@ == #[trigger] row_seq(self.tids@, values),
    {
        let mut values: Vec<String> = Vec::new();
        let mut i: usize = 0;
        while i < self.tids.len()
            invariant
                self.wf(),
                i <= self.tids.len(),
                values.len() == i,
                forall|j: int|
                    0 <= j < i ==> is_value_for(
                        self.tids@[j].type_info,
                        self.tids@[j].typmod,
                        #[trigger] values[j]@,
                    ),
            decreases self.tids.len() - i,
        {
            let attr = &self.tids[i];
            assert(column_ok(self.tids[i as int]));
            let v = match attr.type_info {
                TypeInfo::Text(tid) => {
                    let maxlength: i32 = if attr.typmod > 0 {
                        attr.typmod - 4
                    } else {
                        500
                    };
                    generator.get_text(maxlength, &tid)
                },
                TypeInfo::Int(tid) => generator.get_int(&tid),
                TypeInfo::Float(tid) => generator.get_float(&tid),
                TypeInfo::Bool(tid) => generator.get_bool(&tid),
                TypeInfo::Time(tid) => generator.get_time(&tid),
                TypeInfo::Json(tid) => generator.get_json(&tid),
            };
            values.push(v);
            i = i + 1;
        }
        let r = self.render_row(&values);
        assert(is_row_for(self.tids@, views(values@)));
        r
    }

    /// An insert statement of `batch` random value tuples; for a batch of
    /// zero, no statement (an empty text).
    pub fn generate_insertbatch(&self, batch: u32, generator: &mut Generator) -> (r: String)
        requires
            self.wf(),
        ensures
            batch == 0 ==> r@.len() == 0,
            batch > 0 ==> exists|rows: Seq<Seq<Seq<char>>>|
                is_batch_for(self.tids@, rows, batch as int) && r@ == #[trigger] batch_seq(
                    *self,
                    rows,
                ),
    {
        if batch == 0 {
            return String::new();
        }
        let ghost gv: Seq<Seq<Seq<char>>> = Seq::empty();
        let mut rows: Vec<String> = Vec::new();
        let mut n: u32 = 0;
        while n < batch
            invariant
                self.wf(),
                n <= batch,
                rows.len() == n,
                is_batch_for(self.tids@, gv, n as int),
                forall|i: int| 0 <= i < n ==> #[trigger] rows[i]@ == row_seq(self.tids@, gv[i]),
            decreases batch - n,
        {
            let row = self.generate_one_value(generator);
            let ghost v = choose|v: Seq<Seq<char>>|
                is_row_for(self.tids@, v) && row@ == #[trigger] row_seq(self.tids@, v);
            rows.push(row);
            proof {
                gv = gv.push(v);
            }
            n = n + 1;
        }
        let r = self.render_statement(&rows);
        assert(views(rows@) =~= Seq::new(gv.len(), |i: int| row_seq(self.tids@, gv[i])));
        assert(r@ == batch_seq(*self, gv));
        r
    }

    /// `s` between single quotes.
    fn quote_val(s: &str) -> (r: String)
        ensures
            r@ == seq!['\''] + s@ + seq!['\''],
    {
        let mut r = String::new();
        push_char(&mut r, '\'');
        push_text(&mut r, s);
        push_char(&mut r, '\'');
        assert(r@ =~= seq!['\''] + s@ + seq!['\'']);
        r
    }
}

} // verus!
