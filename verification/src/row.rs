//! Rows, the sink that stages them during a block, and the batch of row
//! changes that a block yields.

use vstd::prelude::*;

verus! {

/// The value of one column.
#[derive(Clone, Debug, PartialEq, Eq)]
pub enum Value {
    I64(i64),
    U64(u64),
    Bool(bool),
    Bytes(Vec<u8>),
    Text(String),
    TextArray(Vec<String>),
}

/// The mathematical value of a [`Value`].
pub enum ValueView {
    I64(i64),
    U64(u64),
    Bool(bool),
    Bytes(Seq<u8>),
    Text(Seq<char>),
    TextArray(Seq<Seq<char>>),
}

/// The texts of a list of strings.
pub open spec fn texts(strings: Seq<String>) -> Seq<Seq<char>> {
    strings.map_values(|s: String| s@)
}

impl View for Value {
    type V = ValueView;

    open spec fn view(&self) -> ValueView {
        match *self {
            Value::I64(v) => ValueView::I64(v),
            Value::U64(v) => ValueView::U64(v),
            Value::Bool(v) => ValueView::Bool(v),
            Value::Bytes(v) => ValueView::Bytes(v@),
            Value::Text(v) => ValueView::Text(v@),
            Value::TextArray(v) => ValueView::TextArray(texts(v@)),
        }
    }
}

/// A named value of a row.
#[derive(Clone, Debug, PartialEq, Eq)]
pub struct Column {
    pub name: String,
    pub value: Value,
}

/// The mathematical value of a [`Column`].
pub struct ColumnView {
    pub name: Seq<char>,
    pub value: ValueView,
}

impl View for Column {
    type V = ColumnView;

    open spec fn view(&self) -> ColumnView {
        ColumnView { name: self.name@, value: self.value@ }
    }
}

/// The primary key of a row: the slot, and below it the position of the
/// transaction in the block and of the instruction in the transaction.
#[derive(Clone, Copy, Debug, PartialEq, Eq, Structural)]
pub enum RowKey {
    Block { slot: u64 },
    Transaction { slot: u64, transaction_index: u32 },
    Instruction { slot: u64, transaction_index: u32, instruction_index: i32 },
}

impl RowKey {
    pub open spec fn slot(self) -> u64 {
        match self {
            RowKey::Block { slot } => slot,
            RowKey::Transaction { slot, .. } => slot,
            RowKey::Instruction { slot, .. } => slot,
        }
    }

    /// The position of the transaction that the row belongs to, if it belongs to one.
    pub open spec fn transaction_index(self) -> Option<u32> {
        match self {
            RowKey::Block { .. } => None,
            RowKey::Transaction { transaction_index, .. } => Some(transaction_index),
            RowKey::Instruction { transaction_index, .. } => Some(transaction_index),
        }
    }
}

/// The mapping that a list of columns stands for: a name maps to the value
/// of the last column of that name.
pub open spec fn column_map(columns: Seq<ColumnView>) -> Map<Seq<char>, ValueView>
    decreases columns.len(),
{
    if columns.len() == 0 {
        Map::empty()
    } else {
        column_map(columns.drop_last()).insert(columns.last().name, columns.last().value)
    }
}

/// The last column of a name decides what the name maps to.
pub proof fn lemma_column_map_last(columns: Seq<ColumnView>, name: Seq<char>, at: int)
    requires
        0 <= at < columns.len(),
        columns[at].name == name,
        forall|j: int| at < j < columns.len() ==> columns[j].name != name,
    ensures
        column_map(columns).dom().contains(name),
        column_map(columns)[name] == columns[at].value,
    decreases columns.len(),
{
    if at < columns.len() - 1 {
        lemma_column_map_last(columns.drop_last(), name, at);
    }
}

/// A name that no column carries maps to nothing.
pub proof fn lemma_column_map_absent(columns: Seq<ColumnView>, name: Seq<char>)
    requires
        forall|j: int| 0 <= j < columns.len() ==> columns[j].name != name,
    ensures
        !column_map(columns).dom().contains(name),
    decreases columns.len(),
{
    if columns.len() > 0 {
        lemma_column_map_absent(columns.drop_last(), name);
    }
}

/// One row for one table: its key and its columns in the order in which they
/// were set. Read as a mapping from names to values, a later column of a
/// name replaces an earlier one.
#[derive(Clone, Debug, PartialEq, Eq)]
pub struct Row {
    pub table: String,
    pub key: RowKey,
    pub columns: Vec<Column>,
}

/// The mathematical value of a [`Row`].
pub struct RowView {
    pub table: Seq<char>,
    pub key: RowKey,
    pub columns: Seq<ColumnView>,
}

impl RowView {
    /// The row of a table that has a key and no column yet.
    pub open spec fn new(table: Seq<char>, key: RowKey) -> RowView {
        RowView { table, key, columns: Seq::empty() }
    }

    /// The row with one more column at its end.
    pub open spec fn set(self, name: Seq<char>, value: ValueView) -> RowView {
        RowView { columns: self.columns.push(ColumnView { name, value }), ..self }
    }

    pub open spec fn text(self, name: Seq<char>, value: Seq<char>) -> RowView {
        self.set(name, ValueView::Text(value))
    }

    pub open spec fn unsigned(self, name: Seq<char>, value: u64) -> RowView {
        self.set(name, ValueView::U64(value))
    }

    pub open spec fn signed(self, name: Seq<char>, value: i64) -> RowView {
        self.set(name, ValueView::I64(value))
    }

    pub open spec fn boolean(self, name: Seq<char>, value: bool) -> RowView {
        self.set(name, ValueView::Bool(value))
    }

    /// The columns as a mapping from names to values.
    pub open spec fn mapping(self) -> Map<Seq<char>, ValueView> {
        column_map(self.columns)
    }
}

impl View for Row {
    type V = RowView;

    open spec fn view(&self) -> RowView {
        RowView {
            table: self.table@,
            key: self.key,
            columns: self.columns@.map_values(|c: Column| c@),
        }
    }
}

impl Row {
    /// A row of `table` with key `key` and no column yet.
    pub fn new(table: &str, key: RowKey) -> (row: Row)
        ensures
            row@ == RowView::new(table@, key),
    {
        let row = Row { table: table.to_owned(), key, columns: Vec::new() };
        assert(row@.columns =~= Seq::empty());
        row
    }

    /// Appends the column `name` with `value`.
    pub fn set(&mut self, name: &str, value: Value)
        ensures
            final(self)@ == old(self)@.set(name@, value@),
    {
        let column = Column { name: name.to_owned(), value };
        self.columns.push(column);
        assert(self@.columns =~= old(self)@.columns.push(column@));
    }

    /// The value of a column, read as a mapping: that of the last column of
    /// the name.
    pub fn get(&self, name: &str) -> (value: Option<&Value>)
        ensures
            match value {
                Some(v) => self@.mapping().dom().contains(name@) && self@.mapping()[name@] == v@,
                None => !self@.mapping().dom().contains(name@),
            },
    {
        let wanted = name.to_owned();
        let mut i: usize = self.columns.len();
        while i > 0
            invariant
                i <= self.columns@.len(),
                wanted@ == name@,
                forall|j: int| i <= j < self.columns@.len() ==> self@.columns[j].name != name@,
            decreases i,
        {
            i -= 1;
            if self.columns[i].name == wanted {
                proof {
                    lemma_column_map_last(self@.columns, name@, i as int);
                }
                return Some(&self.columns[i].value);
            }
        }
        proof {
            lemma_column_map_absent(self@.columns, name@);
        }
        None
    }

    /// Appends a text column.
    pub fn set_text(&mut self, name: &str, value: String)
        ensures
            final(self)@ == old(self)@.text(name@, value@),
    {
        self.set(name, Value::Text(value));
    }

    /// Appends an unsigned integer column.
    pub fn set_unsigned(&mut self, name: &str, value: u64)
        ensures
            final(self)@ == old(self)@.unsigned(name@, value),
    {
        self.set(name, Value::U64(value));
    }

    /// Appends a signed integer column.
    pub fn set_signed(&mut self, name: &str, value: i64)
        ensures
            final(self)@ == old(self)@.signed(name@, value),
    {
        self.set(name, Value::I64(value));
    }

    /// Appends a boolean column.
    pub fn set_boolean(&mut self, name: &str, value: bool)
        ensures
            final(self)@ == old(self)@.boolean(name@, value),
    {
        self.set(name, Value::Bool(value));
    }
}

/// What a row change asks the database to do.
#[derive(Clone, Copy, Debug, PartialEq, Eq, Structural)]
pub enum Operation {
    Create,
}

/// One insertion directive for the database.
#[derive(Clone, Debug, PartialEq, Eq)]
pub struct RowChange {
    pub operation: Operation,
    pub row: Row,
}

/// The ordered list of row changes that one block yields.
#[derive(Clone, Debug, PartialEq, Eq)]
pub struct RowBatch {
    pub changes: Vec<RowChange>,
}

impl View for RowBatch {
    type V = Seq<RowView>;

    /// The rows to insert, in order.
    open spec fn view(&self) -> Seq<RowView> {
        self.changes@.map_values(|c: RowChange| c.row@)
    }
}

/// Append-only staging area for the rows of one block. It keeps the rows in
/// the order in which they were appended and removes no duplicates.
#[derive(Debug)]
pub struct RowSink {
    changes: Vec<RowChange>,
}

impl View for RowSink {
    type V = Seq<RowView>;

    /// The rows staged so far, in order.
    closed spec fn view(&self) -> Seq<RowView> {
        self.changes@.map_values(|c: RowChange| c.row@)
    }
}

impl RowSink {
    /// A sink that holds no row.
    pub fn new() -> (sink: RowSink)
        ensures
            sink@ == Seq::<RowView>::empty(),
    {
        RowSink { changes: Vec::new() }
    }

    /// The number of rows staged.
    pub fn len(&self) -> (n: usize)
        ensures
            n == self@.len(),
    {
        self.changes.len()
    }

    /// Appends one row.
    pub fn push(&mut self, row: Row)
        ensures
            final(self)@ == old(self)@.push(row@),
    {
        self.changes.push(RowChange { operation: Operation::Create, row });
    }

    /// Surrenders the staged rows, in the order in which they were appended,
    /// each as a row to create.
    pub fn into_batch(self) -> (batch: RowBatch)
        ensures
            batch@ == self@,
            forall|i: int|
                0 <= i < batch.changes@.len() ==> (#[trigger] batch.changes@[i]).operation
                    == Operation::Create,
    {
        RowBatch { changes: self.changes }
    }
}

} // verus!
