//! Output layouts of the `hello` table function: the columns each one
//! declares and the value each cell holds.
use vstd::prelude::*;

verus! {

/// Identifier written into every row's `pe_id` column.
pub const PE_ID: u64 = 123;

/// `price`, in tenths.
pub const PRICE_TENTHS: u32 = 13;

/// `unit_price`, in tenths.
pub const UNIT_PRICE_TENTHS: u32 = 17;

/// `base_price`, in tenths.
pub const BASE_PRICE_TENTHS: u32 = 15;

/// The logical type of an output column, as the host engine names it.
#[derive(Clone, Copy, Debug, PartialEq, Eq, Structural)]
pub enum ColumnType {
    /// Text.
    Varchar,
    /// 32-bit signed integer.
    Integer,
    /// 64-bit unsigned integer.
    UBigint,
    /// 32-bit floating point.
    Float,
}

/// Which result set a bound call produces.
#[derive(Clone, Copy, Debug, PartialEq, Eq, Structural)]
pub enum Layout {
    /// One text column `column0` holding a greeting for the argument.
    Greeting,
    /// Ten placeholder rows whose titles carry the row index.
    Listing,
    /// One product row whose title carries the argument.
    Product,
}

/// A declared output column: its name and logical type.
pub struct ColumnSpec {
    pub name: Seq<char>,
    pub ty: ColumnType,
}

/// A declared output column, as handed to the host.
#[derive(Debug)]
pub struct Column {
    pub name: String,
    pub ty: ColumnType,
}

impl View for Column {
    type V = ColumnSpec;

    open spec fn view(&self) -> ColumnSpec {
        ColumnSpec { name: self.name@, ty: self.ty }
    }
}

/// What a cell holds.
pub enum ValueView {
    Text(Seq<char>),
    Integer(i32),
    UBigint(u64),
    /// A 32-bit float: the one nearest to this many tenths.
    Float(u32),
}

/// A cell value produced by a scan, as handed to the host.
#[derive(Debug, PartialEq)]
pub enum Value {
    Text(String),
    Integer(i32),
    UBigint(u64),
    /// A 32-bit float column value, given as a count of tenths; the host
    /// receives the `f32` nearest to it.
    Float { tenths: u32 },
}

impl View for Value {
    type V = ValueView;

    open spec fn view(&self) -> ValueView {
        match self {
            Value::Text(s) => ValueView::Text(s@),
            Value::Integer(n) => ValueView::Integer(*n),
            Value::UBigint(n) => ValueView::UBigint(*n),
            Value::Float { tenths } => ValueView::Float(*tenths),
        }
    }
}

/// The logical type a cell value belongs to.
pub open spec fn value_type(v: ValueView) -> ColumnType {
    match v {
        ValueView::Text(_) => ColumnType::Varchar,
        ValueView::Integer(_) => ColumnType::Integer,
        ValueView::UBigint(_) => ColumnType::UBigint,
        ValueView::Float(_) => ColumnType::Float,
    }
}

pub open spec fn column_spec(name: Seq<char>, ty: ColumnType) -> ColumnSpec {
    ColumnSpec { name, ty }
}

/// The columns a call with this layout declares, in the order the scan fills them.
pub open spec fn schema(layout: Layout) -> Seq<ColumnSpec> {
    match layout {
        Layout::Greeting => seq![column_spec("column0"@, ColumnType::Varchar)],
        Layout::Listing => seq![
            column_spec("pe_id"@, ColumnType::Integer),
            column_spec("title"@, ColumnType::Varchar),
            column_spec("price"@, ColumnType::Float),
            column_spec("unit_price"@, ColumnType::Float),
            column_spec("base_price"@, ColumnType::Float),
        ],
        Layout::Product => seq![
            column_spec("pe_id"@, ColumnType::UBigint),
            column_spec("title"@, ColumnType::Varchar),
            column_spec("price"@, ColumnType::Float),
            column_spec("unit_price"@, ColumnType::Float),
            column_spec("base_price"@, ColumnType::Float),
        ],
    }
}

/// Number of rows the scan of a call with this layout produces.
pub open spec fn row_count(layout: Layout) -> nat {
    match layout {
        Layout::Greeting => 1,
        Layout::Listing => 10,
        Layout::Product => 1,
    }
}

/// The character of a decimal digit.
pub open spec fn digit_char(d: nat) -> char {
    "0123456789"@[d as int]
}

/// The decimal representation of `n`, without leading zeros.
pub open spec fn decimal(n: nat) -> Seq<char>
    decreases n,
{
    if n < 10 {
        seq![digit_char(n)]
    } else {
        decimal(n / 10).push(digit_char(n % 10))
    }
}

/// The value in row `row`, column `col` of a scan of a call with argument `arg`.
pub open spec fn cell(layout: Layout, arg: Seq<char>, row: nat, col: nat) -> ValueView {
    match layout {
        Layout::Greeting => ValueView::Text("Hello "@ + arg),
        Layout::Listing => if col == 0 {
            ValueView::Integer(PE_ID as i32)
        } else if col == 1 {
            ValueView::Text("title "@ + decimal(row))
        } else {
            price_cell(col)
        },
        Layout::Product => if col == 0 {
            ValueView::UBigint(PE_ID)
        } else if col == 1 {
            ValueView::Text("title "@ + arg)
        } else {
            price_cell(col)
        },
    }
}

/// The price columns, by index: `price`, `unit_price`, `base_price`.
pub open spec fn price_cell(col: nat) -> ValueView {
    if col == 2 {
        ValueView::Float(PRICE_TENTHS)
    } else if col == 3 {
        ValueView::Float(UNIT_PRICE_TENTHS)
    } else {
        ValueView::Float(BASE_PRICE_TENTHS)
    }
}

impl Layout {
    /// The layout the registered function uses.
    pub fn standard() -> (r: Layout)
        ensures
            r == Layout::Product,
    {
        Layout::Product
    }

    pub fn row_count(&self) -> (r: usize)
        ensures
            r == row_count(*self),
    {
        match self {
            Layout::Greeting => 1,
            Layout::Listing => 10,
            Layout::Product => 1,
        }
    }

    pub fn column_count(&self) -> (r: usize)
        ensures
            r == schema(*self).len(),
    {
        match self {
            Layout::Greeting => 1,
            _ => 5,
        }
    }

    /// The columns to declare for a call with this layout.
    pub fn columns(&self) -> (r: Vec<Column>)
        ensures
            r@.len() == schema(*self).len(),
            forall|j: int| 0 <= j < r@.len() ==> #[trigger] r@[j]@ == schema(*self)[j],
    {
        match self {
            Layout::Greeting => vec![column("column0", ColumnType::Varchar)],
            Layout::Listing => vec![
                column("pe_id", ColumnType::Integer),
                column("title", ColumnType::Varchar),
                column("price", ColumnType::Float),
                column("unit_price", ColumnType::Float),
                column("base_price", ColumnType::Float),
            ],
            Layout::Product => vec![
                column("pe_id", ColumnType::UBigint),
                column("title", ColumnType::Varchar),
                column("price", ColumnType::Float),
                column("unit_price", ColumnType::Float),
                column("base_price", ColumnType::Float),
            ],
        }
    }
}

/// The decimal representation of `n`.
pub fn decimal_text(n: usize) -> (r: String)
    ensures
        r@ == decimal(n as nat),
    decreases n,
{
    let digits: &str = "0123456789";
    proof {
        reveal_strlit("0123456789");
    }
    let d: usize = n % 10;
    let last: &str = digits.substring_char(d, d + 1);
    assert(last@ =~= seq![digit_char(d as nat)]);
    if n < 10 {
        String::from_str(last)
    } else {
        let mut s = decimal_text(n / 10);
        s.append(last);
        s
    }
}

/// The value in row `row`, column `col` of a scan of a call with argument `arg`.
pub fn value_at(layout: Layout, arg: &str, row: usize, col: usize) -> (r: Value)
    requires
        col < schema(layout).len(),
    ensures
        r@ == cell(layout, arg@, row as nat, col as nat),
{
    match layout {
        Layout::Greeting => Value::Text(String::from_str("Hello ").concat(arg)),
        Layout::Listing => {
            if col == 0 {
                Value::Integer(PE_ID as i32)
            } else if col == 1 {
                let index = decimal_text(row);
                Value::Text(String::from_str("title ").concat(index.as_str()))
            } else {
                price_value(col)
            }
        },
        Layout::Product => {
            if col == 0 {
                Value::UBigint(PE_ID)
            } else if col == 1 {
                Value::Text(String::from_str("title ").concat(arg))
            } else {
                price_value(col)
            }
        },
    }
}

fn price_value(col: usize) -> (r: Value)
    ensures
        r@ == price_cell(col as nat),
{
    if col == 2 {
        Value::Float { tenths: PRICE_TENTHS }
    } else if col == 3 {
        Value::Float { tenths: UNIT_PRICE_TENTHS }
    } else {
        Value::Float { tenths: BASE_PRICE_TENTHS }
    }
}

fn column(name: &str, ty: ColumnType) -> (r: Column)
    ensures
        r@ == column_spec(name@, ty),
{
    Column { name: String::from_str(name), ty }
}

} // verus!
