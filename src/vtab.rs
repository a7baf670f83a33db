//! The per-call and per-scan state of the `hello` table function and the
//! steps its host drives: bind, init, execute (one chunk per call) and release.
use crate::schema::{cell, row_count, schema, value_at, Column, ColumnType, Layout, Value};
use vstd::prelude::*;

verus! {

/// Why a call could not be bound.
#[derive(Clone, Copy, Debug, PartialEq, Eq, Structural)]
pub enum BindError {
    /// The argument holds a NUL character, so it has no nul-terminated copy.
    InteriorNul,
}

/// Whether `s` holds a NUL character.
pub open spec fn has_nul(s: Seq<char>) -> bool {
    exists|i: int| 0 <= i < s.len() && s[i] == '\0'
}

/// Per-call state: the layout chosen at bind time and an owned copy of the
/// positional argument, held until the host releases it.
#[derive(Debug)]
pub struct HelloBindData {
    layout: Layout,
    name: Option<String>,
}

impl HelloBindData {
    /// The argument text held, or `None` once released.
    pub closed spec fn text(&self) -> Option<Seq<char>> {
        match self.name {
            Some(s) => Some(s@),
            None => None,
        }
    }

    /// The layout chosen at bind time.
    pub closed spec fn spec_layout(&self) -> Layout {
        self.layout
    }

    /// The layout chosen at bind time.
    #[verifier::when_used_as_spec(spec_layout)]
    pub fn layout(&self) -> (r: Layout)
        ensures
            r == self.spec_layout(),
    {
        self.layout
    }

    /// Whether the argument is still held.
    pub fn is_bound(&self) -> (r: bool)
        ensures
            r == self.text() is Some,
    {
        self.name.is_some()
    }

    /// The argument, read through a borrowed view.
    pub fn name(&self) -> (r: Option<&str>)
        ensures
            r is Some == self.text() is Some,
            r matches Some(s) ==> self.text() == Some(s@),
    {
        match &self.name {
            Some(s) => Some(s.as_str()),
            None => None,
        }
    }

    /// The columns this call declares, in the order its scans fill them.
    pub fn columns(&self) -> (r: Vec<Column>)
        ensures
            r@.len() == schema(self.layout()).len(),
            forall|j: int| 0 <= j < r@.len() ==> #[trigger] r@[j]@ == schema(self.layout())[j],
    {
        self.layout.columns()
    }

    /// Release hook: drops the argument copy if one is held. Returns whether
    /// a copy was released; a second call releases nothing.
    pub fn free(&mut self) -> (released: bool)
        ensures
            released == old(self).text() is Some,
            final(self).text() is None,
            final(self).layout() == old(self).layout(),
    {
        match self.name.take() {
            Some(_) => true,
            None => false,
        }
    }
}

/// Per-scan state: whether the scan has already produced its rows.
#[derive(Debug)]
pub struct HelloInitData {
    pub done: bool,
}

/// One batch of output: a vector of values per declared column, each
/// `len` long. A batch with `len == 0` ends the scan.
#[derive(Debug)]
pub struct Chunk {
    pub len: usize,
    pub vectors: Vec<Vec<Value>>,
}

/// Rows the next execute call emits, given the scan's `done` flag.
pub open spec fn emitted_rows(layout: Layout, done: bool) -> nat {
    if done {
        0
    } else {
        row_count(layout)
    }
}

/// `c` holds the first `rows` rows of a scan of a call with argument `arg`,
/// one vector per declared column.
pub open spec fn chunk_holds(c: Chunk, layout: Layout, arg: Seq<char>, rows: nat) -> bool {
    &&& c.len == rows
    &&& c.vectors@.len() == schema(layout).len()
    &&& forall|j: int|
        0 <= j < c.vectors@.len() ==> (#[trigger] c.vectors@[j])@.len() == rows
    &&& forall|j: int, i: int|
        0 <= j < c.vectors@.len() && 0 <= i < rows ==> (#[trigger] c.vectors@[j]@[i])@ == cell(
            layout,
            arg,
            i as nat,
            j as nat,
        )
}

/// The table function's steps.
pub struct HelloVTab;

impl HelloVTab {
    /// Bind: captures an owned copy of the positional argument. Fails when
    /// the argument has no nul-terminated copy.
    pub fn bind(layout: Layout, arg: String) -> (r: Result<HelloBindData, BindError>)
        ensures
            r is Ok <==> !has_nul(arg@),
            r matches Ok(b) ==> b.layout() == layout && b.text() == Some(arg@),
            r matches Err(e) ==> e == BindError::InteriorNul,
    {
        let n: usize = arg.as_str().unicode_len();
        let mut i: usize = 0;
        while i < n
            invariant
                n == arg@.len(),
                i <= n,
                forall|k: int| 0 <= k < i ==> arg@[k] != '\0',
            decreases n - i,
        {
            if arg.as_str().get_char(i) == '\0' {
                return Err(BindError::InteriorNul);
            }
            i = i + 1;
        }
        Ok(HelloBindData { layout, name: Some(arg) })
    }

    /// Init: a fresh scan that has produced nothing yet.
    pub fn init() -> (r: HelloInitData)
        ensures
            !r.done,
    {
        HelloInitData { done: false }
    }

    /// Execute: the first call of a scan emits all its rows; every later
    /// call emits the empty chunk that ends the scan.
    pub fn func(bind: &HelloBindData, init: &mut HelloInitData) -> (r: Chunk)
        requires
            bind.text() is Some,
        ensures
            final(init).done,
            chunk_holds(r, bind.layout(), bind.text()->Some_0, emitted_rows(bind.layout(), old(init).done)),
    {
        let rows: usize = if init.done {
            0
        } else {
            bind.layout.row_count()
        };
        init.done = true;
        let arg: &str = match bind.name() {
            Some(s) => s,
            None => "",
        };
        fill_chunk(bind.layout(), arg, rows)
    }

    /// The positional parameters the function accepts: one text argument.
    pub fn parameters() -> (r: Option<Vec<ColumnType>>)
        ensures
            r matches Some(v) && v@ == seq![ColumnType::Varchar],
    {
        Some(vec![ColumnType::Varchar])
    }

    /// The named parameters the function accepts besides its positional one.
    pub fn named_parameters() -> (r: Option<Vec<(String, ColumnType)>>)
        ensures
            r matches Some(v) && v@.len() == 1 && v@[0].0@ == "title"@ && v@[0].1
                == ColumnType::Varchar,
    {
        Some(vec![(String::from_str("title"), ColumnType::Varchar)])
    }
}

/// Builds the chunk holding the first `rows` rows of a scan.
pub fn fill_chunk(layout: Layout, arg: &str, rows: usize) -> (r: Chunk)
    ensures
        chunk_holds(r, layout, arg@, rows as nat),
{
    let ncols: usize = layout.column_count();
    let mut vectors: Vec<Vec<Value>> = Vec::new();
    let mut j: usize = 0;
    while j < ncols
        invariant
            ncols == schema(layout).len(),
            j <= ncols,
            vectors@.len() == j,
            forall|k: int| 0 <= k < j ==> (#[trigger] vectors@[k])@.len() == rows,
            forall|k: int, i: int|
                0 <= k < j && 0 <= i < rows ==> (#[trigger] vectors@[k]@[i])@ == cell(
                    layout,
                    arg@,
                    i as nat,
                    k as nat,
                ),
        decreases ncols - j,
    {
        let mut column: Vec<Value> = Vec::new();
        let mut i: usize = 0;
        while i < rows
            invariant
                j < ncols == schema(layout).len(),
                i <= rows,
                column@.len() == i,
                forall|k: int| 0 <= k < i ==> (#[trigger] column@[k])@ == cell(
                    layout,
                    arg@,
                    k as nat,
                    j as nat,
                ),
            decreases rows - i,
        {
            column.push(value_at(layout, arg, i, j));
            i = i + 1;
        }
        vectors.push(column);
        j = j + 1;
    }
    Chunk { len: rows, vectors }
}

} // verus!
