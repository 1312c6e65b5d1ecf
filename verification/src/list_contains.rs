//! `list_contains` over byte-string columns: for every row, whether the row's list
//! holds the row's value.
//!
//! When the list side is one constant, non-null list with many elements and the
//! value column is long and holds byte strings, the kernel builds a hash set of
//! the list's non-null elements once and probes it for every row; otherwise it
//! compares row by row. Both paths give the same column.
//!
//! The elements of the list are taken to be values of the value column's type
//! already: they are compared with the values byte for byte, and no conversion of
//! the list's element type to the values' type (which could be refused) is made
//! here.

use vstd::prelude::*;

use crate::byte_set::{byte_set_contents, ByteStringSet};
use crate::dtype::{DType, Nullability};

verus! {

/// Least number of elements in the constant list for which the hash set is built.
pub const HASH_LIST_LENGTH_THRESHOLD: usize = 32;

/// Least number of rows for which the hash set is built.
pub const HASH_VALUES_LENGTH_THRESHOLD: usize = 256;

/// The value of one nullable byte-string cell.
pub open spec fn cell_view(c: Option<Vec<u8>>) -> Option<Seq<u8>> {
    match c {
        Some(b) => Some(b@),
        None => None,
    }
}

/// The values of a sequence of nullable byte-string cells.
pub open spec fn cells_view(cells: Seq<Option<Vec<u8>>>) -> Seq<Option<Seq<u8>>> {
    cells.map_values(|c: Option<Vec<u8>>| cell_view(c))
}

/// The value of one nullable list of nullable byte strings.
pub open spec fn list_view(l: Option<Vec<Option<Vec<u8>>>>) -> Option<Seq<Option<Seq<u8>>>> {
    match l {
        Some(elements) => Some(cells_view(elements@)),
        None => None,
    }
}

/// The column searched for: its logical type and its cells (`None` is null).
pub struct ValuesColumn {
    pub dtype: DType,
    pub cells: Vec<Option<Vec<u8>>>,
}

impl View for ValuesColumn {
    type V = Seq<Option<Seq<u8>>>;

    open spec fn view(&self) -> Seq<Option<Seq<u8>>> {
        cells_view(self.cells@)
    }
}

impl ValuesColumn {
    /// A column typed non-nullable holds no null.
    pub open spec fn wf(&self) -> bool {
        self.dtype.nullability == Nullability::NonNullable ==> forall|i: int|
            0 <= i < self.cells@.len() ==> #[trigger] self.cells@[i] is Some
    }
}

/// The list column searched in.
pub enum ListColumn {
    /// The same list on every row (`None`: a null list).
    Constant { nullability: Nullability, list: Option<Vec<Option<Vec<u8>>>> },
    /// One list per row (`None`: a null list).
    Rows { nullability: Nullability, lists: Vec<Option<Vec<Option<Vec<u8>>>>> },
}

impl ListColumn {
    /// The list on row `i`.
    pub open spec fn list_at(self, i: int) -> Option<Seq<Option<Seq<u8>>>> {
        match self {
            ListColumn::Constant { list, .. } => list_view(list),
            ListColumn::Rows { lists, .. } => list_view(lists@[i]),
        }
    }

    /// Whether the list column has `n` rows (a constant list has any number).
    pub open spec fn fits_rows(self, n: nat) -> bool {
        match self {
            ListColumn::Constant { .. } => true,
            ListColumn::Rows { lists, .. } => lists@.len() == n,
        }
    }

    /// A list column typed non-nullable holds no null list.
    pub open spec fn wf(self) -> bool {
        self.spec_nullability() == Nullability::NonNullable ==> match self {
            ListColumn::Constant { list, .. } => list is Some,
            ListColumn::Rows { lists, .. } => forall|i: int| 0 <= i < lists@.len() ==> #[trigger] lists@[i] is Some,
        }
    }

    pub open spec fn spec_nullability(self) -> Nullability {
        match self {
            ListColumn::Constant { nullability, .. } => nullability,
            ListColumn::Rows { nullability, .. } => nullability,
        }
    }

    /// The nullability of the list column.
    pub fn nullability(&self) -> (r: Nullability)
        ensures
            r == self.spec_nullability(),
    {
        match self {
            ListColumn::Constant { nullability, .. } => *nullability,
            ListColumn::Rows { nullability, .. } => *nullability,
        }
    }
}

/// A boolean column: its nullability and its cells (`None` is null).
pub struct BoolColumn {
    pub nullability: Nullability,
    pub cells: Vec<Option<bool>>,
}

impl BoolColumn {
    /// A column typed non-nullable holds no null.
    pub open spec fn wf(&self) -> bool {
        self.nullability == Nullability::NonNullable ==> forall|i: int|
            0 <= i < self.cells@.len() ==> #[trigger] self.cells@[i] is Some
    }
}

/// Why `list_contains` refused its arguments.
#[derive(Clone, Copy, Debug, PartialEq, Eq, Structural)]
pub enum ListContainsError {
    /// The list column and the value column have different numbers of rows.
    LengthMismatch,
}

/// One row of `list_contains`: null when the list is null; otherwise true exactly
/// when the value is not null and the list holds it.
pub open spec fn row_contains(list: Option<Seq<Option<Seq<u8>>>>, value: Option<Seq<u8>>) -> Option<bool> {
    match list {
        None => None,
        Some(elements) => match value {
            None => Some(false),
            Some(v) => Some(elements.contains(Some(v))),
        },
    }
}

/// The whole column that `list_contains` gives.
pub open spec fn list_contains_spec(list: ListColumn, values: Seq<Option<Seq<u8>>>) -> Seq<Option<bool>> {
    Seq::new(values.len(), |i: int| row_contains(list.list_at(i), values[i]))
}

/// The non-null elements of a list, as a set.
pub open spec fn present_elements(elements: Seq<Option<Seq<u8>>>) -> Set<Seq<u8>> {
    Set::new(|v: Seq<u8>| elements.contains(Some(v)))
}

/// A probe of the set of elements: a null value is never found.
pub open spec fn hash_probe(set: Set<Seq<u8>>, value: Option<Seq<u8>>) -> bool {
    match value {
        Some(v) => set.contains(v),
        None => false,
    }
}

/// When the hash-set path is taken.
pub open spec fn spec_uses_hash_path(list: ListColumn, values: ValuesColumn) -> bool {
    &&& list matches ListColumn::Constant { list: Some(elements), .. }
    &&& elements@.len() >= HASH_LIST_LENGTH_THRESHOLD
    &&& values.cells@.len() >= HASH_VALUES_LENGTH_THRESHOLD
    &&& values.dtype.spec_is_byte_string()
}

/// Probing the set of a list's non-null elements answers a row exactly as searching
/// the list does, for every list and every value.
pub proof fn lemma_hash_probe_matches_row(elements: Seq<Option<Seq<u8>>>, value: Option<Seq<u8>>)
    ensures
        Some(hash_probe(present_elements(elements), value)) == row_contains(Some(elements), value),
{
}

/// `v` equals the byte string of some non-null element of `elements`.
proof fn lemma_contains_iff_some_element(elements: Seq<Option<Vec<u8>>>, v: Seq<u8>)
    ensures
        cells_view(elements).contains(Some(v)) <==> exists|j: int|
            0 <= j < elements.len() && (#[trigger] elements[j] matches Some(e) && e@ == v),
{
    let ev = cells_view(elements);
    if ev.contains(Some(v)) {
        let j = choose|j: int| 0 <= j < ev.len() && ev[j] == Some(v);
        assert(elements[j] matches Some(e) && e@ == v);
    }
    if exists|j: int| 0 <= j < elements.len() && (#[trigger] elements[j] matches Some(e) && e@ == v) {
        let j = choose|j: int| 0 <= j < elements.len() && (#[trigger] elements[j] matches Some(e) && e@ == v);
        assert(ev[j] == Some(v));
    }
}

/// Every row of `list_contains`, stated over the columns' own cells: the result has
/// one row per value; row `i` is null exactly when row `i`'s list is null (the list
/// column's declared nullability plays no part); otherwise it is true exactly when
/// the value of row `i` is not null (an empty byte string is a value like any other)
/// and equals some non-null element of row `i`'s list, at any position.
pub proof fn lemma_list_contains_rows(list: ListColumn, values: ValuesColumn, i: int)
    requires
        0 <= i < values.cells@.len(),
        list.fits_rows(values.cells@.len()),
    ensures
        list_contains_spec(list, values@).len() == values.cells@.len(),
        (list matches ListColumn::Constant { list: None, .. }) ==> list_contains_spec(list, values@)[i] is None,
        (list matches ListColumn::Rows { lists, .. } && lists@[i] is None) ==> list_contains_spec(list, values@)[i] is None,
        list matches ListColumn::Constant { list: Some(es), .. } ==> list_contains_spec(list, values@)[i] == Some(
            values.cells@[i] matches Some(v) && exists|j: int|
                0 <= j < es@.len() && (#[trigger] es@[j] matches Some(e) && e@ == v@),
        ),
        list matches ListColumn::Rows { lists, .. } ==> (lists@[i] matches Some(es) ==> list_contains_spec(list, values@)[i] == Some(
            values.cells@[i] matches Some(v) && exists|j: int|
                0 <= j < es@.len() && (#[trigger] es@[j] matches Some(e) && e@ == v@),
        )),
{
    match values.cells@[i] {
        Some(v) => {
            match list {
                ListColumn::Constant { list: Some(es), .. } => {
                    lemma_contains_iff_some_element(es@, v@);
                },
                ListColumn::Rows { lists, .. } => {
                    if let Some(es) = lists@[i] {
                        lemma_contains_iff_some_element(es@, v@);
                    }
                },
                _ => {},
            }
        },
        None => {},
    }
}

/// Probing the set of a list's non-null elements finds a value exactly when the
/// value is not null and equals some non-null element of the list, for every list
/// and every value, the empty byte string included.
pub proof fn lemma_hash_probe_finds_elements(elements: Vec<Option<Vec<u8>>>, value: Option<Vec<u8>>)
    ensures
        hash_probe(present_elements(cells_view(elements@)), cell_view(value)) == (value matches Some(v)
            && exists|j: int| 0 <= j < elements@.len() && (#[trigger] elements@[j] matches Some(e) && e@ == v@)),
{
    if let Some(v) = value {
        lemma_contains_iff_some_element(elements@, v@);
    }
}

/// Whether two byte strings are equal.
pub fn bytes_equal(a: &Vec<u8>, b: &Vec<u8>) -> (r: bool)
    ensures
        r == (a@ == b@),
{
    if a.len() != b.len() {
        return false;
    }
    let n = a.len();
    let mut i: usize = 0;
    while i < n
        invariant
            n == a.len(),
            n == b.len(),
            i <= n,
            forall|j: int| 0 <= j < i ==> a@[j] == b@[j],
        decreases n - i,
    {
        if a[i] != b[i] {
            return false;
        }
        i += 1;
    }
    assert(a@ =~= b@);
    true
}

/// Whether a list holds the non-null byte string `value`, by a scan of the list.
pub fn list_holds(elements: &Vec<Option<Vec<u8>>>, value: &Vec<u8>) -> (r: bool)
    ensures
        r == cells_view(elements@).contains(Some(value@)),
{
    let ghost view = cells_view(elements@);
    let n = elements.len();
    let mut i: usize = 0;
    while i < n
        invariant
            n == elements.len(),
            view == cells_view(elements@),
            i <= n,
            forall|j: int| 0 <= j < i ==> view[j] != Some(value@),
        decreases n - i,
    {
        match &elements[i] {
            Some(e) => {
                if bytes_equal(e, value) {
                    assert(view[i as int] == Some(value@));
                    return true;
                }
            },
            None => {},
        }
        i += 1;
    }
    false
}

/// Builds the set of the non-null elements of a list.
pub(crate) fn build_element_set(elements: &Vec<Option<Vec<u8>>>) -> (s: ByteStringSet)
    ensures
        byte_set_contents(s) == present_elements(cells_view(elements@)),
{
    let ghost full = cells_view(elements@);
    let mut s = ByteStringSet::new();
    let n = elements.len();
    let mut i: usize = 0;
    assert(byte_set_contents(s) =~= present_elements(full.take(0)));
    while i < n
        invariant
            n == elements.len(),
            full == cells_view(elements@),
            i <= n,
            byte_set_contents(s) == present_elements(full.take(i as int)),
        decreases n - i,
    {
        let ghost before = byte_set_contents(s);
        match &elements[i] {
            Some(e) => {
                let copy = e.clone();
                assert(copy@ =~= e@);
                s.insert(copy);
            },
            None => {},
        }
        proof {
            let prefix = full.take(i as int);
            let next = full.take(i + 1);
            assert(next =~= prefix.push(full[i as int]));
            assert forall|v: Seq<u8>|
                #[trigger] present_elements(next).contains(v) == byte_set_contents(s).contains(v) by {
                if next.contains(Some(v)) {
                    let k = choose|k: int| 0 <= k < next.len() && next[k] == Some(v);
                    if k < i {
                        assert(prefix[k] == Some(v));
                    }
                }
                if prefix.contains(Some(v)) {
                    let k = choose|k: int| 0 <= k < prefix.len() && prefix[k] == Some(v);
                    assert(next[k] == Some(v));
                }
                if full[i as int] == Some(v) {
                    assert(next[i as int] == Some(v));
                }
            }
            assert(present_elements(next) =~= byte_set_contents(s));
        }
        i += 1;
    }
    assert(full.take(n as int) =~= full);
    s
}

/// Whether `list_contains` answers with the hash-set path.
pub fn uses_hash_path(list: &ListColumn, values: &ValuesColumn) -> (r: bool)
    ensures
        r == spec_uses_hash_path(*list, *values),
{
    match list {
        ListColumn::Constant { list: Some(elements), .. } => {
            elements.len() >= HASH_LIST_LENGTH_THRESHOLD
                && values.cells.len() >= HASH_VALUES_LENGTH_THRESHOLD
                && values.dtype.is_byte_string()
        },
        _ => false,
    }
}

/// The hash-set path: builds the set of the list's non-null elements once, then
/// probes it with every row's value; every cell of the result is valid.
pub fn contains_by_hash(elements: &Vec<Option<Vec<u8>>>, values: &ValuesColumn, nullability: Nullability) -> (out: BoolColumn)
    ensures
        out.nullability == nullability,
        out.cells@ == Seq::new(
            values.view().len(),
            |i: int| Some(hash_probe(present_elements(cells_view(elements@)), values.view()[i])),
        ),
{
    let set = build_element_set(elements);
    let ghost probe_set = present_elements(cells_view(elements@));
    let n = values.cells.len();
    let mut cells: Vec<Option<bool>> = Vec::new();
    let mut i: usize = 0;
    while i < n
        invariant
            n == values.cells.len(),
            i <= n,
            byte_set_contents(set) == probe_set,
            cells@.len() == i,
            forall|j: int| 0 <= j < i ==> cells@[j] == Some(hash_probe(probe_set, values.view()[j])),
        decreases n - i,
    {
        let hit = match &values.cells[i] {
            Some(v) => set.contains(v),
            None => false,
        };
        cells.push(Some(hit));
        i += 1;
    }
    let out = BoolColumn { nullability, cells };
    assert(out.cells@ =~= Seq::new(values.view().len(), |i: int| Some(hash_probe(probe_set, values.view()[i]))));
    out
}

/// One row of the row-by-row path.
fn row_answer(list: &Option<Vec<Option<Vec<u8>>>>, value: &Option<Vec<u8>>) -> (r: Option<bool>)
    ensures
        r == row_contains(list_view(*list), cell_view(*value)),
{
    match list {
        None => None,
        Some(elements) => match value {
            None => Some(false),
            Some(v) => Some(list_holds(elements, v)),
        },
    }
}

/// The row-by-row path: searches each row's list for the row's value.
pub fn contains_by_rows(list: &ListColumn, values: &ValuesColumn) -> (r: Result<BoolColumn, ListContainsError>)
    ensures
        match r {
            Ok(out) => {
                &&& list.fits_rows(values.cells@.len())
                &&& out.cells@ == list_contains_spec(*list, values.view())
                &&& out.nullability == list.spec_nullability().spec_union(values.dtype.nullability)
                &&& (list.wf() && values.wf() ==> out.wf())
            },
            Err(e) => !list.fits_rows(values.cells@.len()) && e == ListContainsError::LengthMismatch,
        },
{
    let n = values.cells.len();
    if let ListColumn::Rows { lists, .. } = list {
        if lists.len() != n {
            return Err(ListContainsError::LengthMismatch);
        }
    }
    let nullability = list.nullability().union(values.dtype.nullability);
    let mut cells: Vec<Option<bool>> = Vec::new();
    let mut i: usize = 0;
    while i < n
        invariant
            n == values.cells.len(),
            list.fits_rows(n as nat),
            i <= n,
            cells@.len() == i,
            forall|j: int| 0 <= j < i ==> cells@[j] == row_contains(list.list_at(j), values.view()[j]),
        decreases n - i,
    {
        let answer = match list {
            ListColumn::Constant { list: l, .. } => row_answer(l, &values.cells[i]),
            ListColumn::Rows { lists, .. } => row_answer(&lists[i], &values.cells[i]),
        };
        cells.push(answer);
        i += 1;
    }
    let out = BoolColumn { nullability, cells };
    assert(out.cells@ =~= list_contains_spec(*list, values.view()));
    Ok(out)
}

/// For every row, whether the row's list holds the row's value (see
/// `list_contains_spec`). A constant, non-null list of at least
/// `HASH_LIST_LENGTH_THRESHOLD` elements searched by at least
/// `HASH_VALUES_LENGTH_THRESHOLD` byte-string values is answered through a hash
/// set of its non-null elements; every other input row by row. Fails only when a
/// per-row list column does not have as many rows as the value column.
pub fn list_contains(list: &ListColumn, values: &ValuesColumn) -> (r: Result<BoolColumn, ListContainsError>)
    ensures
        match r {
            Ok(out) => {
                &&& list.fits_rows(values.cells@.len())
                &&& out.cells@ == list_contains_spec(*list, values.view())
                &&& out.nullability == list.spec_nullability().spec_union(values.dtype.nullability)
                &&& (list.wf() && values.wf() ==> out.wf())
            },
            Err(e) => !list.fits_rows(values.cells@.len()) && e == ListContainsError::LengthMismatch,
        },
{
    if uses_hash_path(list, values) {
        if let ListColumn::Constant { list: Some(elements), .. } = list {
            let nullability = list.nullability().union(values.dtype.nullability);
            let out = contains_by_hash(elements, values, nullability);
            proof {
                let ev = cells_view(elements@);
                assert forall|i: int| 0 <= i < values.view().len() implies
                    #[trigger] out.cells@[i] == list_contains_spec(*list, values.view())[i] by {
                    lemma_hash_probe_matches_row(ev, values.view()[i]);
                }
                assert(out.cells@ =~= list_contains_spec(*list, values.view()));
            }
            return Ok(out);
        }
    }
    contains_by_rows(list, values)
}

} // verus!
