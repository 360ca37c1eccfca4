//! Which calls a run makes, and in what order: one call to place each
//! object of a goal grid, or one call per position to clear a grid.

use crate::object_type::{creatable, deletable, ObjectType};
use vstd::prelude::*;

verus! {

/// What a call does to a position.
#[derive(Debug, Clone, Copy, PartialEq, Eq, Structural)]
pub enum Verb {
    Create,
    Delete,
}

/// One operation on one position of the remote grid.
#[derive(Debug, Clone, Copy, PartialEq, Eq, Structural)]
pub struct Call {
    pub verb: Verb,
    pub row: u32,
    pub column: u32,
    pub object: ObjectType,
}

/// A call is valid when its object can be used for its verb.
pub open spec fn valid_call(call: Call) -> bool {
    match call.verb {
        Verb::Create => creatable(call.object),
        Verb::Delete => deletable(call.object),
    }
}

/// The calls that place the objects of the first `upto` cells of a row, in
/// the order of the columns.
pub open spec fn row_calls(cells: Seq<ObjectType>, row: nat, upto: nat) -> Seq<Call>
    decreases upto,
{
    if upto == 0 {
        Seq::empty()
    } else {
        let before = row_calls(cells, row, (upto - 1) as nat);
        let object = cells[upto - 1];
        if creatable(object) {
            before.push(
                Call { verb: Verb::Create, row: row as u32, column: (upto - 1) as u32, object },
            )
        } else {
            before
        }
    }
}

/// The calls that place the objects of the first `upto` rows of a grid, row
/// after row.
pub open spec fn grid_calls(grid: Seq<Seq<ObjectType>>, upto: nat) -> Seq<Call>
    decreases upto,
{
    if upto == 0 {
        Seq::empty()
    } else {
        grid_calls(grid, (upto - 1) as nat) + row_calls(
            grid[upto - 1],
            (upto - 1) as nat,
            grid[upto - 1].len(),
        )
    }
}

/// The calls that bring an empty remote grid to a goal: one for each cell
/// whose object can be placed, in row-major order.
pub open spec fn create_calls(grid: Seq<Seq<ObjectType>>) -> Seq<Call> {
    grid_calls(grid, grid.len())
}

/// The calls that clear a grid of the given size of polyanets: one removal
/// for each position, in row-major order.
pub open spec fn reset_calls(rows: u32, columns: u32) -> Seq<Call> {
    Seq::new(
        (rows * columns) as nat,
        |k: int|
            Call {
                verb: Verb::Delete,
                row: (k / columns as int) as u32,
                column: (k % columns as int) as u32,
                object: ObjectType::Polyanet,
            },
    )
}

/// Whether the first position comes before the second in row-major order.
pub open spec fn position_before(first: Call, second: Call) -> bool {
    first.row < second.row || (first.row == second.row && first.column < second.column)
}

/// A grid whose rows and columns can be numbered by positions.
pub open spec fn grid_fits(grid: Seq<Seq<ObjectType>>) -> bool {
    &&& grid.len() <= u32::MAX
    &&& forall|i: int| 0 <= i < grid.len() ==> (#[trigger] grid[i]).len() <= u32::MAX
}

/// Lists the calls that place the objects of a goal grid.
pub fn plan_create(grid: &Vec<Vec<ObjectType>>) -> (calls: Vec<Call>)
    requires
        grid_fits(crate::goal::grid_cells(grid@)),
    ensures
        calls@ == create_calls(crate::goal::grid_cells(grid@)),
{
    let ghost cells = crate::goal::grid_cells(grid@);
    let mut calls: Vec<Call> = Vec::new();
    let mut i: usize = 0;
    while i < grid.len()
        invariant
            i <= grid.len(),
            cells == crate::goal::grid_cells(grid@),
            grid_fits(cells),
            calls@ == grid_calls(cells, i as nat),
        decreases grid.len() - i,
    {
        let row = &grid[i];
        let ghost before = calls@;
        assert(cells[i as int] == row@);
        let mut j: usize = 0;
        while j < row.len()
            invariant
                j <= row.len(),
                i < grid.len(),
                i <= u32::MAX,
                row.len() <= u32::MAX,
                calls@ == before + row_calls(row@, i as nat, j as nat),
            decreases row.len() - j,
        {
            let object = row[j];
            if object.is_creatable() {
                calls.push(Call { verb: Verb::Create, row: i as u32, column: j as u32, object });
            }
            j += 1;
            assert(calls@ =~= before + row_calls(row@, i as nat, j as nat));
        }
        i += 1;
    }
    calls
}

/// Lists the calls that clear a grid of the given size.
pub fn plan_reset(rows: u32, columns: u32) -> (calls: Vec<Call>)
    ensures
        calls@ == reset_calls(rows, columns),
{
    let mut calls: Vec<Call> = Vec::new();
    let mut row: u32 = 0;
    while row < rows
        invariant
            row <= rows,
            calls@.len() == row * columns,
            forall|k: int| 0 <= k < calls@.len() ==> calls@[k] == reset_calls(rows, columns)[k],
        decreases rows - row,
    {
        let mut column: u32 = 0;
        while column < columns
            invariant
                row < rows,
                column <= columns,
                calls@.len() == row * columns + column,
                forall|k: int|
                    0 <= k < calls@.len() ==> calls@[k] == reset_calls(rows, columns)[k],
            decreases columns - column,
        {
            proof {
                lemma_position_of_index(row as int, column as int, columns as int);
                lemma_index_in_bounds(row as int, column as int, rows as int, columns as int);
            }
            calls.push(Call { verb: Verb::Delete, row, column, object: ObjectType::Polyanet });
            column += 1;
        }
        assert((row + 1) * columns == row * columns + columns) by (nonlinear_arith);
        row += 1;
    }
    assert(calls@ =~= reset_calls(rows, columns));
    calls
}

/// In a grid of `columns` columns the cell at `(row, column)` is the cell
/// number `row * columns + column`, and the number gives the position back.
pub proof fn lemma_position_of_index(row: int, column: int, columns: int)
    requires
        0 <= row,
        0 <= column < columns,
    ensures
        (row * columns + column) / columns == row,
        (row * columns + column) % columns == column,
{
    vstd::arithmetic::div_mod::lemma_fundamental_div_mod_converse(
        row * columns + column,
        columns,
        row,
        column,
    );
}

/// The number of a cell of a grid is smaller than the number of cells.
pub proof fn lemma_index_in_bounds(row: int, column: int, rows: int, columns: int)
    requires
        0 <= row < rows,
        0 <= column < columns,
    ensures
        0 <= row * columns + column < rows * columns,
{
    assert(row * columns + column < rows * columns) by (nonlinear_arith)
        requires
            0 <= row < rows,
            0 <= column < columns,
    ;
    assert(0 <= row * columns) by (nonlinear_arith)
        requires
            0 <= row,
            0 <= columns,
    ;
}

/// Whether a list of calls holds one for the given position.
pub open spec fn has_call_at(calls: Seq<Call>, row: int, column: int) -> bool {
    exists|k: int|
        0 <= k < calls.len() && (#[trigger] calls[k]).row == row && calls[k].column == column
}

/// What the calls of a row are: each places the object of a cell of the
/// row that can be placed, each such cell has its call, and the calls come
/// in the order of the columns.
proof fn lemma_row_calls(cells: Seq<ObjectType>, row: nat, upto: nat)
    requires
        upto <= cells.len() <= u32::MAX,
        row <= u32::MAX,
    ensures
        forall|k: int|
            0 <= k < row_calls(cells, row, upto).len() ==> {
                let call = #[trigger] row_calls(cells, row, upto)[k];
                &&& call.verb == Verb::Create
                &&& call.row == row
                &&& call.column < upto
                &&& call.object == cells[call.column as int]
                &&& creatable(call.object)
            },
        forall|first: int, second: int|
            0 <= first < second < row_calls(cells, row, upto).len() ==> (
            #[trigger] row_calls(cells, row, upto)[first]).column < (#[trigger] row_calls(
                cells,
                row,
                upto,
            )[second]).column,
        forall|j: int|
            0 <= j < upto && creatable(#[trigger] cells[j]) ==> has_call_at(
                row_calls(cells, row, upto),
                row as int,
                j,
            ),
    decreases upto,
{
    if upto > 0 {
        let before = row_calls(cells, row, (upto - 1) as nat);
        let calls = row_calls(cells, row, upto);
        lemma_row_calls(cells, row, (upto - 1) as nat);
        assert forall|j: int| 0 <= j < upto && creatable(#[trigger] cells[j]) implies has_call_at(
            calls,
            row as int,
            j,
        ) by {
            if j < upto - 1 {
                assert(has_call_at(before, row as int, j));
                let k = choose|k: int|
                    0 <= k < before.len() && (#[trigger] before[k]).row == row && before[k].column
                        == j;
                assert(calls[k] == before[k]);
            } else {
                assert(calls[calls.len() - 1].column == j);
            }
        }
    }
}

/// What the calls of a grid are: each places the object of a cell that can
/// be placed, at the position of that cell; each such cell has its call;
/// and the calls come in row-major order.
proof fn lemma_grid_calls(grid: Seq<Seq<ObjectType>>, upto: nat)
    requires
        upto <= grid.len(),
        grid_fits(grid),
    ensures
        forall|k: int|
            0 <= k < grid_calls(grid, upto).len() ==> {
                let call = #[trigger] grid_calls(grid, upto)[k];
                &&& call.verb == Verb::Create
                &&& call.row < upto
                &&& call.column < grid[call.row as int].len()
                &&& call.object == grid[call.row as int][call.column as int]
                &&& creatable(call.object)
            },
        forall|first: int, second: int|
            0 <= first < second < grid_calls(grid, upto).len() ==> position_before(
                #[trigger] grid_calls(grid, upto)[first],
                #[trigger] grid_calls(grid, upto)[second],
            ),
        forall|i: int, j: int|
            0 <= i < upto && 0 <= j < grid[i].len() && creatable(#[trigger] grid[i][j])
                ==> has_call_at(grid_calls(grid, upto), i, j),
    decreases upto,
{
    if upto > 0 {
        let last = (upto - 1) as nat;
        let before = grid_calls(grid, last);
        let added = row_calls(grid[last as int], last, grid[last as int].len());
        let calls = grid_calls(grid, upto);
        lemma_grid_calls(grid, last);
        lemma_row_calls(grid[last as int], last, grid[last as int].len());
        assert(calls == before + added);
        assert forall|k: int| 0 <= k < calls.len() implies {
            let call = #[trigger] calls[k];
            &&& call.verb == Verb::Create
            &&& call.row < upto
            &&& call.column < grid[call.row as int].len()
            &&& call.object == grid[call.row as int][call.column as int]
            &&& creatable(call.object)
        } by {
            if k < before.len() {
                assert(calls[k] == before[k]);
            } else {
                assert(calls[k] == added[k - before.len()]);
            }
        }
        assert forall|first: int, second: int| 0 <= first < second < calls.len() implies position_before(
            #[trigger] calls[first],
            #[trigger] calls[second],
        ) by {
            if second < before.len() {
                assert(calls[first] == before[first] && calls[second] == before[second]);
            } else if first < before.len() {
                assert(calls[first] == before[first]);
                assert(calls[second] == added[second - before.len()]);
            } else {
                assert(calls[first] == added[first - before.len()]);
                assert(calls[second] == added[second - before.len()]);
            }
        }
        assert forall|i: int, j: int|
            0 <= i < upto && 0 <= j < grid[i].len() && creatable(
                #[trigger] grid[i][j],
            ) implies has_call_at(calls, i, j) by {
            if i < last {
                assert(has_call_at(before, i, j));
                let k = choose|k: int|
                    0 <= k < before.len() && (#[trigger] before[k]).row == i && before[k].column
                        == j;
                assert(calls[k] == before[k]);
            } else {
                assert(has_call_at(added, i, j));
                let k = choose|k: int|
                    0 <= k < added.len() && (#[trigger] added[k]).row == i && added[k].column == j;
                assert(calls[before.len() + k] == added[k]);
            }
        }
    }
}

/// Every call of the plan for a goal grid places the object of one cell of
/// the grid, at the position of that cell, and that object can be placed.
pub proof fn lemma_create_calls_place_goal_objects(grid: Seq<Seq<ObjectType>>, k: int)
    requires
        grid_fits(grid),
        0 <= k < create_calls(grid).len(),
    ensures
        create_calls(grid)[k].verb == Verb::Create,
        valid_call(create_calls(grid)[k]),
        create_calls(grid)[k].row < grid.len(),
        create_calls(grid)[k].column < grid[create_calls(grid)[k].row as int].len(),
        create_calls(grid)[k].object == grid[create_calls(grid)[k].row as int][create_calls(
            grid,
        )[k].column as int],
{
    lemma_grid_calls(grid, grid.len());
}

/// The plan for a goal grid follows the grid in row-major order, so no
/// position occurs twice in it.
pub proof fn lemma_create_calls_row_major(grid: Seq<Seq<ObjectType>>, first: int, second: int)
    requires
        grid_fits(grid),
        0 <= first < second < create_calls(grid).len(),
    ensures
        position_before(create_calls(grid)[first], create_calls(grid)[second]),
{
    lemma_grid_calls(grid, grid.len());
}

/// A goal grid that holds nothing to place asks for no call at all. This is
/// so in particular for a grid of empty space.
pub proof fn lemma_create_calls_of_empty_grid(grid: Seq<Seq<ObjectType>>)
    requires
        grid_fits(grid),
        forall|i: int, j: int|
            0 <= i < grid.len() && 0 <= j < grid[i].len() ==> !creatable(#[trigger] grid[i][j]),
    ensures
        create_calls(grid).len() == 0,
{
    lemma_grid_calls(grid, grid.len());
    if create_calls(grid).len() > 0 {
        let call = create_calls(grid)[0];
        assert(creatable(grid[call.row as int][call.column as int]));
    }
}

/// A cell of the goal grid whose object can be placed has exactly one call
/// in the plan, and that call places the cell's object at the cell's
/// position.
pub proof fn lemma_create_calls_once_per_object(
    grid: Seq<Seq<ObjectType>>,
    row: int,
    column: int,
) -> (k: int)
    requires
        grid_fits(grid),
        0 <= row < grid.len(),
        0 <= column < grid[row].len(),
        creatable(grid[row][column]),
    ensures
        0 <= k < create_calls(grid).len(),
        create_calls(grid)[k] == (Call {
            verb: Verb::Create,
            row: row as u32,
            column: column as u32,
            object: grid[row][column],
        }),
        forall|other: int|
            0 <= other < create_calls(grid).len() && (#[trigger] create_calls(grid)[other]).row
                == row && create_calls(grid)[other].column == column ==> other == k,
{
    let calls = create_calls(grid);
    lemma_grid_calls(grid, grid.len());
    assert(creatable(grid[row][column]));
    assert(has_call_at(calls, row, column));
    let k = choose|k: int|
        0 <= k < calls.len() && (#[trigger] calls[k]).row == row && calls[k].column == column;
    assert forall|other: int|
        0 <= other < calls.len() && (#[trigger] calls[other]).row == row && calls[other].column
            == column implies other == k by {
        if other < k {
            assert(position_before(calls[other], calls[k]));
        } else if k < other {
            assert(position_before(calls[k], calls[other]));
        }
    }
    k
}

/// A cell of the goal grid whose object cannot be placed, empty space among
/// them, has no call in the plan.
pub proof fn lemma_create_calls_skip(grid: Seq<Seq<ObjectType>>, row: int, column: int)
    requires
        grid_fits(grid),
        0 <= row < grid.len(),
        0 <= column < grid[row].len(),
        !creatable(grid[row][column]),
    ensures
        !has_call_at(create_calls(grid), row, column),
{
    lemma_grid_calls(grid, grid.len());
}

/// Clearing a grid takes as many calls as the grid has positions, and each
/// position has exactly one: the removal of a polyanet, at the place that
/// row-major order gives it.
pub proof fn lemma_reset_calls_once_per_position(rows: u32, columns: u32, row: u32, column: u32)
    requires
        row < rows,
        column < columns,
    ensures
        reset_calls(rows, columns).len() == rows * columns,
        0 <= row * columns + column < rows * columns,
        reset_calls(rows, columns)[row * columns + column] == (Call {
            verb: Verb::Delete,
            row,
            column,
            object: ObjectType::Polyanet,
        }),
        forall|other: int|
            0 <= other < rows * columns && (#[trigger] reset_calls(rows, columns)[other]).row
                == row && reset_calls(rows, columns)[other].column == column ==> other == row
                * columns + column,
{
    let calls = reset_calls(rows, columns);
    lemma_index_in_bounds(row as int, column as int, rows as int, columns as int);
    lemma_position_of_index(row as int, column as int, columns as int);
    assert forall|other: int|
        0 <= other < rows * columns && (#[trigger] calls[other]).row == row && calls[other].column
            == column implies other == row * columns + column by {
        lemma_position_in_grid(other, rows as int, columns as int);
        vstd::arithmetic::div_mod::lemma_fundamental_div_mod(other, columns as int);
        assert(columns * (other / columns as int) == (other / columns as int) * columns)
            by (nonlinear_arith);
    }
}

/// Every call of a clearing plan removes a polyanet at a position of the
/// grid.
pub proof fn lemma_reset_calls_stay_in_grid(rows: u32, columns: u32, k: int)
    requires
        0 <= k < reset_calls(rows, columns).len(),
    ensures
        reset_calls(rows, columns)[k].verb == Verb::Delete,
        reset_calls(rows, columns)[k].object == ObjectType::Polyanet,
        valid_call(reset_calls(rows, columns)[k]),
        reset_calls(rows, columns)[k].row < rows,
        reset_calls(rows, columns)[k].column < columns,
{
    lemma_position_in_grid(k, rows as int, columns as int);
}

/// The cell number `k` of a grid lies in row `k / columns` and column
/// `k % columns`, and both are within the grid.
pub proof fn lemma_position_in_grid(k: int, rows: int, columns: int)
    requires
        0 <= k < rows * columns,
        0 <= rows,
        0 <= columns,
    ensures
        0 <= k / columns < rows,
        0 <= k % columns < columns,
{
    assert(columns > 0) by (nonlinear_arith)
        requires
            0 <= k < rows * columns,
            0 <= rows,
            0 <= columns,
    ;
    vstd::arithmetic::div_mod::lemma_fundamental_div_mod(k, columns);
    vstd::arithmetic::div_mod::lemma_mod_bound(k, columns);
    vstd::arithmetic::div_mod::lemma_div_pos_is_pos(k, columns);
    let q = k / columns;
    let r = k % columns;
    assert(q < rows) by (nonlinear_arith)
        requires
            k == columns * q + r,
            0 <= r,
            k < rows * columns,
            columns > 0,
    ;
}

} // verus!
