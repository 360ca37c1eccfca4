//! Reading the goal map: from the text of the service's answer to a table
//! of labels, and from the labels to a grid of objects.
//!
//! The shape is checked strictly. The document must be an object whose
//! `goal` member is an array of arrays of strings, all rows of one length;
//! anything else is no goal map.

use crate::client::MegaverseApiClient;
use crate::error::ApiError;
use crate::json::{contents_of, json_contents, json_parsed, member, parse_document, Json};
use crate::object_type::{cell_of_label, ObjectType};
use vstd::prelude::*;

verus! {

/// The characters of each string of a row.
pub open spec fn row_texts(row: Seq<String>) -> Seq<Seq<char>> {
    Seq::new(row.len(), |j: int| row[j]@)
}

/// A table of strings as a table of character sequences.
pub open spec fn table_texts(rows: Seq<Vec<String>>) -> Seq<Seq<Seq<char>>> {
    Seq::new(rows.len(), |i: int| row_texts(rows[i]@))
}

/// A grid held in vectors as a sequence of rows.
pub open spec fn grid_cells(rows: Seq<Vec<ObjectType>>) -> Seq<Seq<ObjectType>> {
    Seq::new(rows.len(), |i: int| rows[i]@)
}

/// The labels of one row of a goal document: some row only where the value
/// is an array and each of its elements a string.
pub open spec fn row_labels(row: Json) -> Option<Seq<Seq<char>>> {
    match row {
        Json::Array(cells) => if forall|j: int| 0 <= j < cells.len() ==> #[trigger] cells[j] is Text {
            Some(Seq::new(cells.len(), |j: int| cells[j]->Text_0))
        } else {
            None
        },
        _ => None,
    }
}

/// The labels of a goal document: some table only where the document is an
/// object with a member `goal` that is an array of rows of labels.
pub open spec fn goal_labels(document: Json) -> Option<Seq<Seq<Seq<char>>>> {
    match document {
        Json::Object(members) => if members.contains_key("goal"@) {
            match members["goal"@] {
                Json::Array(rows) => if forall|i: int|
                    0 <= i < rows.len() ==> row_labels(#[trigger] rows[i]) is Some {
                    Some(Seq::new(rows.len(), |i: int| row_labels(rows[i]).unwrap()))
                } else {
                    None
                },
                _ => None,
            }
        } else {
            None
        },
        _ => None,
    }
}

/// All rows have the length of the first.
pub open spec fn rectangular<T>(rows: Seq<Seq<T>>) -> bool {
    forall|i: int| 0 <= i < rows.len() ==> (#[trigger] rows[i]).len() == rows[0].len()
}

/// Every row and every column has a number that a position can hold.
pub open spec fn addressable<T>(rows: Seq<Seq<T>>) -> bool {
    &&& rows.len() <= u32::MAX
    &&& forall|i: int| 0 <= i < rows.len() ==> (#[trigger] rows[i]).len() <= u32::MAX
}

/// The objects that a table of labels stands for, cell by cell.
pub open spec fn cells_of_labels(labels: Seq<Seq<Seq<char>>>) -> Seq<Seq<ObjectType>> {
    Seq::new(
        labels.len(),
        |i: int| Seq::new(labels[i].len(), |j: int| cell_of_label(labels[i][j])),
    )
}

/// The grid that a table of labels stands for: the objects of its cells,
/// where the table is rectangular and addressable.
pub open spec fn grid_of_labels(labels: Seq<Seq<Seq<char>>>) -> Result<
    Seq<Seq<ObjectType>>,
    ApiError,
> {
    if rectangular(labels) && addressable(labels) {
        Ok(cells_of_labels(labels))
    } else {
        Err(ApiError::GoalUnavailable)
    }
}

/// The grid that the text of an answer holds.
pub open spec fn grid_of_body(body: Seq<char>) -> Result<Seq<Seq<ObjectType>>, ApiError> {
    match json_parsed(body) {
        Some(document) => match goal_labels(document) {
            Some(labels) => grid_of_labels(labels),
            None => Err(ApiError::GoalUnavailable),
        },
        None => Err(ApiError::GoalUnavailable),
    }
}

/// Whether a result that was computed is the one that was asked for.
pub open spec fn grid_matches(
    found: Result<Vec<Vec<ObjectType>>, ApiError>,
    wanted: Result<Seq<Seq<ObjectType>>, ApiError>,
) -> bool {
    match found {
        Ok(grid) => wanted == Ok::<Seq<Seq<ObjectType>>, ApiError>(grid_cells(grid@)),
        Err(error) => wanted == Err::<Seq<Seq<ObjectType>>, ApiError>(error),
    }
}

/// Reads the labels of one row of a goal document.
fn read_row(row: &serde_json::Value) -> (r: Option<Vec<String>>)
    ensures
        match r {
            Some(labels) => row_labels(json_contents(*row)) == Some(row_texts(labels@)),
            None => row_labels(json_contents(*row)) is None,
        },
{
    match row.as_array() {
        None => None,
        Some(cells) => {
            let ghost texts = contents_of(cells@);
            let mut labels: Vec<String> = Vec::new();
            let mut j: usize = 0;
            while j < cells.len()
                invariant
                    j <= cells.len(),
                    texts == contents_of(cells@),
                    json_contents(*row) == Json::Array(texts),
                    labels.len() == j,
                    forall|k: int| 0 <= k < j ==> #[trigger] texts[k] == Json::Text(labels@[k]@),
                decreases cells.len() - j,
            {
                assert(texts[j as int] == json_contents(cells@[j as int]));
                match cells[j].as_str() {
                    None => {
                        return None;
                    },
                    Some(text) => {
                        labels.push(text.to_owned());
                    },
                }
                j += 1;
            }
            assert(row_labels(json_contents(*row)).unwrap() =~= row_texts(labels@));
            Some(labels)
        },
    }
}

/// Reads the table of labels out of a goal document.
fn read_goal(document: &serde_json::Value) -> (r: Option<Vec<Vec<String>>>)
    ensures
        match r {
            Some(labels) => goal_labels(json_contents(*document)) == Some(table_texts(labels@)),
            None => goal_labels(json_contents(*document)) is None,
        },
{
    let goal = match member(document, "goal") {
        None => {
            return None;
        },
        Some(goal) => goal,
    };
    let rows = match goal.as_array() {
        None => {
            return None;
        },
        Some(rows) => rows,
    };
    let ghost lines = contents_of(rows@);
    let mut labels: Vec<Vec<String>> = Vec::new();
    let mut i: usize = 0;
    while i < rows.len()
        invariant
            i <= rows.len(),
            lines == contents_of(rows@),
            json_contents(*document) matches Json::Object(members) && members.contains_key("goal"@)
                && members["goal"@] == Json::Array(lines),
            labels.len() == i,
            forall|k: int|
                0 <= k < i ==> row_labels(#[trigger] lines[k]) == Some(row_texts(labels@[k]@)),
        decreases rows.len() - i,
    {
        assert(lines[i as int] == json_contents(rows@[i as int]));
        match read_row(&rows[i]) {
            None => {
                return None;
            },
            Some(row) => {
                labels.push(row);
            },
        }
        i += 1;
    }
    assert(goal_labels(json_contents(*document)).unwrap() =~= table_texts(labels@));
    Some(labels)
}

/// Turns a table of labels into a grid. The table must be rectangular, and
/// no larger than positions can address; each label is read as
/// [`MegaverseApiClient::parse_cell`] reads it.
pub fn grid_from_labels(labels: &Vec<Vec<String>>) -> (r: Result<Vec<Vec<ObjectType>>, ApiError>)
    ensures
        grid_matches(r, grid_of_labels(table_texts(labels@))),
{
    let ghost table = table_texts(labels@);
    if labels.len() > u32::MAX as usize {
        return Err(ApiError::GoalUnavailable);
    }
    let mut grid: Vec<Vec<ObjectType>> = Vec::new();
    let mut i: usize = 0;
    while i < labels.len()
        invariant
            i <= labels.len(),
            labels.len() <= u32::MAX,
            table == table_texts(labels@),
            grid.len() == i,
            forall|k: int|
                0 <= k < i ==> (#[trigger] table[k]).len() == table[0].len() && table[k].len()
                    <= u32::MAX,
            forall|k: int| 0 <= k < i ==> (#[trigger] grid@[k])@ == cells_of_labels(table)[k],
        decreases labels.len() - i,
    {
        let row = &labels[i];
        assert(table[i as int].len() == row.len());
        assert(table[0].len() == labels[0].len());
        if row.len() != labels[0].len() || row.len() > u32::MAX as usize {
            return Err(ApiError::GoalUnavailable);
        }
        let mut cells: Vec<ObjectType> = Vec::new();
        let mut j: usize = 0;
        while j < row.len()
            invariant
                j <= row.len(),
                i < labels.len(),
                row == labels[i as int],
                table == table_texts(labels@),
                cells.len() == j,
                forall|k: int| 0 <= k < j ==> cells@[k] == cell_of_label(table[i as int][k]),
            decreases row.len() - j,
        {
            let object = MegaverseApiClient::parse_cell(row[j].as_str());
            cells.push(object);
            j += 1;
        }
        assert(cells@ =~= cells_of_labels(table)[i as int]);
        grid.push(cells);
        i += 1;
    }
    assert(grid_cells(grid@) =~= cells_of_labels(table));
    Ok(grid)
}

/// Reads the grid out of the text of an answer.
pub fn parse_goal(body: &str) -> (r: Result<Vec<Vec<ObjectType>>, ApiError>)
    ensures
        grid_matches(r, grid_of_body(body@)),
{
    match parse_document(body) {
        Err(_) => Err(ApiError::GoalUnavailable),
        Ok(document) => match read_goal(&document) {
            None => Err(ApiError::GoalUnavailable),
            Some(labels) => grid_from_labels(&labels),
        },
    }
}

/// Every grid that a table of labels stands for is rectangular, and its
/// rows and columns can be numbered by positions.
pub proof fn lemma_grid_of_labels_is_rectangular(labels: Seq<Seq<Seq<char>>>)
    ensures
        grid_of_labels(labels) matches Ok(grid) ==> rectangular(grid) && addressable(grid),
        grid_of_labels(labels) matches Err(error) ==> error == ApiError::GoalUnavailable,
{
    if let Ok(grid) = grid_of_labels(labels) {
        assert forall|i: int| 0 <= i < grid.len() implies (#[trigger] grid[i]).len()
            == grid[0].len() && grid[i].len() <= u32::MAX by {
            assert(labels[i].len() == labels[0].len());
        }
    }
}

/// A document holds a goal map only if it is an object with a member
/// `goal`: without that member there are no labels, whatever else the
/// document holds.
pub proof fn lemma_goal_needs_member(document: Json)
    requires
        !(document matches Json::Object(members) && members.contains_key("goal"@)),
    ensures
        goal_labels(document) is None,
{
}

/// A goal document has labels exactly when its member `goal` is an array
/// whose elements are arrays of strings.
pub proof fn lemma_goal_labels_shape(document: Json)
    ensures
        goal_labels(document) is Some <==> {
            &&& document matches Json::Object(members)
            &&& members.contains_key("goal"@)
            &&& members["goal"@] matches Json::Array(rows)
            &&& forall|i: int|
                0 <= i < rows.len() ==> {
                    &&& #[trigger] rows[i] matches Json::Array(cells)
                    &&& forall|j: int| 0 <= j < cells.len() ==> #[trigger] cells[j] is Text
                }
        },
{
    if let Json::Object(members) = document {
        if members.contains_key("goal"@) {
            if let Json::Array(rows) = members["goal"@] {
                if goal_labels(document) is Some {
                    assert forall|i: int| 0 <= i < rows.len() implies {
                        &&& #[trigger] rows[i] matches Json::Array(cells)
                        &&& forall|j: int| 0 <= j < cells.len() ==> #[trigger] cells[j] is Text
                    } by {
                        assert(row_labels(rows[i]) is Some);
                    }
                } else {
                    let i = choose|i: int| 0 <= i < rows.len() && !(row_labels(#[trigger] rows[i]) is Some);
                    assert(row_labels(rows[i]) is None);
                }
            }
        }
    }
}

} // verus!
