//! The client of the service: it knows the address of the service and the
//! candidate whose map it works on, builds every request, and reads the
//! goal map out of the service's answer.

use crate::error::ApiError;
use crate::json::{json_quoted, quote};
use crate::goal::{grid_cells, grid_matches, grid_of_body, parse_goal};
use crate::object_type::{
    cell_of_label, color_param, creatable, deletable, direction_param, icon, url_segment, Color,
    Direction, ObjectType,
};
use crate::plan::{
    create_calls, lemma_create_calls_place_goal_objects, lemma_reset_calls_stay_in_grid,
    plan_create, plan_reset, reset_calls, valid_call, Call, Verb,
};
use crate::request::{success_status, Method, Reply, Request, RequestView};
use crate::run::{Phase, Run, RunState};
use crate::text::{decimal, decimal_digits, str_equal};
use vstd::prelude::*;
use vstd::string::*;

verus! {

/// The address under which the service is reached.
pub const API_URL: &'static str = "https://challenge.crossmint.com/api";

/// The address of the goal map of a candidate.
pub open spec fn goal_url(base: Seq<char>, candidate: Seq<char>) -> Seq<char> {
    base + "/map/"@ + candidate + "/goal"@
}

/// The address under which objects of one kind are placed and removed.
pub open spec fn object_url(base: Seq<char>, segment: Seq<char>) -> Seq<char> {
    base + "/"@ + segment
}

/// The member that carries the attribute of an object to place: the colour
/// of a soloon, the direction of a cometh, nothing otherwise.
pub open spec fn attribute_field(object: ObjectType) -> Seq<char> {
    match object {
        ObjectType::Soloon(Some(color)) => ",\"color\":\""@ + color_param(color) + "\""@,
        ObjectType::Cometh(Some(direction)) => ",\"direction\":\""@ + direction_param(direction)
            + "\""@,
        _ => Seq::empty(),
    }
}

/// The body of a request on one position: a JSON object with the row, the
/// column, the identifier of the candidate as a string literal that is
/// already quoted, and the attribute member where there is one.
pub open spec fn body_text(row: u32, column: u32, quoted: Seq<char>, attribute: Seq<char>) -> Seq<
    char,
> {
    "{\"row\":"@ + decimal_digits(row as nat) + ",\"column\":"@ + decimal_digits(column as nat)
        + ",\"sessionId\":"@ + quoted + attribute + "}"@
}

/// The method that a verb is sent with.
pub open spec fn method_of(verb: Verb) -> Method {
    match verb {
        Verb::Create => Method::Post,
        Verb::Delete => Method::Delete,
    }
}

/// The request that carries a call to the service. A call to place sends
/// the attribute of its object; a call to remove sends the position alone.
pub open spec fn request_of(base: Seq<char>, candidate: Seq<char>, call: Call) -> RequestView {
    RequestView {
        method: method_of(call.verb),
        url: object_url(base, url_segment(call.object).unwrap()),
        body: Some(
            body_text(
                call.row,
                call.column,
                json_quoted(candidate),
                match call.verb {
                    Verb::Create => attribute_field(call.object),
                    Verb::Delete => Seq::empty(),
                },
            ),
        ),
    }
}

/// Writes the attribute member of an object to place.
pub fn write_attribute(object: &ObjectType) -> (r: String)
    ensures
        r@ == attribute_field(*object),
{
    match object {
        ObjectType::Soloon(Some(color)) => {
            let mut text = String::from_str(",\"color\":\"");
            text.append(color.param());
            text.append("\"");
            text
        },
        ObjectType::Cometh(Some(direction)) => {
            let mut text = String::from_str(",\"direction\":\"");
            text.append(direction.param());
            text.append("\"");
            text
        },
        _ => String::new(),
    }
}

/// Writes the body of a request on one position. The identifier of the
/// candidate comes quoted, as a JSON string literal.
pub fn write_body(row: u32, column: u32, quoted: &str, attribute: &str) -> (r: String)
    ensures
        r@ == body_text(row, column, quoted@, attribute@),
{
    let mut text = String::from_str("{\"row\":");
    text.append(decimal(row).as_str());
    text.append(",\"column\":");
    text.append(decimal(column).as_str());
    text.append(",\"sessionId\":");
    text.append(quoted);
    text.append(attribute);
    text.append("}");
    text
}

/// The grid that a reply to the request for the goal map holds: that of its
/// body where the service answered with success, none otherwise.
pub open spec fn goal_of_reply(reply: Reply) -> Result<Seq<Seq<ObjectType>>, ApiError> {
    match reply {
        Reply::Status { code, body } => if success_status(code) {
            grid_of_body(body@)
        } else {
            Err(ApiError::GoalUnavailable)
        },
        Reply::Failed { .. } => Err(ApiError::GoalUnavailable),
    }
}

/// One row of a grid as a line of text: the icons of its cells, with one
/// blank between neighbours.
pub open spec fn line_of(cells: Seq<ObjectType>) -> Seq<char>
    decreases cells.len(),
{
    if cells.len() == 0 {
        Seq::empty()
    } else if cells.len() == 1 {
        icon(cells[0])
    } else {
        line_of(cells.drop_last()) + " "@ + icon(cells.last())
    }
}

/// A client for the map of one candidate.
#[derive(Debug)]
pub struct MegaverseApiClient {
    base_url: String,
    candidate_id: String,
}

impl Clone for MegaverseApiClient {
    fn clone(&self) -> (copy: Self)
        ensures
            copy.base() == self.base(),
            copy.candidate() == self.candidate(),
    {
        MegaverseApiClient {
            base_url: self.base_url.clone(),
            candidate_id: self.candidate_id.clone(),
        }
    }
}

impl MegaverseApiClient {
    /// The address of the service, as a sequence of characters.
    pub closed spec fn base(&self) -> Seq<char> {
        self.base_url@
    }

    /// The identifier of the candidate, as a sequence of characters.
    pub closed spec fn candidate(&self) -> Seq<char> {
        self.candidate_id@
    }

    /// A client for the given candidate at the service's usual address.
    pub fn new(candidate_id: &str) -> (client: Self)
        ensures
            client.base() == API_URL@,
            client.candidate() == candidate_id@,
    {
        MegaverseApiClient {
            base_url: String::from_str(API_URL),
            candidate_id: String::from_str(candidate_id),
        }
    }

    /// The request that asks the service for the goal map.
    pub fn goal_request(&self) -> (request: Request)
        ensures
            request@ == (RequestView {
                method: Method::Get,
                url: goal_url(self.base(), self.candidate()),
                body: None,
            }),
    {
        let mut url = self.base_url.clone();
        url.append("/map/");
        url.append(self.candidate_id.as_str());
        url.append("/goal");
        Request { method: Method::Get, url, body: None }
    }

    /// The request that carries a call to the service, or
    /// [`ApiError::UnsupportedKind`] for a call that is not valid.
    pub fn request_for(&self, call: &Call) -> (r: Result<Request, ApiError>)
        ensures
            match r {
                Ok(request) => valid_call(*call) && request@ == request_of(
                    self.base(),
                    self.candidate(),
                    *call,
                ),
                Err(error) => !valid_call(*call) && error == ApiError::UnsupportedKind,
            },
    {
        let segment = match call.object.as_url_segment() {
            Ok(segment) => segment,
            Err(_) => {
                return Err(ApiError::UnsupportedKind);
            },
        };
        let (method, attribute) = match call.verb {
            Verb::Create => {
                if !call.object.is_creatable() {
                    return Err(ApiError::UnsupportedKind);
                }
                (Method::Post, write_attribute(&call.object))
            },
            Verb::Delete => (Method::Delete, String::new()),
        };
        let mut url = self.base_url.clone();
        url.append("/");
        url.append(segment);
        let quoted = quote(self.candidate_id.as_str());
        let body = write_body(call.row, call.column, quoted.as_str(), attribute.as_str());
        Ok(Request { method, url, body: Some(body) })
    }

    /// Reads the goal map out of the reply to [`Self::goal_request`]. The
    /// map is unavailable where the request failed in transit, where the
    /// service answered without success, and where the answer does not hold
    /// a rectangular table of labels under `goal`.
    pub fn fetch_goal_map(&self, reply: &Reply) -> (r: Result<Vec<Vec<ObjectType>>, ApiError>)
        ensures
            grid_matches(r, goal_of_reply(*reply)),
    {
        match reply {
            Reply::Status { code, body } => {
                if 200 <= *code && *code <= 299 {
                    parse_goal(body.as_str())
                } else {
                    Err(ApiError::GoalUnavailable)
                }
            },
            Reply::Failed { .. } => Err(ApiError::GoalUnavailable),
        }
    }

    /// The goal map of a reply as lines of icons, one line for each row.
    pub fn show_goal_map(&self, reply: &Reply) -> (r: Result<Vec<String>, ApiError>)
        ensures
            match r {
                Ok(lines) => {
                    &&& goal_of_reply(*reply) matches Ok(grid)
                    &&& lines@.len() == grid.len()
                    &&& forall|i: int|
                        0 <= i < grid.len() ==> (#[trigger] lines@[i])@ == line_of(grid[i])
                },
                Err(error) => goal_of_reply(*reply) == Err::<Seq<Seq<ObjectType>>, ApiError>(error),
            },
    {
        let grid = match self.fetch_goal_map(reply) {
            Ok(grid) => grid,
            Err(error) => {
                return Err(error);
            },
        };
        let mut lines: Vec<String> = Vec::new();
        let mut i: usize = 0;
        while i < grid.len()
            invariant
                i <= grid.len(),
                lines@.len() == i,
                forall|k: int| 0 <= k < i ==> (#[trigger] lines@[k])@ == line_of(grid@[k]@),
            decreases grid.len() - i,
        {
            let row = &grid[i];
            let mut line = String::new();
            let mut j: usize = 0;
            while j < row.len()
                invariant
                    j <= row.len(),
                    line@ == line_of(row@.take(j as int)),
                decreases row.len() - j,
            {
                proof {
                    let next = row@.take(j + 1);
                    assert(next.drop_last() =~= row@.take(j as int));
                    assert(next.last() == row@[j as int]);
                    if j == 0 {
                        assert(line@ + icon(row@[0]) =~= icon(row@[0]));
                    }
                }
                if j > 0 {
                    line.append(" ");
                }
                line.append(row[j].render());
                j += 1;
            }
            assert(row@.take(row.len() as int) =~= row@);
            lines.push(line);
            i += 1;
        }
        Ok(lines)
    }

    /// Begins to build the map of the goal: reads the goal map out of the
    /// reply and plans one call for each object that can be placed, in
    /// row-major order. Where the goal map is unavailable there is no run,
    /// and so no call.
    pub fn create_map(&self, reply: &Reply) -> (r: Result<Run, ApiError>)
        ensures
            match r {
                Ok(run) => {
                    &&& goal_of_reply(*reply) matches Ok(grid)
                    &&& run@ == (RunState {
                        calls: create_calls(grid),
                        position: 0,
                        phase: Phase::Pending,
                    })
                    &&& run.base() == self.base()
                    &&& run.candidate() == self.candidate()
                },
                Err(error) => goal_of_reply(*reply) == Err::<Seq<Seq<ObjectType>>, ApiError>(error),
            },
    {
        let grid = match self.fetch_goal_map(reply) {
            Ok(grid) => grid,
            Err(error) => {
                return Err(error);
            },
        };
        let calls = plan_create(&grid);
        proof {
            let cells = grid_cells(grid@);
            assert forall|k: int| 0 <= k < calls@.len() implies valid_call(
                #[trigger] calls@[k],
            ) by {
                lemma_create_calls_place_goal_objects(cells, k);
            }
        }
        Ok(Run::assemble(self.clone(), calls))
    }

    /// Begins to clear a grid of the given size: plans the removal of a
    /// polyanet at every position, in row-major order. No goal map is
    /// needed for it.
    pub fn reset_map(&self, rows: u32, columns: u32) -> (run: Run)
        ensures
            run@ == (RunState {
                calls: reset_calls(rows, columns),
                position: 0,
                phase: Phase::Pending,
            }),
            run.base() == self.base(),
            run.candidate() == self.candidate(),
    {
        let calls = plan_reset(rows, columns);
        proof {
            assert forall|k: int| 0 <= k < calls@.len() implies valid_call(
                #[trigger] calls@[k],
            ) by {
                lemma_reset_calls_stay_in_grid(rows, columns, k);
            }
        }
        Run::assemble(self.clone(), calls)
    }

    /// Begins to place one object: a run of the one call, or
    /// [`ApiError::UnsupportedKind`] for empty space and for an object that
    /// lacks its attribute.
    pub fn create_object(&self, row: u32, column: u32, object_type: &ObjectType) -> (r: Result<
        Run,
        ApiError,
    >)
        ensures
            match r {
                Ok(run) => {
                    &&& creatable(*object_type)
                    &&& run@ == (RunState {
                        calls: seq![
                            Call { verb: Verb::Create, row, column, object: *object_type },
                        ],
                        position: 0,
                        phase: Phase::Pending,
                    })
                    &&& run.base() == self.base()
                    &&& run.candidate() == self.candidate()
                },
                Err(error) => !creatable(*object_type) && error == ApiError::UnsupportedKind,
            },
    {
        if !object_type.is_creatable() {
            return Err(ApiError::UnsupportedKind);
        }
        let mut calls: Vec<Call> = Vec::new();
        calls.push(Call { verb: Verb::Create, row, column, object: *object_type });
        assert(calls@ =~= seq![Call { verb: Verb::Create, row, column, object: *object_type }]);
        Ok(Run::assemble(self.clone(), calls))
    }

    /// Begins to remove one object: a run of the one call, or
    /// [`ApiError::UnsupportedKind`] for empty space. The kind and the
    /// position are enough: the attribute of the object is not looked at.
    pub fn delete_object(&self, row: u32, column: u32, object_type: ObjectType) -> (r: Result<
        Run,
        ApiError,
    >)
        ensures
            match r {
                Ok(run) => {
                    &&& deletable(object_type)
                    &&& run@ == (RunState {
                        calls: seq![Call { verb: Verb::Delete, row, column, object: object_type }],
                        position: 0,
                        phase: Phase::Pending,
                    })
                    &&& run.base() == self.base()
                    &&& run.candidate() == self.candidate()
                },
                Err(error) => !deletable(object_type) && error == ApiError::UnsupportedKind,
            },
    {
        if !object_type.is_deletable() {
            return Err(ApiError::UnsupportedKind);
        }
        let mut calls: Vec<Call> = Vec::new();
        calls.push(Call { verb: Verb::Delete, row, column, object: object_type });
        assert(calls@ =~= seq![Call { verb: Verb::Delete, row, column, object: object_type }]);
        Ok(Run::assemble(self.clone(), calls))
    }

    /// Reads one label of a goal map. A label that is not known stands for
    /// empty space, so that one odd cell does not spoil the map.
    pub fn parse_cell(cell: &str) -> (object: ObjectType)
        ensures
            object == cell_of_label(cell@),
    {
        if str_equal(cell, "POLYANET") || str_equal(cell, "ANCHOR") {
            ObjectType::Polyanet
        } else if str_equal(cell, "BLUE_SOLOON") || str_equal(cell, "SATELLITE_BLUE") {
            ObjectType::Soloon(Some(Color::Blue))
        } else if str_equal(cell, "RED_SOLOON") || str_equal(cell, "SATELLITE_RED") {
            ObjectType::Soloon(Some(Color::Red))
        } else if str_equal(cell, "PURPLE_SOLOON") || str_equal(cell, "SATELLITE_PURPLE") {
            ObjectType::Soloon(Some(Color::Purple))
        } else if str_equal(cell, "WHITE_SOLOON") || str_equal(cell, "SATELLITE_WHITE") {
            ObjectType::Soloon(Some(Color::White))
        } else if str_equal(cell, "UP_COMETH") || str_equal(cell, "COMET_UP") {
            ObjectType::Cometh(Some(Direction::Up))
        } else if str_equal(cell, "DOWN_COMETH") || str_equal(cell, "COMET_DOWN") {
            ObjectType::Cometh(Some(Direction::Down))
        } else if str_equal(cell, "LEFT_COMETH") || str_equal(cell, "COMET_LEFT") {
            ObjectType::Cometh(Some(Direction::Left))
        } else if str_equal(cell, "RIGHT_COMETH") || str_equal(cell, "COMET_RIGHT") {
            ObjectType::Cometh(Some(Direction::Right))
        } else {
            ObjectType::Space
        }
    }
}

} // verus!
