use megaverse::client::MegaverseApiClient;
use megaverse::error::ApiError;
use megaverse::goal::{grid_from_labels, parse_goal};
use megaverse::object_type::{Color, Direction, ObjectType};
use megaverse::request::Reply;

fn ok(body: &str) -> Reply {
    Reply::Status { code: 200, body: body.to_string() }
}

fn labels(rows: &[&[&str]]) -> Vec<Vec<String>> {
    rows.iter().map(|row| row.iter().map(|label| label.to_string()).collect()).collect()
}

#[test]
fn goal_map_is_read_cell_by_cell() {
    let client = MegaverseApiClient::new("abc");
    let body = "{\"goal\":[[\"SPACE\",\"POLYANET\",\"BLUE_SOLOON\"],[\"UP_COMETH\",\"SPACE\",\"WHITE_SOLOON\"]]}";
    assert_eq!(
        client.fetch_goal_map(&ok(body)),
        Ok(vec![
            vec![ObjectType::Space, ObjectType::Polyanet, ObjectType::Soloon(Some(Color::Blue))],
            vec![
                ObjectType::Cometh(Some(Direction::Up)),
                ObjectType::Space,
                ObjectType::Soloon(Some(Color::White)),
            ],
        ])
    );
}

#[test]
fn goal_map_tolerates_other_members_and_whitespace() {
    let client = MegaverseApiClient::new("abc");
    let body = " { \"version\": 3, \"goal\": [ [ \"POLYANET\" ] ], \"note\": null } ";
    assert_eq!(client.fetch_goal_map(&ok(body)), Ok(vec![vec![ObjectType::Polyanet]]));
}

#[test]
fn unknown_label_in_goal_map_is_space() {
    let client = MegaverseApiClient::new("abc");
    let body = "{\"goal\":[[\"POLYANET\",\"ASTEROID\"]]}";
    assert_eq!(
        client.fetch_goal_map(&ok(body)),
        Ok(vec![vec![ObjectType::Polyanet, ObjectType::Space]])
    );
}

#[test]
fn empty_goal_maps_are_grids() {
    let client = MegaverseApiClient::new("abc");
    assert_eq!(client.fetch_goal_map(&ok("{\"goal\":[]}")), Ok(vec![]));
    assert_eq!(client.fetch_goal_map(&ok("{\"goal\":[[],[]]}")), Ok(vec![vec![], vec![]]));
}

#[test]
fn every_success_status_is_read() {
    let client = MegaverseApiClient::new("abc");
    for code in [200u16, 201, 299] {
        let reply = Reply::Status { code, body: "{\"goal\":[[\"SPACE\"]]}".to_string() };
        assert_eq!(client.fetch_goal_map(&reply), Ok(vec![vec![ObjectType::Space]]));
    }
}

#[test]
fn goal_is_unavailable_without_success_status() {
    let client = MegaverseApiClient::new("abc");
    for code in [199u16, 300, 404, 429, 500] {
        let reply = Reply::Status { code, body: "{\"goal\":[[\"SPACE\"]]}".to_string() };
        assert_eq!(client.fetch_goal_map(&reply), Err(ApiError::GoalUnavailable), "{code}");
    }
}

#[test]
fn goal_is_unavailable_when_the_request_failed() {
    let client = MegaverseApiClient::new("abc");
    let reply = Reply::Failed { detail: "timed out".to_string() };
    assert_eq!(client.fetch_goal_map(&reply), Err(ApiError::GoalUnavailable));
}

#[test]
fn goal_is_unavailable_when_the_member_is_missing() {
    let client = MegaverseApiClient::new("abc");
    let reply = ok("{\"map\":[[\"POLYANET\"]]}");
    assert_eq!(client.fetch_goal_map(&reply), Err(ApiError::GoalUnavailable));
    match client.create_map(&reply) {
        Err(error) => assert_eq!(error, ApiError::GoalUnavailable),
        Ok(run) => panic!("a run of {} calls was planned", run.calls().len()),
    }
    assert_eq!(client.show_goal_map(&reply), Err(ApiError::GoalUnavailable));
}

#[test]
fn goal_is_unavailable_for_any_other_shape() {
    let client = MegaverseApiClient::new("abc");
    let bodies = [
        "",
        "not json",
        "{\"goal\":[[\"SPACE\"]]",
        "{\"goal\":[[\"SPACE\"]]} trailing",
        "null",
        "[[\"SPACE\"]]",
        "\"goal\"",
        "{}",
        "{\"goal\":null}",
        "{\"goal\":\"SPACE\"}",
        "{\"goal\":{\"0\":[\"SPACE\"]}}",
        "{\"goal\":[\"SPACE\"]}",
        "{\"goal\":[[\"SPACE\"],\"SPACE\"]}",
        "{\"goal\":[[\"SPACE\"],null]}",
        "{\"goal\":[[\"SPACE\",1]]}",
        "{\"goal\":[[\"SPACE\",null]]}",
        "{\"goal\":[[\"SPACE\",[\"SPACE\"]]]}",
        "{\"Goal\":[[\"SPACE\"]]}",
    ];
    for body in bodies {
        assert_eq!(client.fetch_goal_map(&ok(body)), Err(ApiError::GoalUnavailable), "{body}");
        assert_eq!(parse_goal(body), Err(ApiError::GoalUnavailable), "{body}");
    }
}

#[test]
fn goal_is_unavailable_when_rows_differ_in_length() {
    let client = MegaverseApiClient::new("abc");
    for body in [
        "{\"goal\":[[\"SPACE\",\"SPACE\"],[\"SPACE\"]]}",
        "{\"goal\":[[\"SPACE\"],[\"SPACE\",\"SPACE\"]]}",
        "{\"goal\":[[],[\"SPACE\"]]}",
        "{\"goal\":[[\"SPACE\"],[\"SPACE\"],[]]}",
    ] {
        assert_eq!(client.fetch_goal_map(&ok(body)), Err(ApiError::GoalUnavailable), "{body}");
    }
}

#[test]
fn escaped_labels_are_unescaped_before_they_are_read() {
    let body = "{\"goal\":[[\"POLY\\u0041NET\",\"SP\\u0041CE\",\"\\\"POLYANET\\\"\"]]}";
    assert_eq!(
        parse_goal(body),
        Ok(vec![vec![ObjectType::Polyanet, ObjectType::Space, ObjectType::Space]])
    );
}

#[test]
fn grid_from_labels_reads_each_label() {
    assert_eq!(
        grid_from_labels(&labels(&[&["SPACE", "ANCHOR"], &["SATELLITE_BLUE", "SPACE"]])),
        Ok(vec![
            vec![ObjectType::Space, ObjectType::Polyanet],
            vec![ObjectType::Soloon(Some(Color::Blue)), ObjectType::Space],
        ])
    );
    assert_eq!(grid_from_labels(&labels(&[])), Ok(vec![]));
    assert_eq!(grid_from_labels(&labels(&[&[]])), Ok(vec![vec![]]));
}

#[test]
fn grid_from_labels_wants_a_rectangle() {
    assert_eq!(
        grid_from_labels(&labels(&[&["SPACE", "SPACE"], &["SPACE"]])),
        Err(ApiError::GoalUnavailable)
    );
    assert_eq!(
        grid_from_labels(&labels(&[&[], &["SPACE"]])),
        Err(ApiError::GoalUnavailable)
    );
}

#[test]
fn goal_map_is_shown_as_lines_of_icons() {
    let client = MegaverseApiClient::new("abc");
    let body = "{\"goal\":[[\"SPACE\",\"POLYANET\",\"RED_SOLOON\"],[\"DOWN_COMETH\",\"SPACE\",\"SPACE\"]]}";
    assert_eq!(
        client.show_goal_map(&ok(body)),
        Ok(vec![
            "\u{1F30C} \u{1FA90} \u{1F534}".to_string(),
            "\u{2604}\u{FE0F}\u{2193} \u{1F30C} \u{1F30C}".to_string(),
        ])
    );
    assert_eq!(client.show_goal_map(&ok("{\"goal\":[[\"POLYANET\"]]}")), Ok(vec!["\u{1FA90}".to_string()]));
    assert_eq!(client.show_goal_map(&ok("{\"goal\":[[],[]]}")), Ok(vec![String::new(), String::new()]));
    assert_eq!(client.show_goal_map(&ok("{\"goal\":[]}")), Ok(vec![]));
    assert_eq!(
        client.show_goal_map(&Reply::Status { code: 500, body: body.to_string() }),
        Err(ApiError::GoalUnavailable)
    );
}
