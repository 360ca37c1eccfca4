use megaverse::client::MegaverseApiClient;
use megaverse::error::ApiError;
use megaverse::object_type::{Color, Direction, ObjectType};
use megaverse::text::{decimal, str_equal};

fn all_objects() -> Vec<ObjectType> {
    vec![
        ObjectType::Space,
        ObjectType::Polyanet,
        ObjectType::Soloon(Some(Color::Blue)),
        ObjectType::Soloon(Some(Color::Red)),
        ObjectType::Soloon(Some(Color::Purple)),
        ObjectType::Soloon(Some(Color::White)),
        ObjectType::Soloon(None),
        ObjectType::Cometh(Some(Direction::Up)),
        ObjectType::Cometh(Some(Direction::Down)),
        ObjectType::Cometh(Some(Direction::Left)),
        ObjectType::Cometh(Some(Direction::Right)),
        ObjectType::Cometh(None),
    ]
}

#[test]
fn service_labels_parse_to_their_objects() {
    assert_eq!(MegaverseApiClient::parse_cell("SPACE"), ObjectType::Space);
    assert_eq!(MegaverseApiClient::parse_cell("POLYANET"), ObjectType::Polyanet);
    assert_eq!(
        MegaverseApiClient::parse_cell("BLUE_SOLOON"),
        ObjectType::Soloon(Some(Color::Blue))
    );
    assert_eq!(
        MegaverseApiClient::parse_cell("RED_SOLOON"),
        ObjectType::Soloon(Some(Color::Red))
    );
    assert_eq!(
        MegaverseApiClient::parse_cell("PURPLE_SOLOON"),
        ObjectType::Soloon(Some(Color::Purple))
    );
    assert_eq!(
        MegaverseApiClient::parse_cell("WHITE_SOLOON"),
        ObjectType::Soloon(Some(Color::White))
    );
    assert_eq!(
        MegaverseApiClient::parse_cell("UP_COMETH"),
        ObjectType::Cometh(Some(Direction::Up))
    );
    assert_eq!(
        MegaverseApiClient::parse_cell("DOWN_COMETH"),
        ObjectType::Cometh(Some(Direction::Down))
    );
    assert_eq!(
        MegaverseApiClient::parse_cell("LEFT_COMETH"),
        ObjectType::Cometh(Some(Direction::Left))
    );
    assert_eq!(
        MegaverseApiClient::parse_cell("RIGHT_COMETH"),
        ObjectType::Cometh(Some(Direction::Right))
    );
}

#[test]
fn generic_labels_parse_to_their_objects() {
    assert_eq!(MegaverseApiClient::parse_cell("ANCHOR"), ObjectType::Polyanet);
    assert_eq!(
        MegaverseApiClient::parse_cell("SATELLITE_BLUE"),
        ObjectType::Soloon(Some(Color::Blue))
    );
    assert_eq!(
        MegaverseApiClient::parse_cell("SATELLITE_RED"),
        ObjectType::Soloon(Some(Color::Red))
    );
    assert_eq!(
        MegaverseApiClient::parse_cell("SATELLITE_PURPLE"),
        ObjectType::Soloon(Some(Color::Purple))
    );
    assert_eq!(
        MegaverseApiClient::parse_cell("SATELLITE_WHITE"),
        ObjectType::Soloon(Some(Color::White))
    );
    assert_eq!(
        MegaverseApiClient::parse_cell("COMET_UP"),
        ObjectType::Cometh(Some(Direction::Up))
    );
    assert_eq!(
        MegaverseApiClient::parse_cell("COMET_DOWN"),
        ObjectType::Cometh(Some(Direction::Down))
    );
    assert_eq!(
        MegaverseApiClient::parse_cell("COMET_LEFT"),
        ObjectType::Cometh(Some(Direction::Left))
    );
    assert_eq!(
        MegaverseApiClient::parse_cell("COMET_RIGHT"),
        ObjectType::Cometh(Some(Direction::Right))
    );
}

#[test]
fn unknown_labels_parse_to_space() {
    for label in [
        "",
        "polyanet",
        "POLYANETS",
        "SOLOON",
        "COMETH",
        "GREEN_SOLOON",
        "BLUE SOLOON",
        "UP_COMET",
        "SATELLITE",
        " SPACE",
        "\u{1FA90}",
    ] {
        assert_eq!(MegaverseApiClient::parse_cell(label), ObjectType::Space, "{label:?}");
    }
}

#[test]
fn parsed_label_keeps_kind_and_attribute_in_its_icon() {
    let labels = [
        ("SPACE", "\u{1F30C}"),
        ("POLYANET", "\u{1FA90}"),
        ("BLUE_SOLOON", "\u{1F535}"),
        ("RED_SOLOON", "\u{1F534}"),
        ("PURPLE_SOLOON", "\u{1F7E3}"),
        ("WHITE_SOLOON", "\u{26AA}"),
        ("UP_COMETH", "\u{2604}\u{FE0F}\u{2191}"),
        ("DOWN_COMETH", "\u{2604}\u{FE0F}\u{2193}"),
        ("LEFT_COMETH", "\u{2604}\u{FE0F}\u{2190}"),
        ("RIGHT_COMETH", "\u{2604}\u{FE0F}\u{2192}"),
        ("ANCHOR", "\u{1FA90}"),
        ("SATELLITE_PURPLE", "\u{1F7E3}"),
        ("COMET_LEFT", "\u{2604}\u{FE0F}\u{2190}"),
    ];
    for (label, icon) in labels {
        assert_eq!(MegaverseApiClient::parse_cell(label).render(), icon, "{label}");
    }
}

#[test]
fn icons_without_attribute() {
    assert_eq!(ObjectType::Soloon(None).render(), "\u{1F315}");
    assert_eq!(ObjectType::Cometh(None).render(), "\u{2604}\u{FE0F}");
}

#[test]
fn icons_are_pairwise_distinct() {
    let objects = all_objects();
    for (i, a) in objects.iter().enumerate() {
        for (j, b) in objects.iter().enumerate() {
            assert_eq!(a.render() == b.render(), i == j, "{a:?} {b:?}");
        }
    }
}

#[test]
fn url_segments() {
    assert_eq!(ObjectType::Polyanet.as_url_segment(), Ok("polyanets"));
    assert_eq!(ObjectType::Soloon(None).as_url_segment(), Ok("soloons"));
    assert_eq!(ObjectType::Soloon(Some(Color::Red)).as_url_segment(), Ok("soloons"));
    assert_eq!(ObjectType::Cometh(None).as_url_segment(), Ok("comeths"));
    assert_eq!(ObjectType::Cometh(Some(Direction::Left)).as_url_segment(), Ok("comeths"));
    assert_eq!(
        ObjectType::Space.as_url_segment(),
        Err("Space objects do not have a URL segment.")
    );
}

#[test]
fn eligibility() {
    let expected = [
        (false, false),
        (true, true),
        (true, true),
        (true, true),
        (true, true),
        (true, true),
        (false, true),
        (true, true),
        (true, true),
        (true, true),
        (true, true),
        (false, true),
    ];
    for (object, (create, delete)) in all_objects().iter().zip(expected) {
        assert_eq!(object.is_creatable(), create, "{object:?}");
        assert_eq!(object.is_deletable(), delete, "{object:?}");
    }
}

#[test]
fn color_names() {
    assert_eq!(Color::Blue.name(), "Blue");
    assert_eq!(Color::Red.name(), "Red");
    assert_eq!(Color::Purple.name(), "Purple");
    assert_eq!(Color::White.name(), "White");
    assert_eq!(Color::Blue.param(), "blue");
    assert_eq!(Color::Red.param(), "red");
    assert_eq!(Color::Purple.param(), "purple");
    assert_eq!(Color::White.param(), "white");
}

#[test]
fn direction_names() {
    assert_eq!(Direction::Up.name(), "Up");
    assert_eq!(Direction::Down.name(), "Down");
    assert_eq!(Direction::Left.name(), "Left");
    assert_eq!(Direction::Right.name(), "Right");
    assert_eq!(Direction::Up.param(), "up");
    assert_eq!(Direction::Down.param(), "down");
    assert_eq!(Direction::Left.param(), "left");
    assert_eq!(Direction::Right.param(), "right");
}

#[test]
fn params_are_the_names_in_lower_case() {
    for color in [Color::Blue, Color::Red, Color::Purple, Color::White] {
        assert_eq!(color.param(), color.name().to_lowercase());
    }
    for direction in [Direction::Up, Direction::Down, Direction::Left, Direction::Right] {
        assert_eq!(direction.param(), direction.name().to_lowercase());
    }
}

#[test]
fn error_messages() {
    assert_eq!(ApiError::GoalUnavailable.message(), "The goal map is unavailable.");
    assert_eq!(
        ApiError::UnsupportedKind.message(),
        "The object type is not supported by this operation."
    );
    assert_eq!(ApiError::TransientTransport.message(), "The request failed and is retried.");
}

#[test]
fn decimal_digits_of_numbers() {
    assert_eq!(decimal(0), "0");
    assert_eq!(decimal(7), "7");
    assert_eq!(decimal(10), "10");
    assert_eq!(decimal(121), "121");
    assert_eq!(decimal(1000), "1000");
    assert_eq!(decimal(4294967295), "4294967295");
    for n in [1u32, 9, 11, 99, 100, 101, 65535, 65536, 999999999, 1000000000] {
        assert_eq!(decimal(n), n.to_string());
    }
}

#[test]
fn string_equality() {
    assert!(str_equal("", ""));
    assert!(str_equal("SPACE", "SPACE"));
    assert!(!str_equal("SPACE", "SPACF"));
    assert!(!str_equal("SPACE", "SPACES"));
    assert!(!str_equal("SPACE", ""));
    assert!(str_equal("\u{2604}\u{FE0F}", "\u{2604}\u{FE0F}"));
    assert!(!str_equal("\u{2604}\u{FE0F}", "\u{2604}"));
}
