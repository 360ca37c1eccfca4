//! The kinds of object a cell of the grid can hold, their attributes, and
//! the vocabularies in which they are written: goal labels, path segments,
//! request parameters and icons.

use vstd::prelude::*;

verus! {

/// The colour of a soloon.
#[derive(Debug, Clone, Copy, PartialEq, Eq, Structural)]
pub enum Color {
    Blue,
    Red,
    Purple,
    White,
}

/// The direction a cometh points to.
#[derive(Debug, Clone, Copy, PartialEq, Eq, Structural)]
pub enum Direction {
    Up,
    Down,
    Left,
    Right,
}

/// What one cell of the grid holds. A soloon or a cometh without its
/// attribute names the kind only: enough to remove one, not to place one.
#[derive(Debug, Clone, Copy, PartialEq, Eq, Structural)]
pub enum ObjectType {
    Space,
    Polyanet,
    Soloon(Option<Color>),
    Cometh(Option<Direction>),
}

/// The name of a colour, capitalised.
pub open spec fn color_name(color: Color) -> Seq<char> {
    match color {
        Color::Blue => "Blue"@,
        Color::Red => "Red"@,
        Color::Purple => "Purple"@,
        Color::White => "White"@,
    }
}

/// The value that stands for a colour in a request: its name in lower case.
pub open spec fn color_param(color: Color) -> Seq<char> {
    match color {
        Color::Blue => "blue"@,
        Color::Red => "red"@,
        Color::Purple => "purple"@,
        Color::White => "white"@,
    }
}

/// The name of a direction, capitalised.
pub open spec fn direction_name(direction: Direction) -> Seq<char> {
    match direction {
        Direction::Up => "Up"@,
        Direction::Down => "Down"@,
        Direction::Left => "Left"@,
        Direction::Right => "Right"@,
    }
}

/// The value that stands for a direction in a request: its name in lower
/// case.
pub open spec fn direction_param(direction: Direction) -> Seq<char> {
    match direction {
        Direction::Up => "up"@,
        Direction::Down => "down"@,
        Direction::Left => "left"@,
        Direction::Right => "right"@,
    }
}

impl Color {
    /// The capitalised name, as shown to a person.
    pub fn name(&self) -> (r: &'static str)
        ensures
            r@ == color_name(*self),
    {
        match self {
            Color::Blue => "Blue",
            Color::Red => "Red",
            Color::Purple => "Purple",
            Color::White => "White",
        }
    }

    /// The lower-case name, as sent to the service.
    pub fn param(&self) -> (r: &'static str)
        ensures
            r@ == color_param(*self),
    {
        match self {
            Color::Blue => "blue",
            Color::Red => "red",
            Color::Purple => "purple",
            Color::White => "white",
        }
    }
}

impl Direction {
    /// The capitalised name, as shown to a person.
    pub fn name(&self) -> (r: &'static str)
        ensures
            r@ == direction_name(*self),
    {
        match self {
            Direction::Up => "Up",
            Direction::Down => "Down",
            Direction::Left => "Left",
            Direction::Right => "Right",
        }
    }

    /// The lower-case name, as sent to the service.
    pub fn param(&self) -> (r: &'static str)
        ensures
            r@ == direction_param(*self),
    {
        match self {
            Direction::Up => "up",
            Direction::Down => "down",
            Direction::Left => "left",
            Direction::Right => "right",
        }
    }
}

/// The path segment under which the service keeps objects of this kind;
/// empty space has none.
pub open spec fn url_segment(object: ObjectType) -> Option<Seq<char>> {
    match object {
        ObjectType::Space => None,
        ObjectType::Polyanet => Some("polyanets"@),
        ObjectType::Soloon(_) => Some("soloons"@),
        ObjectType::Cometh(_) => Some("comeths"@),
    }
}

/// An object can be placed when it is not empty space and carries the
/// attribute its kind requires.
pub open spec fn creatable(object: ObjectType) -> bool {
    match object {
        ObjectType::Space => false,
        ObjectType::Polyanet => true,
        ObjectType::Soloon(color) => color is Some,
        ObjectType::Cometh(direction) => direction is Some,
    }
}

/// An object can be removed whenever it is not empty space: the service
/// finds it by kind and position.
pub open spec fn deletable(object: ObjectType) -> bool {
    object != ObjectType::Space
}

/// The label under which the service writes an object in a goal map. An
/// object without the attribute its kind requires has no label.
pub open spec fn service_label(object: ObjectType) -> Option<Seq<char>> {
    match object {
        ObjectType::Space => Some("SPACE"@),
        ObjectType::Polyanet => Some("POLYANET"@),
        ObjectType::Soloon(Some(Color::Blue)) => Some("BLUE_SOLOON"@),
        ObjectType::Soloon(Some(Color::Red)) => Some("RED_SOLOON"@),
        ObjectType::Soloon(Some(Color::Purple)) => Some("PURPLE_SOLOON"@),
        ObjectType::Soloon(Some(Color::White)) => Some("WHITE_SOLOON"@),
        ObjectType::Cometh(Some(Direction::Up)) => Some("UP_COMETH"@),
        ObjectType::Cometh(Some(Direction::Down)) => Some("DOWN_COMETH"@),
        ObjectType::Cometh(Some(Direction::Left)) => Some("LEFT_COMETH"@),
        ObjectType::Cometh(Some(Direction::Right)) => Some("RIGHT_COMETH"@),
        _ => None,
    }
}

/// The label of an object in the generic vocabulary, which calls the three
/// kinds anchor, satellite and comet and puts the kind first.
pub open spec fn generic_label(object: ObjectType) -> Option<Seq<char>> {
    match object {
        ObjectType::Space => Some("SPACE"@),
        ObjectType::Polyanet => Some("ANCHOR"@),
        ObjectType::Soloon(Some(Color::Blue)) => Some("SATELLITE_BLUE"@),
        ObjectType::Soloon(Some(Color::Red)) => Some("SATELLITE_RED"@),
        ObjectType::Soloon(Some(Color::Purple)) => Some("SATELLITE_PURPLE"@),
        ObjectType::Soloon(Some(Color::White)) => Some("SATELLITE_WHITE"@),
        ObjectType::Cometh(Some(Direction::Up)) => Some("COMET_UP"@),
        ObjectType::Cometh(Some(Direction::Down)) => Some("COMET_DOWN"@),
        ObjectType::Cometh(Some(Direction::Left)) => Some("COMET_LEFT"@),
        ObjectType::Cometh(Some(Direction::Right)) => Some("COMET_RIGHT"@),
        _ => None,
    }
}

/// A label is known when some object carries it in either vocabulary.
pub open spec fn known_label(label: Seq<char>) -> bool {
    exists|object: ObjectType|
        #![trigger service_label(object)]
        #![trigger generic_label(object)]
        service_label(object) == Some(label) || generic_label(object) == Some(label)
}

/// The object that a label of a goal map stands for. Both vocabularies are
/// read; any other text stands for empty space.
pub open spec fn cell_of_label(label: Seq<char>) -> ObjectType {
    if label == "POLYANET"@ || label == "ANCHOR"@ {
        ObjectType::Polyanet
    } else if label == "BLUE_SOLOON"@ || label == "SATELLITE_BLUE"@ {
        ObjectType::Soloon(Some(Color::Blue))
    } else if label == "RED_SOLOON"@ || label == "SATELLITE_RED"@ {
        ObjectType::Soloon(Some(Color::Red))
    } else if label == "PURPLE_SOLOON"@ || label == "SATELLITE_PURPLE"@ {
        ObjectType::Soloon(Some(Color::Purple))
    } else if label == "WHITE_SOLOON"@ || label == "SATELLITE_WHITE"@ {
        ObjectType::Soloon(Some(Color::White))
    } else if label == "UP_COMETH"@ || label == "COMET_UP"@ {
        ObjectType::Cometh(Some(Direction::Up))
    } else if label == "DOWN_COMETH"@ || label == "COMET_DOWN"@ {
        ObjectType::Cometh(Some(Direction::Down))
    } else if label == "LEFT_COMETH"@ || label == "COMET_LEFT"@ {
        ObjectType::Cometh(Some(Direction::Left))
    } else if label == "RIGHT_COMETH"@ || label == "COMET_RIGHT"@ {
        ObjectType::Cometh(Some(Direction::Right))
    } else {
        ObjectType::Space
    }
}

/// The icon that shows an object to a person: a galaxy for empty space, a
/// ringed planet for a polyanet, a disc in the soloon's colour (a full moon
/// where the colour is unknown), a comet followed by an arrow in the
/// cometh's direction (no arrow where the direction is unknown).
pub open spec fn icon(object: ObjectType) -> Seq<char> {
    match object {
        ObjectType::Space => "\u{1F30C}"@,
        ObjectType::Polyanet => "\u{1FA90}"@,
        ObjectType::Soloon(Some(Color::Blue)) => "\u{1F535}"@,
        ObjectType::Soloon(Some(Color::Red)) => "\u{1F534}"@,
        ObjectType::Soloon(Some(Color::Purple)) => "\u{1F7E3}"@,
        ObjectType::Soloon(Some(Color::White)) => "\u{26AA}"@,
        ObjectType::Soloon(None) => "\u{1F315}"@,
        ObjectType::Cometh(Some(Direction::Up)) => "\u{2604}\u{FE0F}\u{2191}"@,
        ObjectType::Cometh(Some(Direction::Down)) => "\u{2604}\u{FE0F}\u{2193}"@,
        ObjectType::Cometh(Some(Direction::Left)) => "\u{2604}\u{FE0F}\u{2190}"@,
        ObjectType::Cometh(Some(Direction::Right)) => "\u{2604}\u{FE0F}\u{2192}"@,
        ObjectType::Cometh(None) => "\u{2604}\u{FE0F}"@,
    }
}

impl ObjectType {
    /// The path segment of this kind, or an error message for empty space.
    pub fn as_url_segment(&self) -> (r: Result<&'static str, &'static str>)
        ensures
            match r {
                Ok(segment) => url_segment(*self) == Some(segment@),
                Err(message) => url_segment(*self) is None
                    && message@ == "Space objects do not have a URL segment."@,
            },
    {
        match self {
            ObjectType::Space => Err("Space objects do not have a URL segment."),
            ObjectType::Polyanet => Ok("polyanets"),
            ObjectType::Soloon(_) => Ok("soloons"),
            ObjectType::Cometh(_) => Ok("comeths"),
        }
    }

    /// Whether the object can be placed.
    pub fn is_creatable(&self) -> (r: bool)
        ensures
            r == creatable(*self),
    {
        match self {
            ObjectType::Space => false,
            ObjectType::Polyanet => true,
            ObjectType::Soloon(color) => color.is_some(),
            ObjectType::Cometh(direction) => direction.is_some(),
        }
    }

    /// Whether the object can be removed.
    pub fn is_deletable(&self) -> (r: bool)
        ensures
            r == deletable(*self),
    {
        match self {
            ObjectType::Space => false,
            _ => true,
        }
    }

    /// The icon of the object.
    pub fn render(&self) -> (r: &'static str)
        ensures
            r@ == icon(*self),
    {
        match self {
            ObjectType::Space => "\u{1F30C}",
            ObjectType::Polyanet => "\u{1FA90}",
            ObjectType::Soloon(Some(Color::Blue)) => "\u{1F535}",
            ObjectType::Soloon(Some(Color::Red)) => "\u{1F534}",
            ObjectType::Soloon(Some(Color::Purple)) => "\u{1F7E3}",
            ObjectType::Soloon(Some(Color::White)) => "\u{26AA}",
            ObjectType::Soloon(None) => "\u{1F315}",
            ObjectType::Cometh(Some(Direction::Up)) => "\u{2604}\u{FE0F}\u{2191}",
            ObjectType::Cometh(Some(Direction::Down)) => "\u{2604}\u{FE0F}\u{2193}",
            ObjectType::Cometh(Some(Direction::Left)) => "\u{2604}\u{FE0F}\u{2190}",
            ObjectType::Cometh(Some(Direction::Right)) => "\u{2604}\u{FE0F}\u{2192}",
            ObjectType::Cometh(None) => "\u{2604}\u{FE0F}",
        }
    }
}

/// Different objects have different icons: kind and attribute can be read
/// off the icon.
pub proof fn lemma_icon_injective(a: ObjectType, b: ObjectType)
    requires
        icon(a) == icon(b),
    ensures
        a == b,
{
    reveal_strlit("\u{1F30C}");
    reveal_strlit("\u{1FA90}");
    reveal_strlit("\u{1F535}");
    reveal_strlit("\u{1F534}");
    reveal_strlit("\u{1F7E3}");
    reveal_strlit("\u{26AA}");
    reveal_strlit("\u{1F315}");
    reveal_strlit("\u{2604}\u{FE0F}\u{2191}");
    reveal_strlit("\u{2604}\u{FE0F}\u{2193}");
    reveal_strlit("\u{2604}\u{FE0F}\u{2190}");
    reveal_strlit("\u{2604}\u{FE0F}\u{2192}");
    reveal_strlit("\u{2604}\u{FE0F}");
    let x = icon(a);
    let y = icon(b);
    assert(x.len() == y.len());
    assert(x[0] == y[0]);
    if x.len() == 3 {
        assert(x[2] == y[2]);
    }
}

/// Makes the text of every label known to the solver.
proof fn reveal_labels()
    ensures
        "SPACE"@ == seq!['S', 'P', 'A', 'C', 'E'],
        "POLYANET"@.len() == 8 && "POLYANET"@[0] == 'P',
        "ANCHOR"@.len() == 6 && "ANCHOR"@[0] == 'A',
        "BLUE_SOLOON"@.len() == 11 && "BLUE_SOLOON"@[0] == 'B',
        "RED_SOLOON"@.len() == 10 && "RED_SOLOON"@[0] == 'R',
        "PURPLE_SOLOON"@.len() == 13 && "PURPLE_SOLOON"@[0] == 'P',
        "WHITE_SOLOON"@.len() == 12 && "WHITE_SOLOON"@[0] == 'W',
        "UP_COMETH"@.len() == 9 && "UP_COMETH"@[0] == 'U',
        "DOWN_COMETH"@.len() == 11 && "DOWN_COMETH"@[0] == 'D',
        "LEFT_COMETH"@.len() == 11 && "LEFT_COMETH"@[0] == 'L',
        "RIGHT_COMETH"@.len() == 12 && "RIGHT_COMETH"@[0] == 'R',
        "SATELLITE_BLUE"@.len() == 14 && "SATELLITE_BLUE"@[0] == 'S',
        "SATELLITE_RED"@.len() == 13 && "SATELLITE_RED"@[0] == 'S',
        "SATELLITE_PURPLE"@.len() == 16 && "SATELLITE_PURPLE"@[0] == 'S',
        "SATELLITE_WHITE"@.len() == 15 && "SATELLITE_WHITE"@[0] == 'S',
        "COMET_UP"@.len() == 8 && "COMET_UP"@[0] == 'C',
        "COMET_DOWN"@.len() == 10 && "COMET_DOWN"@[0] == 'C' && "COMET_DOWN"@[6] == 'D',
        "COMET_LEFT"@.len() == 10 && "COMET_LEFT"@[0] == 'C' && "COMET_LEFT"@[6] == 'L',
        "COMET_RIGHT"@.len() == 11 && "COMET_RIGHT"@[0] == 'C',
{
    reveal_strlit("SPACE");
    reveal_strlit("POLYANET");
    reveal_strlit("ANCHOR");
    reveal_strlit("BLUE_SOLOON");
    reveal_strlit("RED_SOLOON");
    reveal_strlit("PURPLE_SOLOON");
    reveal_strlit("WHITE_SOLOON");
    reveal_strlit("UP_COMETH");
    reveal_strlit("DOWN_COMETH");
    reveal_strlit("LEFT_COMETH");
    reveal_strlit("RIGHT_COMETH");
    reveal_strlit("SATELLITE_BLUE");
    reveal_strlit("SATELLITE_RED");
    reveal_strlit("SATELLITE_PURPLE");
    reveal_strlit("SATELLITE_WHITE");
    reveal_strlit("COMET_UP");
    reveal_strlit("COMET_DOWN");
    reveal_strlit("COMET_LEFT");
    reveal_strlit("COMET_RIGHT");
    assert("SPACE"@ =~= seq!['S', 'P', 'A', 'C', 'E']);
}

/// Reading the label of an object, in either vocabulary, gives the object
/// back: kind and attribute survive the way through a goal map.
pub proof fn lemma_label_round_trip(object: ObjectType)
    ensures
        service_label(object) matches Some(label) ==> cell_of_label(label) == object,
        generic_label(object) matches Some(label) ==> cell_of_label(label) == object,
{
    reveal_labels();
}

/// A label that no object carries stands for empty space.
pub proof fn lemma_unknown_label_is_space(label: Seq<char>)
    requires
        !known_label(label),
    ensures
        cell_of_label(label) == ObjectType::Space,
{
    let object = cell_of_label(label);
    if object != ObjectType::Space {
        assert(service_label(object) == Some(label) || generic_label(object) == Some(label));
    }
}

/// What a label stands for is empty space or an object that can be placed,
/// and the label is one of the two that the object carries unless it is
/// unknown.
pub proof fn lemma_cell_of_label_is_labelled(label: Seq<char>)
    ensures
        cell_of_label(label) == ObjectType::Space || creatable(cell_of_label(label)),
        known_label(label) ==> service_label(cell_of_label(label)) == Some(label)
            || generic_label(cell_of_label(label)) == Some(label),
{
    reveal_labels();
    if known_label(label) {
        let object = choose|object: ObjectType|
            service_label(object) == Some(label) || generic_label(object) == Some(label);
        lemma_label_round_trip(object);
    }
}

/// From a label to the icon of what it stands for and back: two labels
/// whose objects show the same icon stand for the same object.
pub proof fn lemma_label_icon_round_trip(first: Seq<char>, second: Seq<char>)
    requires
        icon(cell_of_label(first)) == icon(cell_of_label(second)),
    ensures
        cell_of_label(first) == cell_of_label(second),
{
    lemma_icon_injective(cell_of_label(first), cell_of_label(second));
}

} // verus!
