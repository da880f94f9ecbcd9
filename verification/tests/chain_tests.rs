use dungeon_raid_tui::chain::{
    connector_glyph, connector_of, resolve_crossing, Connector, RelativeDirection,
};
use dungeon_raid_tui::cursor::TilePosition;

#[test]
fn offsets_are_the_eight_unit_vectors() {
    assert_eq!(RelativeDirection::Up.offset(), Some(TilePosition::new(-1, 0)));
    assert_eq!(RelativeDirection::UpRight.offset(), Some(TilePosition::new(-1, 1)));
    assert_eq!(RelativeDirection::Right.offset(), Some(TilePosition::new(0, 1)));
    assert_eq!(RelativeDirection::DownRight.offset(), Some(TilePosition::new(1, 1)));
    assert_eq!(RelativeDirection::Down.offset(), Some(TilePosition::new(1, 0)));
    assert_eq!(RelativeDirection::DownLeft.offset(), Some(TilePosition::new(1, -1)));
    assert_eq!(RelativeDirection::Left.offset(), Some(TilePosition::new(0, -1)));
    assert_eq!(RelativeDirection::UpLeft.offset(), Some(TilePosition::new(-1, -1)));
}

#[test]
fn nowhere_has_no_offset_and_no_connector() {
    assert_eq!(RelativeDirection::Nowhere.offset(), None);
    assert!(!RelativeDirection::Nowhere.is_link());
    assert!(RelativeDirection::Up.is_link());
    assert_eq!(connector_of(TilePosition::new(2, 2), RelativeDirection::Nowhere), None);
}

#[test]
fn glyph_of_each_offset() {
    assert_eq!(connector_glyph(TilePosition::new(-1, 0)), '|');
    assert_eq!(connector_glyph(TilePosition::new(1, 0)), '|');
    assert_eq!(connector_glyph(TilePosition::new(0, -1)), '-');
    assert_eq!(connector_glyph(TilePosition::new(0, 1)), '-');
    assert_eq!(connector_glyph(TilePosition::new(-1, -1)), '\\');
    assert_eq!(connector_glyph(TilePosition::new(1, 1)), '\\');
    assert_eq!(connector_glyph(TilePosition::new(-1, 1)), '/');
    assert_eq!(connector_glyph(TilePosition::new(1, -1)), '/');
}

#[test]
fn connector_lies_halfway_to_the_next_glyph() {
    let tp = TilePosition::new(3, 2);
    assert_eq!(
        connector_of(tp, RelativeDirection::UpRight),
        Some(Connector { x: 5, y: 5, glyph: '/' })
    );
    assert_eq!(
        connector_of(tp, RelativeDirection::Up),
        Some(Connector { x: 4, y: 5, glyph: '|' })
    );
    assert_eq!(
        connector_of(tp, RelativeDirection::Left),
        Some(Connector { x: 3, y: 6, glyph: '-' })
    );
    assert_eq!(
        connector_of(tp, RelativeDirection::Right),
        Some(Connector { x: 5, y: 6, glyph: '-' })
    );
    assert_eq!(
        connector_of(tp, RelativeDirection::Down),
        Some(Connector { x: 4, y: 7, glyph: '|' })
    );
    assert_eq!(
        connector_of(tp, RelativeDirection::DownRight),
        Some(Connector { x: 5, y: 7, glyph: '\\' })
    );
    assert_eq!(
        connector_of(tp, RelativeDirection::DownLeft),
        Some(Connector { x: 3, y: 7, glyph: '/' })
    );
    assert_eq!(
        connector_of(tp, RelativeDirection::UpLeft),
        Some(Connector { x: 3, y: 5, glyph: '\\' })
    );
}

#[test]
fn connectors_at_the_corners_of_the_board() {
    assert_eq!(
        connector_of(TilePosition::new(0, 0), RelativeDirection::DownRight),
        Some(Connector { x: 1, y: 1, glyph: '\\' })
    );
    assert_eq!(
        connector_of(TilePosition::new(5, 7), RelativeDirection::UpLeft),
        Some(Connector { x: 13, y: 9, glyph: '\\' })
    );
    assert_eq!(
        connector_of(TilePosition::new(5, 0), RelativeDirection::UpRight),
        Some(Connector { x: 1, y: 9, glyph: '/' })
    );
}

#[test]
fn crossing_turns_a_diagonal_into_a_cross() {
    assert_eq!(resolve_crossing(Some('/'), '\\'), 'X');
    assert_eq!(resolve_crossing(Some('\\'), '/'), 'X');
    assert_eq!(resolve_crossing(Some('/'), '-'), 'X');
    assert_eq!(resolve_crossing(Some('\\'), '|'), 'X');
}

#[test]
fn crossing_keeps_the_glyph_elsewhere() {
    assert_eq!(resolve_crossing(Some(' '), '/'), '/');
    assert_eq!(resolve_crossing(Some('-'), '-'), '-');
    assert_eq!(resolve_crossing(Some('|'), '\\'), '\\');
    assert_eq!(resolve_crossing(None, '|'), '|');
    assert_eq!(resolve_crossing(Some('X'), '/'), '/');
}
