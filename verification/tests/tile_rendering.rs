//! Tests of the tile colour scheme used by the graphical presentation:
//! the colour table itself is presentation-side, so it is mirrored here
//! and held against the map's terrain data.

use sl_gem::Cell;
use sl_gem::CellType;
use sl_gem::GameMap;
use sl_gem::MapPosition;

// The presentation layer's tile colour rule: plain tiles alternate red and
// green by coordinate parity, every other terrain has a fixed colour.
fn mock_tile_color(cell_type: CellType, x: i32, y: i32) -> [f32; 4] {
    let parity = (x + y) % 2;
    match cell_type {
        CellType::Plain => {
            if parity == 0 {
                [1.0, 0.0, 0.0, 1.0]
            } else {
                [0.0, 1.0, 0.0, 1.0]
            }
        }
        CellType::Forest => [0.0, 0.6, 0.0, 1.0],
        CellType::Mountain => [0.5, 0.3, 0.0, 1.0],
        CellType::Water => [0.0, 0.0, 0.8, 1.0],
        CellType::Road => [0.7, 0.7, 0.0, 1.0],
        CellType::City => [0.7, 0.7, 0.7, 1.0],
        CellType::Base => [0.8, 0.0, 0.8, 1.0],
    }
}

#[test]
fn test_tile_color_calculation() {
    let color = mock_tile_color(CellType::Plain, 0, 0);
    assert_eq!(color, [1.0, 0.0, 0.0, 1.0]);

    let color = mock_tile_color(CellType::Plain, 0, 1);
    assert_eq!(color, [0.0, 1.0, 0.0, 1.0]);

    let color = mock_tile_color(CellType::Forest, 0, 0);
    assert_eq!(color, [0.0, 0.6, 0.0, 1.0]);

    let color = mock_tile_color(CellType::Mountain, 0, 0);
    assert_eq!(color, [0.5, 0.3, 0.0, 1.0]);

    let color = mock_tile_color(CellType::Water, 0, 0);
    assert_eq!(color, [0.0, 0.0, 0.8, 1.0]);

    let color = mock_tile_color(CellType::Road, 0, 0);
    assert_eq!(color, [0.7, 0.7, 0.0, 1.0]);

    let color = mock_tile_color(CellType::City, 0, 0);
    assert_eq!(color, [0.7, 0.7, 0.7, 1.0]);

    let color = mock_tile_color(CellType::Base, 0, 0);
    assert_eq!(color, [0.8, 0.0, 0.8, 1.0]);
}

#[test]
fn test_parity_checker() {
    assert_eq!((0 + 0) % 2, 0);
    assert_eq!((1 + 1) % 2, 0);
    assert_eq!((2 + 0) % 2, 0);

    assert_eq!((0 + 1) % 2, 1);
    assert_eq!((1 + 0) % 2, 1);
    assert_eq!((2 + 1) % 2, 1);

    // Negative coordinates: Rust's % keeps the dividend's sign.
    assert_eq!((-1 + 0) % 2, -1);
    assert_eq!((0 + -1) % 2, -1);
    assert_eq!((-1 + -1) % 2, 0);
}

#[test]
fn test_rust_modulo_behavior() {
    assert_eq!(-1 % 2, -1);
    assert_eq!(-2 % 2, 0);
    assert_eq!(-3 % 2, -1);

    assert_eq!((-1i32).rem_euclid(2), 1);
    assert_eq!((-2i32).rem_euclid(2), 0);
    assert_eq!((-3i32).rem_euclid(2), 1);
}

#[test]
fn test_tile_distribution() {
    let mut map = GameMap::new(4, 4);

    map.set_cell(MapPosition::new(0, 0), Cell::new(CellType::Plain));
    map.set_cell(MapPosition::new(0, 1), Cell::new(CellType::Plain));
    map.set_cell(MapPosition::new(1, 0), Cell::new(CellType::Forest));
    map.set_cell(MapPosition::new(1, 1), Cell::new(CellType::Mountain));
    map.set_cell(MapPosition::new(2, 0), Cell::new(CellType::Water));
    map.set_cell(MapPosition::new(2, 1), Cell::new(CellType::Road));
    map.set_cell(MapPosition::new(3, 0), Cell::new(CellType::City));
    map.set_cell(MapPosition::new(3, 1), Cell::new(CellType::Base));

    assert_eq!(
        map.get_cell(&MapPosition::new(0, 0)).unwrap().cell_type,
        CellType::Plain
    );
    assert_eq!(
        map.get_cell(&MapPosition::new(0, 1)).unwrap().cell_type,
        CellType::Plain
    );
    assert_eq!(
        map.get_cell(&MapPosition::new(1, 0)).unwrap().cell_type,
        CellType::Forest
    );
    assert_eq!(
        map.get_cell(&MapPosition::new(1, 1)).unwrap().cell_type,
        CellType::Mountain
    );
    assert_eq!(
        map.get_cell(&MapPosition::new(2, 0)).unwrap().cell_type,
        CellType::Water
    );
    assert_eq!(
        map.get_cell(&MapPosition::new(2, 1)).unwrap().cell_type,
        CellType::Road
    );
    assert_eq!(
        map.get_cell(&MapPosition::new(3, 0)).unwrap().cell_type,
        CellType::City
    );
    assert_eq!(
        map.get_cell(&MapPosition::new(3, 1)).unwrap().cell_type,
        CellType::Base
    );
}
