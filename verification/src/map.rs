//! The game map: a rectangular grid of terrain cells addressed by signed
//! 2D coordinates.

use std::collections::HashMap;
use vstd::prelude::*;

verus! {

broadcast use vstd::std_specs::hash::group_hash_axioms;

/// A 2D grid coordinate.
#[derive(Clone, Copy, Debug, PartialEq, Eq, Hash, Structural)]
pub struct MapPosition {
    pub x: i32,
    pub y: i32,
}

/// The historical name of `MapPosition`, kept for callers that use it.
pub type Position = MapPosition;

/// The absolute value of an integer.
pub open spec fn abs_of(a: int) -> int {
    if a < 0 {
        -a
    } else {
        a
    }
}

impl MapPosition {
    pub fn new(x: i32, y: i32) -> (r: Self)
        ensures
            r == (MapPosition { x, y }),
    {
        Self { x, y }
    }

    /// The position displaced by `(dx, dy)`.
    pub fn moved(&self, dx: i32, dy: i32) -> (r: Self)
        requires
            i32::MIN <= self.x + dx <= i32::MAX,
            i32::MIN <= self.y + dy <= i32::MAX,
        ensures
            r == (MapPosition { x: (self.x + dx) as i32, y: (self.y + dy) as i32 }),
    {
        Self { x: self.x + dx, y: self.y + dy }
    }

    /// The Manhattan distance between two positions.
    pub fn manhattan_distance(&self, other: &MapPosition) -> (r: u32)
        requires
            i32::MIN <= self.x - other.x <= i32::MAX,
            i32::MIN <= self.y - other.y <= i32::MAX,
            abs_of(self.x - other.x) + abs_of(self.y - other.y) <= i32::MAX,
        ensures
            r == abs_of(self.x - other.x) + abs_of(self.y - other.y),
    {
        let dx: i32 = self.x - other.x;
        let dy: i32 = self.y - other.y;
        let adx: i32 = if dx < 0 {
            -dx
        } else {
            dx
        };
        let ady: i32 = if dy < 0 {
            -dy
        } else {
            dy
        };
        (adx as u32) + (ady as u32)
    }
}

/// Terrain kind of one map cell.
#[derive(Clone, Copy, Debug, PartialEq, Eq, Structural)]
pub enum CellType {
    Plain,
    Forest,
    Mountain,
    Water,
    Road,
    City,
    Base,
}

/// Movement cost of each terrain kind; water is impassable.
pub open spec fn spec_movement_cost(t: CellType) -> u32 {
    match t {
        CellType::Plain => 1,
        CellType::Forest => 2,
        CellType::Mountain => 3,
        CellType::Water => u32::MAX,
        CellType::Road => 1,
        CellType::City => 1,
        CellType::Base => 1,
    }
}

/// Defensive bonus of each terrain kind, in percent.
pub open spec fn spec_defense_modifier(t: CellType) -> i32 {
    match t {
        CellType::Plain => 0,
        CellType::Forest => 20,
        CellType::Mountain => 40,
        CellType::Water => 0,
        CellType::Road => (-10) as i32,
        CellType::City => 30,
        CellType::Base => 50,
    }
}

impl CellType {
    /// Cost of moving onto this terrain; `u32::MAX` marks impassable water.
    pub fn movement_cost(&self) -> (r: u32)
        ensures
            r == spec_movement_cost(*self),
    {
        match self {
            CellType::Plain => 1,
            CellType::Forest => 2,
            CellType::Mountain => 3,
            CellType::Water => u32::MAX,
            CellType::Road => 1,
            CellType::City => 1,
            CellType::Base => 1,
        }
    }

    /// Defensive bonus granted by this terrain, in percent.
    pub fn defense_modifier(&self) -> (r: i32)
        ensures
            r == spec_defense_modifier(*self),
    {
        match self {
            CellType::Plain => 0,
            CellType::Forest => 20,
            CellType::Mountain => 40,
            CellType::Water => 0,
            CellType::Road => -10,
            CellType::City => 30,
            CellType::Base => 50,
        }
    }
}

/// One map cell: its terrain and, optionally, the faction that owns it.
#[derive(Clone, Debug, PartialEq, Eq)]
pub struct Cell {
    pub cell_type: CellType,
    pub faction_id: Option<u32>,
}

impl Cell {
    pub fn new(cell_type: CellType) -> (r: Self)
        ensures
            r == (Cell { cell_type, faction_id: None }),
    {
        Self { cell_type, faction_id: None }
    }

    pub fn with_faction(cell_type: CellType, faction_id: u32) -> (r: Self)
        ensures
            r == (Cell { cell_type, faction_id: Some(faction_id) }),
    {
        Self { cell_type, faction_id: Some(faction_id) }
    }
}

/// The key under which a position is stored: positions are valid only when
/// both coordinates are non-negative, so the pair packs injectively into one
/// integer.
pub open spec fn spec_pos_key(pos: MapPosition) -> u64 {
    (pos.x * 0x1_0000_0000 + pos.y) as u64
}

/// A rectangular game map. Cells are set sparsely: a valid position without
/// an explicit cell has no terrain yet.
#[derive(Clone, Debug)]
pub struct GameMap {
    pub width: u32,
    pub height: u32,
    cells: HashMap<u64, Cell>,
}

/// Whether `pos` lies inside a rectangle of the given extent.
pub open spec fn pos_within(width: u32, height: u32, pos: MapPosition) -> bool {
    &&& 0 <= pos.x < width
    &&& 0 <= pos.y < height
}

impl GameMap {
    /// The map rectangle's width.
    pub closed spec fn spec_width(self) -> u32 {
        self.width
    }

    /// The map rectangle's height.
    pub closed spec fn spec_height(self) -> u32 {
        self.height
    }

    /// Whether `pos` lies inside the map rectangle.
    pub open spec fn spec_valid(self, pos: MapPosition) -> bool {
        pos_within(self.spec_width(), self.spec_height(), pos)
    }

    /// The cell stored at `pos`: `None` outside the map or where no cell
    /// has been set.
    pub closed spec fn spec_cell(self, pos: MapPosition) -> Option<Cell> {
        if self.spec_valid(pos) && self.cells@.contains_key(spec_pos_key(pos)) {
            Some(self.cells@[spec_pos_key(pos)])
        } else {
            None
        }
    }

    pub fn new(width: u32, height: u32) -> (r: Self)
        ensures
            r.spec_width() == width,
            r.spec_height() == height,
            forall|q: MapPosition| r.spec_cell(q) is None,
    {
        Self { width, height, cells: HashMap::new() }
    }

    /// The map rectangle's width.
    pub fn width(&self) -> (r: u32)
        ensures
            r == self.spec_width(),
    {
        self.width
    }

    /// The map rectangle's height.
    pub fn height(&self) -> (r: u32)
        ensures
            r == self.spec_height(),
    {
        self.height
    }

    /// Stores `cell` at `pos` when `pos` is inside the map; out-of-range
    /// positions are ignored.
    pub fn set_cell(&mut self, pos: MapPosition, cell: Cell)
        ensures
            final(self).spec_width() == old(self).spec_width(),
            final(self).spec_height() == old(self).spec_height(),
            old(self).spec_valid(pos) ==> final(self).spec_cell(pos) == Some(cell),
            forall|q: MapPosition|
                q != pos ==> final(self).spec_cell(q) == old(self).spec_cell(q),
            !old(self).spec_valid(pos) ==> final(self).spec_cell(pos) == old(self).spec_cell(
                pos,
            ),
    {
        if self.is_valid_position(&pos) {
            let key: u64 = pos_key(&pos);
            self.cells.insert(key, cell);
            proof {
                assert forall|q: MapPosition|
                    q != pos implies #[trigger] self.spec_cell(q) == old(self).spec_cell(q) by {
                    if self.spec_valid(q) {
                        lemma_pos_key_injective(pos, q);
                    }
                }
            }
        }
    }

    /// The cell at `pos`, or `None` outside the map or where no cell has
    /// been set.
    pub fn get_cell(&self, pos: &MapPosition) -> (r: Option<&Cell>)
        ensures
            match r {
                Some(c) => self.spec_cell(*pos) == Some(*c),
                None => self.spec_cell(*pos) is None,
            },
    {
        if self.is_valid_position(pos) {
            let key: u64 = pos_key(pos);
            self.cells.get(&key)
        } else {
            None
        }
    }

    /// Whether `pos` lies inside the map rectangle.
    pub fn is_valid_position(&self, pos: &MapPosition) -> (r: bool)
        ensures
            r == self.spec_valid(*pos),
    {
        pos.x >= 0 && pos.y >= 0 && (pos.x as i64) < (self.width as i64) && (pos.y as i64) < (
        self.height as i64)
    }

    /// The in-map neighbours of `pos`, in the order above, right, below,
    /// left.
    pub open spec fn spec_adjacent(self, pos: MapPosition) -> Seq<MapPosition> {
        let up = MapPosition { x: pos.x, y: (pos.y - 1) as i32 };
        let right = MapPosition { x: (pos.x + 1) as i32, y: pos.y };
        let down = MapPosition { x: pos.x, y: (pos.y + 1) as i32 };
        let left = MapPosition { x: (pos.x - 1) as i32, y: pos.y };
        (if self.spec_valid(up) {
            seq![up]
        } else {
            Seq::empty()
        }) + (if self.spec_valid(right) {
            seq![right]
        } else {
            Seq::empty()
        }) + (if self.spec_valid(down) {
            seq![down]
        } else {
            Seq::empty()
        }) + (if self.spec_valid(left) {
            seq![left]
        } else {
            Seq::empty()
        })
    }

    /// The positions adjacent to `pos` (above, right, below, left) that lie
    /// inside the map.
    pub fn get_adjacent_positions(&self, pos: &MapPosition) -> (r: Vec<MapPosition>)
        requires
            i32::MIN < pos.x < i32::MAX,
            i32::MIN < pos.y < i32::MAX,
        ensures
            r@ == self.spec_adjacent(*pos),
    {
        let mut result: Vec<MapPosition> = Vec::new();
        let up = pos.moved(0, -1);
        let right = pos.moved(1, 0);
        let down = pos.moved(0, 1);
        let left = pos.moved(-1, 0);
        if self.is_valid_position(&up) {
            result.push(up);
        }
        if self.is_valid_position(&right) {
            result.push(right);
        }
        if self.is_valid_position(&down) {
            result.push(down);
        }
        if self.is_valid_position(&left) {
            result.push(left);
        }
        proof {
            assert(result@ =~= self.spec_adjacent(*pos));
        }
        result
    }
}

/// The storage key of a valid position.
fn pos_key(pos: &MapPosition) -> (r: u64)
    requires
        pos.x >= 0,
        pos.y >= 0,
    ensures
        r == spec_pos_key(*pos),
{
    (pos.x as u64) * 0x1_0000_0000 + (pos.y as u64)
}

/// Distinct valid positions pack to distinct keys.
proof fn lemma_pos_key_injective(p: MapPosition, q: MapPosition)
    requires
        0 <= p.x,
        0 <= p.y < 0x1_0000_0000,
        0 <= q.x,
        0 <= q.y < 0x1_0000_0000,
        p != q,
    ensures
        spec_pos_key(p) != spec_pos_key(q),
{
    assert(p.x * 0x1_0000_0000 + p.y != q.x * 0x1_0000_0000 + q.y) by (nonlinear_arith)
        requires
            0 <= p.x,
            0 <= p.y < 0x1_0000_0000,
            0 <= q.x,
            0 <= q.y < 0x1_0000_0000,
            p.x != q.x || p.y != q.y,
    ;
}

} // verus!
