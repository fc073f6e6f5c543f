use vstd::prelude::*;

use crate::player::Position;

verus! {

/// The spawn points of the playing field, in the order in which a fresh pool
/// lists them. All lie 0.2 above the floor.
pub open spec fn spawn_table() -> Seq<Position> {
    seq![
        Position { x: 0xc0fc_cccd, y: 0x3e4c_cccd, z: 0xc0c0_0000 },
        Position { x: 0x4079_999a, y: 0x3e4c_cccd, z: 0xc0c9_999a },
        Position { x: 0x4118_0000, y: 0x3e4c_cccd, z: 0xc0d6_6666 },
        Position { x: 0x4111_999a, y: 0x3e4c_cccd, z: 0x4128_0000 },
        Position { x: 0xc0c3_3333, y: 0x3e4c_cccd, z: 0x4123_3333 },
        Position { x: 0xc0a6_6666, y: 0x3e4c_cccd, z: 0x400c_cccd },
        Position { x: 0x3ff3_3333, y: 0x3e4c_cccd, z: 0xbfb3_3333 },
        Position { x: 0x3e4c_cccd, y: 0x3e4c_cccd, z: 0xc006_6666 },
        Position { x: 0xc006_6666, y: 0x3e4c_cccd, z: 0x40c6_6666 },
        Position { x: 0x4040_0000, y: 0x3e4c_cccd, z: 0x4073_3333 },
    ]
}

/// A fresh pool of spawn points.
pub fn get_spawn_positions() -> (pool: Vec<Position>)
    ensures
        pool@ == spawn_table(),
{
    let mut pool: Vec<Position> = Vec::new();
    // (-7.9, -6.0)
    pool.push(Position { x: 0xc0fc_cccd, y: 0x3e4c_cccd, z: 0xc0c0_0000 });
    // (3.9, -6.3)
    pool.push(Position { x: 0x4079_999a, y: 0x3e4c_cccd, z: 0xc0c9_999a });
    // (9.5, -6.7)
    pool.push(Position { x: 0x4118_0000, y: 0x3e4c_cccd, z: 0xc0d6_6666 });
    // (9.1, 10.5)
    pool.push(Position { x: 0x4111_999a, y: 0x3e4c_cccd, z: 0x4128_0000 });
    // (-6.1, 10.2)
    pool.push(Position { x: 0xc0c3_3333, y: 0x3e4c_cccd, z: 0x4123_3333 });
    // (-5.2, 2.2)
    pool.push(Position { x: 0xc0a6_6666, y: 0x3e4c_cccd, z: 0x400c_cccd });
    // (1.9, -1.4)
    pool.push(Position { x: 0x3ff3_3333, y: 0x3e4c_cccd, z: 0xbfb3_3333 });
    // (0.2, -2.1)
    pool.push(Position { x: 0x3e4c_cccd, y: 0x3e4c_cccd, z: 0xc006_6666 });
    // (-2.1, 6.2)
    pool.push(Position { x: 0xc006_6666, y: 0x3e4c_cccd, z: 0x40c6_6666 });
    // (3.0, 3.8)
    pool.push(Position { x: 0x4040_0000, y: 0x3e4c_cccd, z: 0x4073_3333 });
    pool
}

} // verus!
