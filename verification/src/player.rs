use vstd::prelude::*;

verus! {

/// A point of the playing field.
///
/// The state machine stores and forwards coordinates and never computes with
/// them, so each one is kept as the 32 bits of its single-precision encoding
/// (what `to_bits` gives and `from_bits` takes back).
#[derive(Debug, Clone, Copy, PartialEq, Eq, Structural)]
pub struct Position {
    pub x: u32,
    pub y: u32,
    pub z: u32,
}

impl Position {
    pub fn new(x: u32, y: u32, z: u32) -> (p: Self)
        ensures
            p.x == x,
            p.y == y,
            p.z == z,
    {
        Self { x, y, z }
    }

    /// The origin: all three coordinates are positive zero.
    pub open spec fn origin() -> Position {
        Position { x: 0, y: 0, z: 0 }
    }
}

impl Default for Position {
    fn default() -> (p: Self)
        ensures
            p == Position::origin(),
    {
        Self { x: 0, y: 0, z: 0 }
    }
}

/// One participant of the match, as the server knows it.
#[derive(Debug, PartialEq)]
pub struct Players {
    pub name: String,
    /// Identifier inside the match, handed out by the server in order.
    pub id: u8,
    /// Session identifier of the transport. Not the same space as `id`.
    pub client_id: u64,
    pub position: Position,
    /// Look delta as the client last reported it, two encoded coordinates.
    pub vision: (u32, u32),
    pub lives: u8,
}

/// What a [`Players`] record says, with the name as its characters.
pub struct PlayersView {
    pub name: Seq<char>,
    pub id: u8,
    pub client_id: u64,
    pub position: Position,
    pub vision: (u32, u32),
    pub lives: u8,
}

impl View for Players {
    type V = PlayersView;

    open spec fn view(&self) -> PlayersView {
        PlayersView {
            name: self.name@,
            id: self.id,
            client_id: self.client_id,
            position: self.position,
            vision: self.vision,
            lives: self.lives,
        }
    }
}

impl Players {
    /// A record with full lives.
    pub fn new(name: String, id: u8, position: Position, vision: (u32, u32), client_id: u64) -> (p:
        Self)
        ensures
            p@ == (PlayersView {
                name: name@,
                id,
                client_id,
                position,
                vision,
                lives: crate::constant::NBR_OF_LIVES,
            }),
    {
        Self { name, id, position, vision, client_id, lives: crate::constant::NBR_OF_LIVES }
    }
}

impl Clone for Players {
    fn clone(&self) -> (p: Self)
        ensures
            p == *self,
    {
        Self {
            name: self.name.clone(),
            id: self.id,
            client_id: self.client_id,
            position: self.position,
            vision: self.vision,
            lives: self.lives,
        }
    }
}

} // verus!
