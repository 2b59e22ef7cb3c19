use vstd::prelude::*;

verus! {

/// Tile holding nothing.
pub const AREA_TILE_NOTHING: u8 = 0;

/// Tile where the player starts.
pub const AREA_TILE_PLAYER: u8 = 1;

/// Tile holding a treasure; cleared once the player walks onto it.
pub const AREA_TILE_TREASURE: u8 = 2;

/// The fixed 7x7 game area as a mathematical grid of tiles, row by row:
/// five treasure tiles and one player start tile at column 3 of the
/// bottom row.
pub open spec fn game_area_spec() -> Seq<Seq<u8>> {
    seq![
        seq![0u8, 0u8, 0u8, 0u8, 0u8, 0u8, 0u8],
        seq![0u8, 0u8, 0u8, 0u8, 2u8, 0u8, 0u8],
        seq![0u8, 0u8, 2u8, 0u8, 0u8, 0u8, 0u8],
        seq![0u8, 0u8, 0u8, 0u8, 0u8, 0u8, 2u8],
        seq![0u8, 2u8, 0u8, 0u8, 0u8, 0u8, 0u8],
        seq![0u8, 0u8, 0u8, 0u8, 2u8, 0u8, 0u8],
        seq![0u8, 0u8, 0u8, 1u8, 0u8, 0u8, 0u8],
    ]
}

/// The grid a `Vec` of rows views to: each row a `Seq` of tiles.
pub open spec fn grid_view(area: Seq<Vec<u8>>) -> Seq<Seq<u8>> {
    area.map(|i: int, row: Vec<u8>| row@)
}

/// Builds the fixed game area: always the same 7x7 layout, with five
/// treasures and the player start on the bottom row.
pub fn build_game_area() -> (area: Vec<Vec<u8>>)
    ensures
        grid_view(area@) == game_area_spec(),
{
    let area: Vec<Vec<u8>> = vec![
        vec![0u8, 0u8, 0u8, 0u8, 0u8, 0u8, 0u8],
        vec![0u8, 0u8, 0u8, 0u8, 2u8, 0u8, 0u8],
        vec![0u8, 0u8, 2u8, 0u8, 0u8, 0u8, 0u8],
        vec![0u8, 0u8, 0u8, 0u8, 0u8, 0u8, 2u8],
        vec![0u8, 2u8, 0u8, 0u8, 0u8, 0u8, 0u8],
        vec![0u8, 0u8, 0u8, 0u8, 2u8, 0u8, 0u8],
        vec![0u8, 0u8, 0u8, 1u8, 0u8, 0u8, 0u8],
    ];
    proof {
        assert(grid_view(area@) =~= game_area_spec());
    }
    area
}

} // verus!
