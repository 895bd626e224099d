use vstd::prelude::*;

verus! {

/// For each face of a cube, the four corners copied into the vertex
/// buffer; corners are not shared between faces so that each face keeps
/// its own vertices. Corners are numbered as `cube_corner_high` reads them.
pub open spec fn cube_corner_seq() -> Seq<usize> {
    seq![0, 1, 2, 3, 4, 0, 6, 2, 5, 4, 7, 6, 1, 5, 3, 7, 5, 1, 4, 0, 3, 7, 2, 6]
}

/// The two triangles of a face, as offsets into its four vertices.
pub open spec fn quad_triangles() -> Seq<int> {
    seq![0, 1, 2, 1, 3, 2]
}

/// Index `i` of the cube's element buffer: six per face, four vertices on.
pub open spec fn cube_index(i: int) -> int {
    4 * (i / 6) + quad_triangles()[i % 6]
}

/// Which of x, y and z take the high value (offset plus edge length) at
/// corner `c` of the cube; the others take the low value (the offset).
pub fn cube_corner_high(c: usize) -> (r: (bool, bool, bool))
    requires
        c < 8,
    ensures
        r == (c < 4, c % 4 < 2, c % 2 == 0),
{
    (c < 4, c % 4 < 2, c % 2 == 0)
}

/// The corner of each of the cube's 24 vertices, face after face.
pub fn cube_vertex_corners() -> (r: Vec<usize>)
    ensures
        r@ == cube_corner_seq(),
        forall|i: int| 0 <= i < r@.len() ==> r@[i] < 8,
{
    let r: Vec<usize> = vec![0, 1, 2, 3, 4, 0, 6, 2, 5, 4, 7, 6, 1, 5, 3, 7, 5, 1, 4, 0, 3, 7, 2, 6];
    assert(r@ =~= cube_corner_seq());
    r
}

/// The cube's element buffer: two triangles for each of its six faces.
pub fn cube_indices() -> (r: Vec<u8>)
    ensures
        r@.len() == 36,
        forall|i: int| 0 <= i < 36 ==> r@[i] as int == cube_index(i),
{
    let quad: [u8; 6] = [0, 1, 2, 1, 3, 2];
    assert(quad@ =~= quad_triangles().map_values(|x: int| x as u8));
    let mut r: Vec<u8> = Vec::new();
    let mut f: u8 = 0;
    while f < 6
        invariant
            f <= 6,
            r@.len() == 6 * f,
            quad@ == quad_triangles().map_values(|x: int| x as u8),
            forall|i: int| 0 <= i < 6 * f ==> r@[i] as int == cube_index(i),
        decreases 6 - f,
    {
        let mut k: usize = 0;
        while k < 6
            invariant
                f < 6,
                k <= 6,
                r@.len() == 6 * f + k,
                quad@ == quad_triangles().map_values(|x: int| x as u8),
                forall|i: int| 0 <= i < 6 * f + k ==> r@[i] as int == cube_index(i),
            decreases 6 - k,
        {
            assert(quad@[k as int] as int == quad_triangles()[k as int]);
            r.push(4 * f + quad[k]);
            proof {
                let i = 6 * f + k;
                assert(i / 6 == f as int && i % 6 == k as int) by (nonlinear_arith)
                    requires
                        i == 6 * f + k,
                        0 <= k < 6,
                        0 <= f,
                ;
            }
            k = k + 1;
        }
        f = f + 1;
    }
    r
}

/// The grid cell of tile `i` in a tileset `width` tiles wide: column
/// `i % width`, row `i / width`.
pub open spec fn tile_cell(i: int, width: int) -> (int, int) {
    (i % width, i / width)
}

/// The cell of each tile of a `tiles_width` by `tiles_height` tileset, row
/// after row.
pub fn tile_cells(tiles_width: u32, tiles_height: u32) -> (r: Vec<(u32, u32)>)
    requires
        tiles_width * tiles_height <= u32::MAX,
    ensures
        r@.len() == tiles_width * tiles_height,
        forall|i: int|
            0 <= i < r@.len() ==> (r@[i].0 as int, r@[i].1 as int) == tile_cell(
                i,
                tiles_width as int,
            ),
{
    let num_tiles: u32 = tiles_width * tiles_height;
    let mut r: Vec<(u32, u32)> = Vec::new();
    let mut i: u32 = 0;
    while i < num_tiles
        invariant
            num_tiles == tiles_width * tiles_height,
            i <= num_tiles,
            r@.len() == i,
            forall|j: int|
                0 <= j < i ==> (r@[j].0 as int, r@[j].1 as int) == tile_cell(j, tiles_width as int),
        decreases num_tiles - i,
    {
        assert(tiles_width > 0) by (nonlinear_arith)
            requires
                i < num_tiles,
                num_tiles == tiles_width * tiles_height,
        ;
        r.push((i % tiles_width, i / tiles_width));
        i = i + 1;
    }
    r
}

/// Byte offset of the texture coordinates in a tileset's vertex buffer:
/// they follow the positions of all tiles, six vertices of two 4-byte
/// components per tile.
pub fn tileset_uv_offset(num_tiles: u32) -> (r: usize)
    requires
        num_tiles * 48 <= usize::MAX,
    ensures
        r == num_tiles * 48,
{
    num_tiles as usize * 4 * 2 * 6
}

} // verus!
