use glwrap::shape::{cube_corner_high, cube_indices, cube_vertex_corners, tile_cells, tileset_uv_offset};
use glwrap::texture::{check_max_texture_image_units, Texture2D, TextureBinding};

#[test]
fn unit_check_only_with_a_limit() {
    assert!(check_max_texture_image_units(0, Some(16)));
    assert!(check_max_texture_image_units(15, Some(16)));
    assert!(!check_max_texture_image_units(16, Some(16)));
    assert!(!check_max_texture_image_units(40, Some(16)));
    assert!(check_max_texture_image_units(40, None));
    assert!(check_max_texture_image_units(u32::MAX, None));
}

#[test]
fn bind_names_unit_and_texture() {
    let t = Texture2D { id: 6 };
    assert_eq!(t.bind(3, Some(16)), TextureBinding { unit: 3, texture: 6 });
    assert_eq!(t.bind(99, None), TextureBinding { unit: 99, texture: 6 });
}

#[test]
fn cube_tables() {
    assert_eq!(
        cube_vertex_corners(),
        vec![0, 1, 2, 3, 4, 0, 6, 2, 5, 4, 7, 6, 1, 5, 3, 7, 5, 1, 4, 0, 3, 7, 2, 6]
    );
    assert_eq!(
        cube_indices(),
        vec![
            0, 1, 2, 1, 3, 2, 4, 5, 6, 5, 7, 6, 8, 9, 10, 9, 11, 10, 12, 13, 14, 13, 15, 14, 16,
            17, 18, 17, 19, 18, 20, 21, 22, 21, 23, 22
        ]
    );
}

#[test]
fn tiles_row_after_row() {
    assert_eq!(tile_cells(3, 2), vec![(0, 0), (1, 0), (2, 0), (0, 1), (1, 1), (2, 1)]);
    assert_eq!(tile_cells(0, 5), Vec::<(u32, u32)>::new());
    assert_eq!(tile_cells(4, 0), Vec::<(u32, u32)>::new());
}

#[test]
fn uv_offset_follows_positions() {
    assert_eq!(tileset_uv_offset(0), 0);
    assert_eq!(tileset_uv_offset(1), 48);
    assert_eq!(tileset_uv_offset(6), 288);
}

#[test]
fn cube_corner_coordinates() {
    assert_eq!(cube_corner_high(0), (true, true, true));
    assert_eq!(cube_corner_high(1), (true, true, false));
    assert_eq!(cube_corner_high(2), (true, false, true));
    assert_eq!(cube_corner_high(3), (true, false, false));
    assert_eq!(cube_corner_high(5), (false, true, false));
    assert_eq!(cube_corner_high(7), (false, false, false));
}
