use std::cell::Cell;

use noise::{HybridMulti, NoiseFn, Perlin};
use voxel_sandbox::args::{handle_args, GameArgs};
use voxel_sandbox::level::{ColumnHeightCache, MainLevel, VoxelClassifier};
use voxel_sandbox::player::{is_valid_hit, CursorRay, PlayerCursor, RayHit, VoxelEdit, VoxelPos};
use voxel_sandbox::voxels::{Voxel, MOSS, STONE, WATER};

fn pos(x: i32, y: i32, z: i32) -> VoxelPos {
    VoxelPos { x, y, z }
}

fn hit(p: VoxelPos, n: VoxelPos) -> RayHit {
    RayHit { position: p, normal: Some(n) }
}

fn strings(items: &[&str]) -> Vec<String> {
    items.iter().map(|s| s.to_string()).collect()
}

fn surface_of(x: i32, z: i32) -> i64 {
    (x as i64) * 3 - (z as i64)
}

#[test]
fn classify_is_deterministic() {
    let mut a = VoxelClassifier::new();
    let r1 = a.classify(4, 5, 2, || surface_of(4, 2));
    let r2 = a.classify(4, 5, 2, || surface_of(4, 2));
    let mut fresh = VoxelClassifier::new();
    let r3 = fresh.classify(4, 5, 2, || surface_of(4, 2));
    assert_eq!(r1, r2);
    assert_eq!(r1, r3);
    assert_eq!(r1, Voxel::Solid(MOSS));
}

#[test]
fn below_surface_is_moss_and_at_surface_is_air() {
    let mut c = VoxelClassifier::new();
    assert_eq!(c.classify(0, 6, 0, || 7), Voxel::Solid(MOSS));
    assert_eq!(c.classify(0, 7, 0, || 7), Voxel::Air);
    assert_eq!(c.classify(0, 100, 0, || 7), Voxel::Air);
    assert_eq!(c.classify(0, i32::MIN, 0, || 7), Voxel::Solid(MOSS));
}

#[test]
fn cache_does_not_change_results() {
    let positions = [(1, 2, 3), (1, 0, 3), (-5, -20, 8), (1, 2, 3), (0, 0, 0), (-5, -16, 8)];
    let mut cached = VoxelClassifier::new();
    for &(x, y, z) in positions.iter() {
        let with_cache = cached.classify(x, y, z, || surface_of(x, z));
        let mut cleared = VoxelClassifier::new();
        let without_cache = cleared.classify(x, y, z, || surface_of(x, z));
        assert_eq!(with_cache, without_cache);
    }
}

#[test]
fn column_computed_once_per_column() {
    let calls = Cell::new(0u32);
    let mut c = VoxelClassifier::new();
    for y in -10..10 {
        c.classify(3, y, -4, || {
            calls.set(calls.get() + 1);
            surface_of(3, -4)
        });
    }
    assert_eq!(calls.get(), 1);
    c.classify(3, 0, -5, || {
        calls.set(calls.get() + 1);
        surface_of(3, -5)
    });
    assert_eq!(calls.get(), 2);
}

#[test]
fn cached_value_is_kept_over_a_new_computation() {
    let mut cache = ColumnHeightCache::new();
    assert_eq!(cache.get(1, 1), None);
    assert_eq!(cache.get_or_compute(1, 1, || 42), 42);
    assert_eq!(cache.get_or_compute(1, 1, || -3), 42);
    assert_eq!(cache.get(1, 1), Some(42));
    assert_eq!(cache.get(1, -1), None);
}

#[test]
fn cache_size_never_decreases() {
    let mut cache = ColumnHeightCache::new();
    assert_eq!(cache.len(), 0);
    let columns = [(0, 0), (0, 1), (0, 0), (i32::MAX, i32::MIN), (i32::MIN, i32::MAX), (0, 1)];
    let mut last = 0usize;
    for &(x, z) in columns.iter() {
        cache.get_or_compute(x, z, || 1);
        assert!(cache.len() >= last);
        last = cache.len();
    }
    assert_eq!(cache.len(), 4);
}

#[test]
fn extreme_columns_are_distinct() {
    let mut cache = ColumnHeightCache::new();
    cache.get_or_compute(i32::MIN, i32::MIN, || 1);
    cache.get_or_compute(i32::MAX, i32::MAX, || 2);
    cache.get_or_compute(i32::MIN, i32::MAX, || 3);
    cache.get_or_compute(i32::MAX, i32::MIN, || 4);
    assert_eq!(cache.get(i32::MIN, i32::MIN), Some(1));
    assert_eq!(cache.get(i32::MAX, i32::MAX), Some(2));
    assert_eq!(cache.get(i32::MIN, i32::MAX), Some(3));
    assert_eq!(cache.get(i32::MAX, i32::MIN), Some(4));
}

#[test]
fn miss_keeps_previous_target() {
    let mut cursor = PlayerCursor::new();
    cursor.update_target(Some(hit(pos(1, 1, 1), pos(0, 0, 1))));
    assert_eq!(cursor.voxel_pos, pos(1, 1, 2));
    cursor.update_target(None);
    assert_eq!(cursor.voxel_pos, pos(1, 1, 2));
}

#[test]
fn hit_targets_adjacent_cell_and_click_places_stone() {
    let mut cursor = PlayerCursor::new();
    cursor.update_target(Some(hit(pos(2, 5, 2), pos(0, 1, 0))));
    assert_eq!(cursor.voxel_pos, pos(2, 6, 2));
    let edits: Vec<VoxelEdit> = cursor.click_edit(true).into_iter().collect();
    assert_eq!(
        edits,
        vec![VoxelEdit { position: pos(2, 6, 2), voxel: Voxel::Solid(STONE) }]
    );
    assert_eq!(cursor.click_edit(false), None);
}

#[test]
fn cursor_starts_below_the_world() {
    assert_eq!(PlayerCursor::new().voxel_pos, pos(0, -10, 0));
}

#[test]
fn cursor_moves_apply_in_order_and_stop_without_ray() {
    let mut cursor = PlayerCursor::new();
    let rays = vec![
        CursorRay::Hit(hit(pos(0, 0, 0), pos(-1, 0, 0))),
        CursorRay::Miss,
        CursorRay::Hit(hit(pos(3, 4, 5), pos(0, 0, -1))),
        CursorRay::Miss,
    ];
    cursor.apply_cursor_moves(&rays);
    assert_eq!(cursor.voxel_pos, pos(3, 4, 4));

    let mut stopped = PlayerCursor::new();
    let rays = vec![
        CursorRay::Hit(hit(pos(7, 7, 7), pos(0, 1, 0))),
        CursorRay::NoRay,
        CursorRay::Hit(hit(pos(3, 4, 5), pos(0, 0, -1))),
    ];
    stopped.apply_cursor_moves(&rays);
    assert_eq!(stopped.voxel_pos, pos(7, 8, 7));

    let mut untouched = PlayerCursor::new();
    untouched.apply_cursor_moves(&vec![CursorRay::Miss, CursorRay::Miss]);
    assert_eq!(untouched.voxel_pos, pos(0, -10, 0));
}

#[test]
fn edit_does_not_touch_classification() {
    let mut c = VoxelClassifier::new();
    let before = c.classify(2, 6, 2, || 5);
    assert_eq!(before, Voxel::Air);
    let mut cursor = PlayerCursor::new();
    cursor.update_target(Some(hit(pos(2, 5, 2), pos(0, 1, 0))));
    let edit = cursor.click_edit(true).unwrap();
    assert_eq!(edit.position, pos(2, 6, 2));
    assert_eq!(c.cache.len(), 1);
    assert_eq!(c.cache.get(2, 2), Some(5));
    let after = c.classify(2, 6, 2, || 100);
    assert_eq!(after, before);
}

#[test]
fn texture_table_with_fallback() {
    assert_eq!(MainLevel.texture_index_mapper(MOSS), [0, 2, 1]);
    assert_eq!(MainLevel.texture_index_mapper(STONE), [1, 1, 1]);
    assert_eq!(MainLevel.texture_index_mapper(WATER), [3, 3, 3]);
    assert_eq!(MainLevel.texture_index_mapper(200), [3, 3, 3]);
}

#[test]
fn level_settings() {
    assert_eq!(MainLevel.spawning_distance(), 5);
    assert_eq!(MainLevel.voxel_texture(), Some(("voxels.png".to_string(), 4)));
}

#[test]
fn default_render_distance() {
    assert_eq!(GameArgs::default().render_distance, 10);
    assert_eq!(handle_args(&strings(&["game"])).render_distance, 10);
    assert_eq!(handle_args(&Vec::new()).render_distance, 10);
}

#[test]
fn render_distance_from_arguments() {
    assert_eq!(handle_args(&strings(&["game", "render_distance", "7"])).render_distance, 7);
    assert_eq!(handle_args(&strings(&["game", "render_distance", "+12"])).render_distance, 12);
    assert_eq!(
        handle_args(&strings(&["render_distance", "3", "x", "render_distance", "20"]))
            .render_distance,
        20
    );
    assert_eq!(
        handle_args(&strings(&["render_distance", "4294967295"])).render_distance,
        u32::MAX
    );
}

#[test]
fn unreadable_render_distance_is_ignored() {
    assert_eq!(handle_args(&strings(&["render_distance", "abc"])).render_distance, 10);
    assert_eq!(handle_args(&strings(&["render_distance", "-1"])).render_distance, 10);
    assert_eq!(handle_args(&strings(&["render_distance", "4294967296"])).render_distance, 10);
    assert_eq!(handle_args(&strings(&["render_distance", " 5"])).render_distance, 10);
    assert_eq!(handle_args(&strings(&["render_distance", "+"])).render_distance, 10);
    assert_eq!(handle_args(&strings(&["render_distance", "8", "render_distance"])).render_distance, 8);
    assert_eq!(handle_args(&strings(&["render_distance"])).render_distance, 10);
}

#[test]
fn seeded_terrain_at_origin_is_air() {
    let mut warp = HybridMulti::<Perlin>::new(1234);
    warp.octaves = 5;
    warp.frequency = 0.1;
    warp.lacunarity = 2.8;
    warp.persistence = 0.4;
    let mut detail = HybridMulti::<Perlin>::new(1234);
    detail.octaves = 5;
    detail.frequency = 0.5;
    detail.lacunarity = 2.8;
    detail.persistence = 0.4;

    let (x, z) = (0.0f64, 0.0f64);
    let w = warp.get([x / 1000.0, z / 1000.0]);
    let height = detail.get([x * w, z * w]) * 10.0;
    assert_eq!(height, 0.0);
    let surface = height.ceil() as i64;

    let mut c = VoxelClassifier::new();
    assert_eq!(c.classify(0, 0, 0, || surface), Voxel::Air);
    assert_eq!(c.classify(0, -1, 0, || surface), Voxel::Solid(MOSS));
}

#[test]
fn hit_validity() {
    assert!(is_valid_hit(&hit(pos(2, 5, 2), pos(0, 1, 0))));
    assert!(!is_valid_hit(&RayHit { position: pos(2, 5, 2), normal: None }));
    assert!(!is_valid_hit(&hit(pos(i32::MAX, 0, 0), pos(1, 0, 0))));
    assert!(!is_valid_hit(&hit(pos(0, i32::MIN, 0), pos(0, -1, 0))));
    assert!(is_valid_hit(&hit(pos(i32::MAX, 0, 0), pos(-1, 0, 0))));
}
