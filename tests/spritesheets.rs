use spritesheets::layout::{Grid, LayoutError, LayoutNode, RenderJob};
use spritesheets::query::{
    AnimationSample, GeometryFilter, Outline, Rgb, Rgba, SceneId, Size, Weight,
};
use spritesheets::resolve::{contains_name, first_unresolved, QueryKind, SceneNames};
use spritesheets::sprites::{
    cameras_lights, compass_directions, frame_weight, generate_player_sprites, sprite_sheet_job,
    Direction,
};

fn cell32() -> Size {
    Size::new(32, 32).unwrap()
}

fn grid_of(node: &LayoutNode) -> &Grid {
    match node {
        LayoutNode::Grid(g) => g,
        _ => panic!("not a grid"),
    }
}

fn names(v: &[&str]) -> Vec<String> {
    v.iter().map(|s| s.to_string()).collect()
}

fn compass_scene() -> SceneNames {
    let cat = compass_directions();
    SceneNames {
        cameras: cat.iter().map(|d| d.camera.clone()).collect(),
        lights: cat.iter().map(|d| d.light.clone()).collect(),
    }
}

#[test]
fn grid_has_one_row_per_direction_and_one_column_per_frame() {
    let cat = vec![
        Direction::new("cam_a", "light_a"),
        Direction::new("cam_b", "light_b"),
        Direction::new("cam_c", "light_c"),
    ];
    let g = generate_player_sprites(&cat, 5, Size::new(16, 24).unwrap(), SceneId { id: 7 })
        .unwrap();
    assert_eq!(g.rows, 3);
    assert_eq!(g.cols, 5);
    assert_eq!(g.cells.len(), 15);
    for r in 0..3 {
        for c in 0..5 {
            match g.cell(r, c) {
                LayoutNode::Single(req) => {
                    assert_eq!(req.camera.name, cat[r].camera);
                    assert_eq!(req.lights.name, cat[r].light);
                    assert_eq!(req.camera.scene, SceneId { id: 7 });
                    assert_eq!(req.lights.scene, SceneId { id: 7 });
                    assert_eq!(req.animation.weight, Weight { num: c as u32, den: 5 });
                    assert_eq!(req.animation.start_ms, 0);
                    assert_eq!(req.size, Size { width: 16, height: 24 });
                }
                _ => panic!("cell is not a render"),
            }
        }
    }
}

#[test]
fn every_cell_shares_the_sprite_settings() {
    let cat = compass_directions();
    let g = generate_player_sprites(&cat, 8, cell32(), SceneId { id: 1 }).unwrap();
    for node in g.cells.iter() {
        match node {
            LayoutNode::Single(req) => {
                assert_eq!(req.background, Rgba { r: 0, g: 0, b: 0, a: 0 });
                assert_eq!(req.ambient_light, Rgb { r: 102, g: 102, b: 102 });
                assert_eq!(req.geometry, GeometryFilter::AllInDefaultScene);
                assert_eq!(req.outline, Outline { color: Rgba::black(), thickness: 0 });
            }
            _ => panic!("cell is not a render"),
        }
    }
}

#[test]
fn frame_weights_start_at_zero_increase_and_stop_short_of_one() {
    let frames: u32 = 8;
    let ws: Vec<Weight> = (0..frames).map(|c| frame_weight(c, frames)).collect();
    assert_eq!(ws[0], Weight { num: 0, den: 8 });
    assert_eq!(ws[7], Weight { num: 7, den: 8 });
    for w in ws.iter() {
        assert!(w.num < w.den);
    }
    for pair in ws.windows(2) {
        let a = pair[0].num as f64 / pair[0].den as f64;
        let b = pair[1].num as f64 / pair[1].den as f64;
        assert!(a < b);
    }
    assert_eq!(ws[0].num as f64 / ws[0].den as f64, 0.0);
    assert_eq!(ws[4].num as f64 / ws[4].den as f64, 0.5);
}

#[test]
fn weights_outside_zero_to_one_are_rejected() {
    assert_eq!(Weight::new(0, 4), Some(Weight { num: 0, den: 4 }));
    assert_eq!(Weight::new(4, 4), Some(Weight { num: 4, den: 4 }));
    assert_eq!(Weight::new(5, 4), None);
    assert_eq!(Weight::new(0, 0), None);
}

#[test]
fn rebuilding_with_another_scene_id_gives_the_same_requests() {
    let cat = compass_directions();
    let a = generate_player_sprites(&cat, 8, cell32(), SceneId { id: 1 }).unwrap();
    let b = generate_player_sprites(&cat, 8, cell32(), SceneId { id: 2 }).unwrap();
    assert_eq!((a.rows, a.cols, a.cell_size), (b.rows, b.cols, b.cell_size));
    assert_eq!(a.cells.len(), b.cells.len());
    for (x, y) in a.cells.iter().zip(b.cells.iter()) {
        match (x, y) {
            (LayoutNode::Single(p), LayoutNode::Single(q)) => {
                assert_eq!(p.camera.name, q.camera.name);
                assert_eq!(p.lights.name, q.lights.name);
                assert_eq!(p.size, q.size);
                assert_eq!(p.animation, q.animation);
                assert_eq!(p.camera.scene, SceneId { id: 1 });
                assert_eq!(q.camera.scene, SceneId { id: 2 });
            }
            _ => panic!("cell is not a render"),
        }
    }
}

#[test]
fn output_size_is_extent_times_scale() {
    let cat = vec![Direction::new("c", "l"), Direction::new("c2", "l2")];
    for scale in [1u32, 2, 3, 7] {
        let job = sprite_sheet_job(&cat, 3, Size::new(10, 20).unwrap(), scale, SceneId { id: 0 })
            .unwrap();
        assert_eq!(job.root.pixel_extent(), (30, 40));
        assert_eq!(job.output_size(), (30 * scale as u128, 40 * scale as u128));
    }
}

#[test]
fn zero_scale_is_rejected() {
    let cat = compass_directions();
    let r = sprite_sheet_job(&cat, 8, cell32(), 0, SceneId { id: 0 });
    assert_eq!(r.unwrap_err(), LayoutError::ZeroScale);
    let g = generate_player_sprites(&cat, 8, cell32(), SceneId { id: 0 }).unwrap();
    assert_eq!(RenderJob::new(0, LayoutNode::Grid(g)).unwrap_err(), LayoutError::ZeroScale);
}

#[test]
fn one_missing_camera_is_reported_at_its_row() {
    let cat = compass_directions();
    let g = generate_player_sprites(&cat, 8, cell32(), SceneId { id: 0 }).unwrap();
    let mut scene = compass_scene();
    scene.cameras.retain(|c| c != "camera_SW");
    let u = first_unresolved(&g, &scene).unwrap();
    assert_eq!(u.row, 5);
    assert_eq!(u.col, 0);
    assert_eq!(u.kind, QueryKind::Camera);
    assert_eq!(u.name, "camera_SW");
}

#[test]
fn missing_light_is_reported_after_cameras_resolve() {
    let cat = compass_directions();
    let g = generate_player_sprites(&cat, 4, cell32(), SceneId { id: 0 }).unwrap();
    let mut scene = compass_scene();
    scene.lights.retain(|l| l != "light_E");
    let u = first_unresolved(&g, &scene).unwrap();
    assert_eq!((u.row, u.col, u.kind), (2, 0, QueryKind::Light));
    assert_eq!(u.name, "light_E");
}

#[test]
fn complete_scene_resolves_every_cell() {
    let cat = compass_directions();
    let g = generate_player_sprites(&cat, 8, cell32(), SceneId { id: 0 }).unwrap();
    assert!(first_unresolved(&g, &compass_scene()).is_none());
}

#[test]
fn compass_sheet_of_eight_frames_is_1024_square() {
    let cat = compass_directions();
    assert_eq!(cat.len(), 8);
    let job = sprite_sheet_job(&cat, 8, cell32(), 4, SceneId { id: 0 }).unwrap();
    assert_eq!(job.scale, 4);
    let g = grid_of(&job.root);
    assert_eq!((g.rows, g.cols), (8, 8));
    assert_eq!(job.output_size(), (1024, 1024));
}

#[test]
fn empty_catalog_is_rejected_before_a_job_exists() {
    let r = sprite_sheet_job(&Vec::new(), 8, cell32(), 4, SceneId { id: 0 });
    assert_eq!(r.unwrap_err(), LayoutError::ZeroRows);
    let g = generate_player_sprites(&Vec::new(), 8, cell32(), SceneId { id: 0 });
    assert_eq!(g.unwrap_err(), LayoutError::ZeroRows);
}

#[test]
fn zero_frames_and_zero_cell_size_are_rejected() {
    let cat = compass_directions();
    let r = generate_player_sprites(&cat, 0, cell32(), SceneId { id: 0 });
    assert_eq!(r.unwrap_err(), LayoutError::ZeroCols);
    let r = generate_player_sprites(&cat, 8, Size { width: 0, height: 32 }, SceneId { id: 0 });
    assert_eq!(r.unwrap_err(), LayoutError::ZeroSize);
    assert_eq!(Size::new(0, 3), None);
    assert_eq!(Size::new(3, 4), Some(Size { width: 3, height: 4 }));
}

#[test]
fn compass_directions_are_clockwise_from_north() {
    let cat = compass_directions();
    let points = ["N", "NE", "E", "SE", "S", "SW", "W", "NW"];
    for (d, p) in cat.iter().zip(points.iter()) {
        assert_eq!(d.camera, format!("camera_{}", p));
        assert_eq!(d.light, format!("light_{}", p));
    }
}

#[test]
fn camera_light_pairs_follow_catalog_order() {
    let cat = vec![Direction::new("c1", "l1"), Direction::new("c2", "l2")];
    let pairs = cameras_lights(&cat, SceneId { id: 9 });
    assert_eq!(pairs.len(), 2);
    assert_eq!(pairs[0].0.name, "c1");
    assert_eq!(pairs[0].1.name, "l1");
    assert_eq!(pairs[1].0.name, "c2");
    assert_eq!(pairs[1].1.name, "l2");
    assert_eq!(pairs[1].0.scene, SceneId { id: 9 });
    assert!(cameras_lights(&Vec::new(), SceneId { id: 9 }).is_empty());
}

#[test]
fn grid_new_checks_counts_and_sizes() {
    let mk = |n: usize| (0..n).map(|_| LayoutNode::Empty).collect::<Vec<_>>();
    assert_eq!(Grid::new(0, 2, cell32(), mk(0)).unwrap_err(), LayoutError::ZeroRows);
    assert_eq!(Grid::new(2, 0, cell32(), mk(0)).unwrap_err(), LayoutError::ZeroCols);
    assert_eq!(
        Grid::new(2, 2, Size { width: 1, height: 0 }, mk(4)).unwrap_err(),
        LayoutError::ZeroSize
    );
    assert_eq!(Grid::new(2, 2, cell32(), mk(3)).unwrap_err(), LayoutError::CellCountMismatch);
    let g = Grid::new(2, 3, cell32(), mk(6)).unwrap();
    assert_eq!(g.coordinate(4), (1, 1));
    assert_eq!(g.coordinate(5), (1, 2));
}

#[test]
fn grid_from_children_infers_rows_and_pads_with_empty() {
    let cat = vec![Direction::new("c", "l")];
    let one = generate_player_sprites(&cat, 5, cell32(), SceneId { id: 0 }).unwrap();
    let g = Grid::from_children(2, cell32(), one.cells).unwrap();
    assert_eq!((g.rows, g.cols), (3, 2));
    assert_eq!(g.cells.len(), 6);
    assert!(matches!(g.cells[4], LayoutNode::Single(_)));
    assert!(matches!(g.cells[5], LayoutNode::Empty));
    let node = LayoutNode::Grid(g);
    assert_eq!(node.check(), None);
    assert_eq!(node.pixel_extent(), (64, 96));
    assert_eq!(Grid::from_children(2, cell32(), Vec::new()).unwrap_err(), LayoutError::ZeroRows);
    let two = vec![LayoutNode::Empty, LayoutNode::Empty];
    assert_eq!(Grid::from_children(0, cell32(), two).unwrap_err(), LayoutError::ZeroCols);
}

#[test]
fn malformed_root_is_rejected_by_the_job() {
    let bad = Grid { rows: 2, cols: 2, cell_size: cell32(), cells: Vec::new() };
    let r = RenderJob::new(3, LayoutNode::Grid(bad));
    assert_eq!(r.unwrap_err(), LayoutError::CellCountMismatch);
    let ok = RenderJob::new(3, LayoutNode::Empty).unwrap();
    assert_eq!(ok.output_size(), (0, 0));
}

#[test]
fn contains_name_matches_whole_names() {
    let v = names(&["camera_N", "camera_S"]);
    assert!(contains_name(&v, &"camera_S".to_string()));
    assert!(!contains_name(&v, &"camera".to_string()));
    assert!(!contains_name(&Vec::new(), &"camera_N".to_string()));
}

#[test]
fn animation_sample_holds_exact_boundary_weights() {
    let s = AnimationSample { start_ms: 0, weight: Weight::new(1, 1).unwrap() };
    assert_eq!(s.weight.num, s.weight.den);
    assert_eq!(Rgba::transparent().a, 0);
    assert_eq!(Rgb::dim_white(), Rgb { r: 102, g: 102, b: 102 });
}
