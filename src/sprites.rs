//! Expanding a catalog of view directions and a frame count into a grid of
//! sprite renders: one row per direction, one column per animation frame.
use vstd::prelude::*;
use crate::layout::{Grid, LayoutError, LayoutNode, RenderJob};
use crate::query::{
    AnimationSample,
    CameraQuery,
    GeometryFilter,
    LightQuery,
    Outline,
    RenderRequest,
    Rgb,
    Rgba,
    SceneId,
    Size,
    Weight,
};

verus! {

/// One view direction: the camera to look through and the light to light by,
/// both named as in the scene.
#[derive(Debug)]
pub struct Direction {
    pub camera: String,
    pub light: String,
}

impl Direction {
    pub fn new(camera: &str, light: &str) -> (r: Direction)
        ensures
            r.camera@ == camera@,
            r.light@ == light@,
    {
        Direction { camera: camera.to_owned(), light: light.to_owned() }
    }
}

/// The weight of frame `col` of `frames`: `col / frames` of the clip.
pub open spec fn frame_weight_of(col: nat, frames: nat) -> Weight {
    Weight { num: col as u32, den: frames as u32 }
}

/// Every field of `req` is that of frame `col` of `frames` seen from `dir`, in
/// cells of `size`, of the scene `scene`.
pub open spec fn is_sprite_request(
    req: RenderRequest,
    dir: Direction,
    col: nat,
    frames: nat,
    size: Size,
    scene: SceneId,
) -> bool {
    &&& req.size == size
    &&& req.background == Rgba { r: 0, g: 0, b: 0, a: 0 }
    &&& req.ambient_light == Rgb { r: 102, g: 102, b: 102 }
    &&& req.camera.name@ == dir.camera@
    &&& req.camera.scene == scene
    &&& req.lights.name@ == dir.light@
    &&& req.lights.scene == scene
    &&& req.geometry == GeometryFilter::AllInDefaultScene
    &&& req.animation == AnimationSample { start_ms: 0, weight: frame_weight_of(col, frames) }
    &&& req.outline == Outline { color: Rgba { r: 0, g: 0, b: 0, a: 255 }, thickness: 0 }
}

/// `node` is the render of frame `col` of `frames` seen from `dir`.
pub open spec fn is_sprite_cell(
    node: LayoutNode,
    dir: Direction,
    col: nat,
    frames: nat,
    size: Size,
    scene: SceneId,
) -> bool {
    match node {
        LayoutNode::Single(req) => is_sprite_request(req, dir, col, frames, size, scene),
        _ => false,
    }
}

/// `g` has one row per entry of `catalog` and `frames` columns of cells of
/// `size`, and the cell at index `i` (row `i / frames`, column `i % frames`)
/// renders that column's frame from that row's direction.
pub open spec fn is_sprite_grid(
    g: Grid,
    catalog: Seq<Direction>,
    frames: nat,
    size: Size,
    scene: SceneId,
) -> bool {
    &&& g.wf()
    &&& g.rows == catalog.len()
    &&& g.cols == frames
    &&& g.cell_size == size
    &&& forall|i: int|
        0 <= i < g.cells@.len() ==> is_sprite_cell(
            #[trigger] g.cells@[i],
            catalog[i / frames as int],
            (i % frames as int) as nat,
            frames,
            size,
            scene,
        )
}

/// The weight of frame `col` of `frames`.
pub fn frame_weight(col: u32, frames: u32) -> (r: Weight)
    requires
        col < frames,
    ensures
        r == frame_weight_of(col as nat, frames as nat),
        r.wf(),
{
    Weight { num: col, den: frames }
}

/// The camera and light queries of each catalog entry, in catalog order, all
/// against `scene`.
pub fn cameras_lights(catalog: &Vec<Direction>, scene: SceneId) -> (r: Vec<
    (CameraQuery, LightQuery),
>)
    ensures
        r@.len() == catalog@.len(),
        forall|i: int|
            0 <= i < r@.len() ==> {
                &&& (#[trigger] r@[i]).0.name@ == catalog@[i].camera@
                &&& r@[i].0.scene == scene
                &&& r@[i].1.name@ == catalog@[i].light@
                &&& r@[i].1.scene == scene
            },
{
    let mut out: Vec<(CameraQuery, LightQuery)> = Vec::new();
    let mut i: usize = 0;
    while i < catalog.len()
        invariant
            i <= catalog@.len(),
            out@.len() == i,
            forall|j: int|
                0 <= j < i ==> {
                    &&& (#[trigger] out@[j]).0.name@ == catalog@[j].camera@
                    &&& out@[j].0.scene == scene
                    &&& out@[j].1.name@ == catalog@[j].light@
                    &&& out@[j].1.scene == scene
                },
        decreases catalog@.len() - i,
    {
        let cam = CameraQuery { name: catalog[i].camera.clone(), scene };
        let light = LightQuery { name: catalog[i].light.clone(), scene };
        out.push((cam, light));
        i = i + 1;
    }
    out
}

/// The render of frame `col` of `frames` through `camera` and `lights`: cells of
/// `size`, transparent background, ambient light at 40% white, every model of
/// the default scene, no outline.
pub fn sprite_request(
    camera: &CameraQuery,
    lights: &LightQuery,
    col: u32,
    frames: u32,
    size: Size,
) -> (r: RenderRequest)
    requires
        col < frames,
    ensures
        r.size == size,
        r.background == (Rgba { r: 0, g: 0, b: 0, a: 0 }),
        r.ambient_light == (Rgb { r: 102, g: 102, b: 102 }),
        r.camera.name@ == camera.name@,
        r.camera.scene == camera.scene,
        r.lights.name@ == lights.name@,
        r.lights.scene == lights.scene,
        r.geometry == GeometryFilter::AllInDefaultScene,
        r.animation == (AnimationSample { start_ms: 0, weight: frame_weight_of(col as nat, frames as nat) }),
        r.outline == (Outline { color: Rgba { r: 0, g: 0, b: 0, a: 255 }, thickness: 0 }),
{
    RenderRequest {
        size,
        background: Rgba::transparent(),
        ambient_light: Rgb::dim_white(),
        camera: CameraQuery { name: camera.name.clone(), scene: camera.scene },
        lights: LightQuery { name: lights.name.clone(), scene: lights.scene },
        geometry: GeometryFilter::AllInDefaultScene,
        animation: AnimationSample { start_ms: 0, weight: frame_weight(col, frames) },
        outline: Outline { color: Rgba::black(), thickness: 0 },
    }
}

/// The sprite grid of `catalog` (one row per direction, in catalog order) by
/// `frames` animation frames (one column per frame, column `c` at weight
/// `c / frames`), in cells of `cell_size`, every cell against `scene`.
/// An empty catalog, no frames or a zero cell side is rejected, and so is a
/// grid whose cell count does not fit in `usize`.
pub fn generate_player_sprites(
    catalog: &Vec<Direction>,
    frames: u32,
    cell_size: Size,
    scene: SceneId,
) -> (r: Result<Grid, LayoutError>)
    ensures
        catalog@.len() == 0 ==> r == Err::<Grid, LayoutError>(LayoutError::ZeroRows),
        catalog@.len() > 0 && frames == 0 ==> r == Err::<Grid, LayoutError>(
            LayoutError::ZeroCols,
        ),
        catalog@.len() > 0 && frames > 0 && !cell_size.wf() ==> r == Err::<Grid, LayoutError>(
            LayoutError::ZeroSize,
        ),
        catalog@.len() > 0 && frames > 0 && cell_size.wf() && catalog@.len() * frames
            > usize::MAX ==> r == Err::<Grid, LayoutError>(LayoutError::TooLarge),
        r is Ok <==> (catalog@.len() > 0 && frames > 0 && cell_size.wf() && catalog@.len()
            * frames <= usize::MAX),
        r matches Ok(g) ==> is_sprite_grid(g, catalog@, frames as nat, cell_size, scene),
{
    let rows = catalog.len();
    if rows == 0 {
        return Err(LayoutError::ZeroRows);
    }
    if frames == 0 {
        return Err(LayoutError::ZeroCols);
    }
    if cell_size.width == 0 || cell_size.height == 0 {
        return Err(LayoutError::ZeroSize);
    }
    let cols = frames as usize;
    let total = match rows.checked_mul(cols) {
        Some(t) => t,
        None => {
            return Err(LayoutError::TooLarge);
        },
    };
    let pairs = cameras_lights(catalog, scene);
    let mut cells: Vec<LayoutNode> = Vec::new();
    let mut row: usize = 0;
    while row < rows
        invariant
            rows == catalog@.len(),
            cols == frames,
            cols > 0,
            total == rows * cols,
            row <= rows,
            cells@.len() == row * cols,
            pairs@.len() == catalog@.len(),
            forall|i: int|
                0 <= i < pairs@.len() ==> {
                    &&& (#[trigger] pairs@[i]).0.name@ == catalog@[i].camera@
                    &&& pairs@[i].0.scene == scene
                    &&& pairs@[i].1.name@ == catalog@[i].light@
                    &&& pairs@[i].1.scene == scene
                },
            forall|i: int|
                0 <= i < cells@.len() ==> is_sprite_cell(
                    #[trigger] cells@[i],
                    catalog@[i / frames as int],
                    (i % frames as int) as nat,
                    frames as nat,
                    cell_size,
                    scene,
                ),
        decreases rows - row,
    {
        proof {
            assert((row + 1) * cols <= rows * cols) by (nonlinear_arith)
                requires
                    row < rows,
                    cols > 0,
            ;
            assert((row + 1) * cols == row * cols + cols) by (nonlinear_arith);
        }
        let mut col: u32 = 0;
        while col < frames
            invariant
                cols == frames,
                cols > 0,
                row < rows,
                rows == catalog@.len(),
                col <= frames,
                row * cols + cols <= total,
                total <= usize::MAX,
                cells@.len() == row * cols + col,
                pairs@.len() == catalog@.len(),
                pairs@[row as int].0.name@ == catalog@[row as int].camera@,
                pairs@[row as int].0.scene == scene,
                pairs@[row as int].1.name@ == catalog@[row as int].light@,
                pairs@[row as int].1.scene == scene,
                forall|i: int|
                    0 <= i < cells@.len() ==> is_sprite_cell(
                        #[trigger] cells@[i],
                        catalog@[i / frames as int],
                        (i % frames as int) as nat,
                        frames as nat,
                        cell_size,
                        scene,
                    ),
            decreases frames - col,
        {
            let req = sprite_request(&pairs[row].0, &pairs[row].1, col, frames, cell_size);
            proof {
                vstd::arithmetic::div_mod::lemma_fundamental_div_mod_converse(
                    row * cols + col,
                    cols as int,
                    row as int,
                    col as int,
                );
            }
            cells.push(LayoutNode::Single(req));
            col = col + 1;
        }
        row = row + 1;
    }
    Ok(Grid { rows, cols, cell_size, cells })
}

/// The job that renders the sprite grid of `catalog` by `frames` (see
/// `generate_player_sprites`) enlarged `scale` times. A grid that cannot be
/// built fails as it does there; a zero scale is rejected after that.
pub fn sprite_sheet_job(
    catalog: &Vec<Direction>,
    frames: u32,
    cell_size: Size,
    scale: u32,
    scene: SceneId,
) -> (r: Result<RenderJob, LayoutError>)
    ensures
        catalog@.len() == 0 ==> r == Err::<RenderJob, LayoutError>(LayoutError::ZeroRows),
        catalog@.len() > 0 && frames == 0 ==> r == Err::<RenderJob, LayoutError>(
            LayoutError::ZeroCols,
        ),
        catalog@.len() > 0 && frames > 0 && !cell_size.wf() ==> r == Err::<
            RenderJob,
            LayoutError,
        >(LayoutError::ZeroSize),
        catalog@.len() > 0 && frames > 0 && cell_size.wf() && catalog@.len() * frames
            > usize::MAX ==> r == Err::<RenderJob, LayoutError>(LayoutError::TooLarge),
        catalog@.len() > 0 && frames > 0 && cell_size.wf() && catalog@.len() * frames
            <= usize::MAX && scale == 0 ==> r == Err::<RenderJob, LayoutError>(
            LayoutError::ZeroScale,
        ),
        r is Ok <==> (catalog@.len() > 0 && frames > 0 && cell_size.wf() && catalog@.len()
            * frames <= usize::MAX && scale > 0),
        r matches Ok(j) ==> {
            &&& j.wf()
            &&& j.scale == scale
            &&& j.root matches LayoutNode::Grid(g) && is_sprite_grid(
                g,
                catalog@,
                frames as nat,
                cell_size,
                scene,
            )
            &&& j.image_size() == (
                (frames * cell_size.width * scale) as nat,
                (catalog@.len() * cell_size.height * scale) as nat,
            )
        },
{
    let grid = match generate_player_sprites(catalog, frames, cell_size, scene) {
        Ok(g) => g,
        Err(e) => {
            return Err(e);
        },
    };
    let r = RenderJob::new(scale, LayoutNode::Grid(grid));
    proof {
        if r is Ok {
            let w = frames as int;
            let h = catalog@.len() as int;
            assert(w * cell_size.width * scale == (w * cell_size.width) * scale) by (nonlinear_arith);
            assert(h * cell_size.height * scale == (h * cell_size.height) * scale) by (nonlinear_arith);
        }
    }
    r
}

/// The cell at row `row`, column `col` of a sprite grid renders frame `col`
/// (at weight `col / frames`) from direction `row` of the catalog, and the
/// grid has exactly one row per direction and one column per frame.
pub proof fn lemma_sprite_grid_cell(
    g: Grid,
    catalog: Seq<Direction>,
    frames: nat,
    size: Size,
    scene: SceneId,
    row: nat,
    col: nat,
)
    requires
        is_sprite_grid(g, catalog, frames, size, scene),
        row < catalog.len(),
        col < frames,
    ensures
        g.rows == catalog.len(),
        g.cols == frames,
        g.cells@.len() == catalog.len() * frames,
        0 <= row * frames + col < g.cells@.len(),
        is_sprite_cell(g.cells@[(row * frames + col) as int], catalog[row as int], col, frames, size, scene),
        match g.cells@[(row * frames + col) as int] {
            LayoutNode::Single(req) => req.animation.weight == frame_weight_of(col, frames),
            _ => false,
        },
{
    let i = row * frames + col;
    assert(i < catalog.len() * frames) by (nonlinear_arith)
        requires
            row < catalog.len(),
            col < frames,
            i == row * frames + col,
    ;
    vstd::arithmetic::div_mod::lemma_fundamental_div_mod_converse(
        i as int,
        frames as int,
        row as int,
        col as int,
    );
    assert(is_sprite_cell(
        g.cells@[i as int],
        catalog[i as int / frames as int],
        (i as int % frames as int) as nat,
        frames,
        size,
        scene,
    ));
}

/// The frame weights of an animation of `frames` frames are valid fractions,
/// start at exactly zero, strictly increase with the frame, and never reach
/// exactly one.
pub proof fn lemma_frame_weights(frames: nat)
    requires
        0 < frames <= u32::MAX,
    ensures
        frame_weight_of(0, frames).is_zero(),
        forall|c: nat| c < frames ==> (#[trigger] frame_weight_of(c, frames)).wf(),
        forall|c: nat| c < frames ==> !(#[trigger] frame_weight_of(c, frames)).is_one(),
        forall|c1: nat, c2: nat|
            c1 < c2 < frames ==> (#[trigger] frame_weight_of(c1, frames)).lt(
                #[trigger] frame_weight_of(c2, frames),
            ),
{
    assert forall|c1: nat, c2: nat| c1 < c2 < frames implies (#[trigger] frame_weight_of(
        c1,
        frames,
    )).lt(#[trigger] frame_weight_of(c2, frames)) by {
        let a = c1 as u32;
        let b = c2 as u32;
        let f = frames as u32;
        assert(a * f < b * f) by (nonlinear_arith)
            requires
                a < b,
                f > 0,
        ;
    }
}

/// Building the sprite grid twice over the same catalog, frame count and cell
/// size gives the same requests cell for cell, whichever scene ids (for
/// instance two loads of one file) the two builds were given.
pub proof fn lemma_rebuild_same_shape(
    g1: Grid,
    g2: Grid,
    catalog: Seq<Direction>,
    frames: nat,
    size: Size,
    scene1: SceneId,
    scene2: SceneId,
)
    requires
        is_sprite_grid(g1, catalog, frames, size, scene1),
        is_sprite_grid(g2, catalog, frames, size, scene2),
    ensures
        g1.rows == g2.rows,
        g1.cols == g2.cols,
        g1.cell_size == g2.cell_size,
        g1.cells@.len() == g2.cells@.len(),
        forall|i: int| 0 <= i < g1.cells@.len() ==> #[trigger] g1.cells@[i].same_shape(&g2.cells@[i]),
{
    assert forall|i: int| 0 <= i < g1.cells@.len() implies #[trigger] g1.cells@[i].same_shape(
        &g2.cells@[i],
    ) by {
        assert(is_sprite_cell(
            g1.cells@[i],
            catalog[i / frames as int],
            (i % frames as int) as nat,
            frames,
            size,
            scene1,
        ));
        assert(is_sprite_cell(
            g2.cells@[i],
            catalog[i / frames as int],
            (i % frames as int) as nat,
            frames,
            size,
            scene2,
        ));
    }
}

/// The eight compass directions, clockwise from north, each with the camera
/// `camera_<point>` and the light `light_<point>`.
pub fn compass_directions() -> (r: Vec<Direction>)
    ensures
        r@.len() == 8,
        r@[0].camera@ == "camera_N"@ && r@[0].light@ == "light_N"@,
        r@[1].camera@ == "camera_NE"@ && r@[1].light@ == "light_NE"@,
        r@[2].camera@ == "camera_E"@ && r@[2].light@ == "light_E"@,
        r@[3].camera@ == "camera_SE"@ && r@[3].light@ == "light_SE"@,
        r@[4].camera@ == "camera_S"@ && r@[4].light@ == "light_S"@,
        r@[5].camera@ == "camera_SW"@ && r@[5].light@ == "light_SW"@,
        r@[6].camera@ == "camera_W"@ && r@[6].light@ == "light_W"@,
        r@[7].camera@ == "camera_NW"@ && r@[7].light@ == "light_NW"@,
{
    let mut r: Vec<Direction> = Vec::new();
    r.push(Direction::new("camera_N", "light_N"));
    r.push(Direction::new("camera_NE", "light_NE"));
    r.push(Direction::new("camera_E", "light_E"));
    r.push(Direction::new("camera_SE", "light_SE"));
    r.push(Direction::new("camera_S", "light_S"));
    r.push(Direction::new("camera_SW", "light_SW"));
    r.push(Direction::new("camera_W", "light_W"));
    r.push(Direction::new("camera_NW", "light_NW"));
    r
}

} // verus!
