//! Locating the cell of a grid whose camera or light a scene does not have,
//! so that a failed render is reported at its coordinate.
use vstd::prelude::*;
use crate::layout::{Grid, LayoutNode};
use crate::query::SceneId;
use crate::sprites::{is_sprite_grid, Direction};

verus! {

/// The kind of query that did not resolve.
#[derive(Clone, Copy, Debug, PartialEq, Eq, Structural)]
pub enum QueryKind {
    Camera,
    Light,
}

/// A query that names something the scene lacks, and the grid cell it is in.
#[derive(Debug)]
pub struct UnresolvedQuery {
    pub row: usize,
    pub col: usize,
    pub kind: QueryKind,
    pub name: String,
}

/// The names of the cameras and the lights that a loaded scene holds.
#[derive(Debug)]
pub struct SceneNames {
    pub cameras: Vec<String>,
    pub lights: Vec<String>,
}

/// `name` is one of `names`.
pub open spec fn has_name(names: Seq<String>, name: Seq<char>) -> bool {
    exists|i: int| 0 <= i < names.len() && (#[trigger] names[i])@ == name
}

/// The query of `node` that `scene` cannot resolve, the camera before the
/// light, or `None` when everything it names is there. Empty positions and
/// nested grids name nothing themselves.
pub open spec fn missing_query(node: LayoutNode, scene: SceneNames) -> Option<(QueryKind, Seq<char>)> {
    match node {
        LayoutNode::Single(req) => if !has_name(scene.cameras@, req.camera.name@) {
            Some((QueryKind::Camera, req.camera.name@))
        } else if !has_name(scene.lights@, req.lights.name@) {
            Some((QueryKind::Light, req.lights.name@))
        } else {
            None
        },
        _ => None,
    }
}

/// `index` is the first cell, in row-major order, with a query that `scene`
/// cannot resolve.
pub open spec fn is_first_unresolved(cells: Seq<LayoutNode>, scene: SceneNames, index: int) -> bool {
    &&& 0 <= index < cells.len()
    &&& missing_query(cells[index], scene) is Some
    &&& forall|j: int| 0 <= j < index ==> (#[trigger] missing_query(cells[j], scene)) is None
}

/// `u` reports the first unresolvable query of `g`: its coordinate, its kind
/// and the name it asked for.
pub open spec fn reports_first_unresolved(g: Grid, scene: SceneNames, u: UnresolvedQuery) -> bool {
    &&& u.row < g.rows
    &&& u.col < g.cols
    &&& is_first_unresolved(g.cells@, scene, u.row * g.cols + u.col)
    &&& missing_query(g.cells@[u.row * g.cols + u.col], scene) == Some((u.kind, u.name@))
}

/// Whether `name` is one of `names`.
pub fn contains_name(names: &Vec<String>, name: &String) -> (r: bool)
    ensures
        r == has_name(names@, name@),
{
    let mut i: usize = 0;
    while i < names.len()
        invariant
            i <= names@.len(),
            forall|j: int| 0 <= j < i ==> names@[j]@ != name@,
        decreases names@.len() - i,
    {
        if names[i] == *name {
            return true;
        }
        i = i + 1;
    }
    false
}

/// The query of `node` that `scene` cannot resolve, the camera before the light.
pub fn check_node(node: &LayoutNode, scene: &SceneNames) -> (r: Option<(QueryKind, String)>)
    ensures
        match (r, missing_query(*node, *scene)) {
            (None, None) => true,
            (Some((k, n)), Some((mk, mn))) => k == mk && n@ == mn,
            _ => false,
        },
{
    match node {
        LayoutNode::Single(req) => {
            if !contains_name(&scene.cameras, &req.camera.name) {
                Some((QueryKind::Camera, req.camera.name.clone()))
            } else if !contains_name(&scene.lights, &req.lights.name) {
                Some((QueryKind::Light, req.lights.name.clone()))
            } else {
                None
            }
        },
        _ => None,
    }
}

/// The first cell of `grid`, in row-major order, with a camera or light that
/// `scene` does not hold, or `None` when every cell resolves.
pub fn first_unresolved(grid: &Grid, scene: &SceneNames) -> (r: Option<UnresolvedQuery>)
    requires
        grid.wf(),
    ensures
        r is None <==> forall|i: int|
            0 <= i < grid.cells@.len() ==> (#[trigger] missing_query(grid.cells@[i], *scene)) is None,
        r matches Some(u) ==> reports_first_unresolved(*grid, *scene, u),
{
    let mut i: usize = 0;
    while i < grid.cells.len()
        invariant
            grid.wf(),
            i <= grid.cells@.len(),
            forall|j: int| 0 <= j < i ==> (#[trigger] missing_query(grid.cells@[j], *scene)) is None,
        decreases grid.cells@.len() - i,
    {
        match check_node(&grid.cells[i], scene) {
            Some((kind, name)) => {
                let (row, col) = grid.coordinate(i);
                return Some(UnresolvedQuery { row, col, kind, name });
            },
            None => {},
        }
        i = i + 1;
    }
    None
}

/// When exactly one direction of a sprite grid's catalog names a camera that
/// the scene lacks, and every light is there, the first failure reported is
/// that direction's camera, at its row and the first column.
pub proof fn lemma_failure_isolation(
    g: Grid,
    catalog: Seq<Direction>,
    frames: nat,
    size: crate::query::Size,
    scene_id: SceneId,
    scene: SceneNames,
    bad: nat,
)
    requires
        is_sprite_grid(g, catalog, frames, size, scene_id),
        bad < catalog.len(),
        !has_name(scene.cameras@, catalog[bad as int].camera@),
        forall|r: int|
            0 <= r < catalog.len() && r != bad ==> has_name(
                scene.cameras@,
                (#[trigger] catalog[r]).camera@,
            ),
        forall|r: int| 0 <= r < catalog.len() ==> has_name(scene.lights@, (#[trigger] catalog[r]).light@),
    ensures
        is_first_unresolved(g.cells@, scene, (bad * frames) as int),
        forall|u: UnresolvedQuery|
            #[trigger] reports_first_unresolved(g, scene, u) ==> u.row == bad && u.col == 0
                && u.kind == QueryKind::Camera && u.name@ == catalog[bad as int].camera@,
{
    let k = (bad * frames) as int;
    assert(k < g.cells@.len()) by (nonlinear_arith)
        requires
            k == bad * frames,
            bad < catalog.len(),
            frames > 0,
            g.cells@.len() == catalog.len() * frames,
    ;
    vstd::arithmetic::div_mod::lemma_fundamental_div_mod_converse(k, frames as int, bad as int, 0);
    assert(missing_query(g.cells@[k], scene) is Some);
    assert forall|j: int| 0 <= j < k implies (#[trigger] missing_query(g.cells@[j], scene)) is None by {
        vstd::arithmetic::div_mod::lemma_fundamental_div_mod(j, frames as int);
        let r = j / frames as int;
        assert(0 <= r < bad) by {
            vstd::arithmetic::div_mod::lemma_div_pos_is_pos(j, frames as int);
            if r >= bad {
                assert(j >= k) by (nonlinear_arith)
                    requires
                        k == bad * frames,
                        r >= bad,
                        j == frames * r + j % frames as int,
                        j % frames as int >= 0,
                        frames > 0,
                ;
            }
        }
    }
    assert forall|u: UnresolvedQuery| #[trigger] reports_first_unresolved(g, scene, u) implies u.row
        == bad && u.col == 0 && u.kind == QueryKind::Camera && u.name@ == catalog[bad as int].camera@ by {
        let i = u.row * g.cols + u.col;
        if i < k {
            assert(missing_query(g.cells@[i], scene) is None);
        } else if i > k {
            assert(missing_query(g.cells@[k], scene) is None);
        }
        assert(i == k);
        vstd::arithmetic::div_mod::lemma_fundamental_div_mod_converse(
            i,
            frames as int,
            u.row as int,
            u.col as int,
        );
    }
}

} // verus!
