use vstd::prelude::*;

verus! {

/// The end of a path that a vertex was traced from.
#[derive(Clone, Copy, Debug, PartialEq, Eq, Structural)]
pub enum PathType {
    Camera,
    Light,
}

/// The kind of scene interaction found at a path vertex.
#[derive(Clone, Copy, Debug, PartialEq, Eq, Structural)]
pub enum InteractionKind {
    Camera,
    Light,
    Object,
}

/// How a path is assembled for a given split between camera and light vertices.
#[derive(Clone, Copy, Debug, PartialEq, Eq, Structural)]
pub enum Strategy {
    /// No camera vertex: a light subpath that must end on the camera.
    FullLightPath,
    /// No light vertex: a camera subpath that must end on a light.
    FullCameraPath,
    /// One camera and one light sample joined by a visibility ray.
    CameraToLight,
    /// A sampled camera point joined to the end of a light subpath.
    CameraToLightSubpath,
    /// The end of a camera subpath joined to a sampled light point.
    CameraSubpathToLight,
    /// A camera subpath and a light subpath joined at their ends.
    CameraSubpathToLightSubpath,
}

/// The kind of interaction that the end of the `side` subpath must be for
/// a path of `strategy`; `None` where any kind will do.
pub open spec fn required_end(strategy: Strategy, side: PathType) -> Option<InteractionKind> {
    match (strategy, side) {
        (Strategy::FullLightPath, PathType::Light) => Some(InteractionKind::Camera),
        (Strategy::FullCameraPath, PathType::Camera) => Some(InteractionKind::Light),
        (Strategy::CameraToLightSubpath, PathType::Light) => Some(InteractionKind::Object),
        (Strategy::CameraSubpathToLight, PathType::Camera) => Some(InteractionKind::Object),
        (Strategy::CameraSubpathToLightSubpath, _) => Some(InteractionKind::Object),
        _ => None,
    }
}

/// The kind of interaction that the visibility ray joining the two halves
/// must hit first; `None` for strategies that trace a single subpath.
pub open spec fn required_hit(strategy: Strategy) -> Option<InteractionKind> {
    match strategy {
        Strategy::CameraToLight => Some(InteractionKind::Camera),
        Strategy::CameraToLightSubpath => Some(InteractionKind::Camera),
        Strategy::CameraSubpathToLight => Some(InteractionKind::Light),
        Strategy::CameraSubpathToLightSubpath => Some(InteractionKind::Object),
        _ => None,
    }
}

impl Strategy {
    /// Whether a subpath traced from `side` may end in an interaction of
    /// `kind`.
    pub fn accepts_end(&self, side: PathType, kind: InteractionKind) -> (r: bool)
        ensures
            r == match required_end(*self, side) {
                Some(k) => k == kind,
                None => true,
            },
    {
        match (self, side) {
            (Strategy::FullLightPath, PathType::Light) => kind == InteractionKind::Camera,
            (Strategy::FullCameraPath, PathType::Camera) => kind == InteractionKind::Light,
            (Strategy::CameraToLightSubpath, PathType::Light) => kind == InteractionKind::Object,
            (Strategy::CameraSubpathToLight, PathType::Camera) => kind == InteractionKind::Object,
            (Strategy::CameraSubpathToLightSubpath, _) => kind == InteractionKind::Object,
            _ => true,
        }
    }

    /// Whether the visibility ray joining the halves may first hit an
    /// interaction of `kind`; for two subpaths it must also be the end of
    /// the light subpath itself.
    pub fn accepts_hit(&self, kind: InteractionKind) -> (r: bool)
        ensures
            r == match required_hit(*self) {
                Some(k) => k == kind,
                None => true,
            },
    {
        match self {
            Strategy::CameraToLight => kind == InteractionKind::Camera,
            Strategy::CameraToLightSubpath => kind == InteractionKind::Camera,
            Strategy::CameraSubpathToLight => kind == InteractionKind::Light,
            Strategy::CameraSubpathToLightSubpath => kind == InteractionKind::Object,
            _ => true,
        }
    }
}

/// The split of a path's vertices between the camera-rooted and the
/// light-rooted half.
#[derive(Clone, Copy, Debug)]
pub struct Technique {
    camera: usize,
    light: usize,
}

/// The strategy that a split of `camera` and `light` vertices selects.
pub open spec fn strategy_of(camera: nat, light: nat) -> Strategy {
    if camera == 0 {
        Strategy::FullLightPath
    } else if light == 0 {
        Strategy::FullCameraPath
    } else if camera == 1 && light == 1 {
        Strategy::CameraToLight
    } else if camera == 1 {
        Strategy::CameraToLightSubpath
    } else if light == 1 {
        Strategy::CameraSubpathToLight
    } else {
        Strategy::CameraSubpathToLightSubpath
    }
}

impl Technique {
    /// Number of vertices on the camera-rooted half.
    pub closed spec fn camera_count(&self) -> nat {
        self.camera as nat
    }

    /// Number of vertices on the light-rooted half.
    pub closed spec fn light_count(&self) -> nat {
        self.light as nat
    }

    pub fn new(camera: usize, light: usize) -> (r: Technique)
        ensures
            r.camera_count() == camera,
            r.light_count() == light,
    {
        Technique { camera, light }
    }

    /// The technique for a path of `path_length` vertices whose camera half
    /// was drawn as `camera_draw`, a uniform index in `[0, path_length]`.
    /// A draw past the end is held at `path_length`.
    pub fn sample(path_length: usize, camera_draw: usize) -> (r: Technique)
        ensures
            r.camera_count() + r.light_count() == path_length,
            r.camera_count() <= path_length,
            r.camera_count() == if camera_draw <= path_length {
                camera_draw as nat
            } else {
                path_length as nat
            },
    {
        let camera = if camera_draw <= path_length {
            camera_draw
        } else {
            path_length
        };
        Technique { camera, light: path_length - camera }
    }

    pub fn camera(&self) -> (r: usize)
        ensures
            r == self.camera_count(),
    {
        self.camera
    }

    pub fn light(&self) -> (r: usize)
        ensures
            r == self.light_count(),
    {
        self.light
    }

    /// The half of the path that vertex `n` belongs to: the first
    /// `camera` vertices are camera-rooted, the rest light-rooted.
    pub fn path_type(&self, n: usize) -> (r: PathType)
        ensures
            r == (if n < self.camera_count() {
                PathType::Camera
            } else {
                PathType::Light
            }),
    {
        if n < self.camera {
            PathType::Camera
        } else {
            PathType::Light
        }
    }

    /// The connection strategy that this split selects.
    pub fn strategy(&self) -> (r: Strategy)
        ensures
            r == strategy_of(self.camera_count(), self.light_count()),
    {
        if self.camera == 0 {
            Strategy::FullLightPath
        } else if self.light == 0 {
            Strategy::FullCameraPath
        } else if self.camera == 1 && self.light == 1 {
            Strategy::CameraToLight
        } else if self.camera == 1 {
            Strategy::CameraToLightSubpath
        } else if self.light == 1 {
            Strategy::CameraSubpathToLight
        } else {
            Strategy::CameraSubpathToLightSubpath
        }
    }
}


/// One vertex of a connected path: its throughput, the density with which
/// the path's own technique sampled it (`forward_pdf`: from the camera side
/// on the camera half, from the light side on the light half), and the
/// density of sampling it from the opposite end (`reverse_pdf`). An absent
/// density marks a Dirac vertex, which no other technique can sample.
#[derive(Debug)]
pub struct Vertex<S, P> {
    pub throughput: S,
    pub forward_pdf: Option<P>,
    pub reverse_pdf: Option<P>,
}

/// Whether vertex `v` contributes a density ratio to the balance heuristic:
/// both of its densities are known.
pub open spec fn has_ratio<S, P>(v: Vertex<S, P>) -> bool {
    v.forward_pdf is Some && v.reverse_pdf is Some
}

/// The vertices among the first `n` that contribute a ratio, from vertex
/// `n - 1` back to vertex 0.
pub open spec fn camera_walk<S, P>(vs: Seq<Vertex<S, P>>, n: nat) -> Seq<usize>
    decreases n,
{
    if n == 0 {
        Seq::empty()
    } else {
        let rest = camera_walk(vs, (n - 1) as nat);
        if has_ratio(vs[n - 1]) {
            seq![(n - 1) as usize] + rest
        } else {
            rest
        }
    }
}

/// The vertices from `i` to the end that contribute a ratio, in order.
pub open spec fn light_walk<S, P>(vs: Seq<Vertex<S, P>>, i: nat) -> Seq<usize>
    decreases vs.len() - i,
{
    if i >= vs.len() {
        Seq::empty()
    } else {
        let rest = light_walk(vs, i + 1);
        if has_ratio(vs[i as int]) {
            seq![i as usize] + rest
        } else {
            rest
        }
    }
}

/// The vertices whose ratios the balance heuristic sums, in the order it
/// multiplies them: the camera half from the connection back to the camera,
/// then, where the path has light vertices, the light half from the
/// connection out to the light.
pub open spec fn weight_walk_spec<S, P>(technique: Technique, vs: Seq<Vertex<S, P>>) -> (
    Seq<usize>,
    Seq<usize>,
) {
    (
        camera_walk(vs, technique.camera_count()),
        if technique.light_count() >= 1 {
            light_walk(vs, technique.camera_count())
        } else {
            Seq::empty()
        },
    )
}

/// Orders the density ratios of a path's multiple-importance weight, each
/// the reverse over the forward density of one vertex: the first list holds
/// the camera-half vertices, nearest the connection first; the second the
/// light-half vertices, nearest the connection first. The running product
/// of ratios restarts at the connection.
pub fn weight_walk<S, P>(technique: &Technique, vertices: &Vec<Vertex<S, P>>) -> (r: (
    Vec<usize>,
    Vec<usize>,
))
    requires
        technique.camera_count() <= vertices@.len(),
    ensures
        r.0@ == weight_walk_spec(*technique, vertices@).0,
        r.1@ == weight_walk_spec(*technique, vertices@).1,
{
    let n = vertices.len();
    let camera = technique.camera();
    let mut camera_side: Vec<usize> = Vec::new();
    let mut i: usize = camera;
    while i > 0
        invariant
            i <= camera,
            camera == technique.camera_count(),
            camera <= n,
            n == vertices@.len(),
            camera_walk(vertices@, camera as nat) == camera_side@ + camera_walk(
                vertices@,
                i as nat,
            ),
        decreases i,
    {
        let v = &vertices[i - 1];
        if v.forward_pdf.is_some() && v.reverse_pdf.is_some() {
            camera_side.push(i - 1);
            assert(camera_walk(vertices@, i as nat) == seq![(i - 1) as usize] + camera_walk(
                vertices@,
                (i - 1) as nat,
            ));
        }
        i = i - 1;
    }
    assert(camera_side@ + camera_walk(vertices@, 0) =~= camera_side@);
    let mut light_side: Vec<usize> = Vec::new();
    if technique.light() >= 1 {
        let mut j: usize = camera;
        while j < n
            invariant
                camera <= j <= n,
                n == vertices@.len(),
                light_walk(vertices@, camera as nat) == light_side@ + light_walk(
                    vertices@,
                    j as nat,
                ),
            decreases n - j,
        {
            let v = &vertices[j];
            if v.forward_pdf.is_some() && v.reverse_pdf.is_some() {
                light_side.push(j);
                assert(light_walk(vertices@, j as nat) == seq![j] + light_walk(
                    vertices@,
                    (j + 1) as nat,
                ));
            }
            j = j + 1;
        }
        assert(light_side@ + light_walk(vertices@, n as nat) =~= light_side@);
    }
    (camera_side, light_side)
}


proof fn lemma_camera_walk_empty<S, P>(vs: Seq<Vertex<S, P>>, n: nat)
    requires
        n <= vs.len(),
        forall|k: int| 0 <= k < vs.len() ==> !has_ratio(#[trigger] vs[k]),
    ensures
        camera_walk(vs, n) == Seq::<usize>::empty(),
    decreases n,
{
    if n > 0 {
        lemma_camera_walk_empty(vs, (n - 1) as nat);
        assert(!has_ratio(vs[n - 1]));
    }
}

proof fn lemma_light_walk_empty<S, P>(vs: Seq<Vertex<S, P>>, i: nat)
    requires
        forall|k: int| 0 <= k < vs.len() ==> !has_ratio(#[trigger] vs[k]),
    ensures
        light_walk(vs, i) == Seq::<usize>::empty(),
    decreases vs.len() - i,
{
    if i < vs.len() {
        lemma_light_walk_empty(vs, i + 1);
        assert(!has_ratio(vs[i as int]));
    }
}

/// A path all of whose vertices are Dirac, each lacking its forward or its
/// reverse density, gives the balance heuristic no ratio to sum on either
/// half, whatever the technique: its weight is one.
pub proof fn lemma_dirac_path_has_no_ratios<S, P>(technique: Technique, vs: Seq<Vertex<S, P>>)
    requires
        technique.camera_count() <= vs.len(),
        forall|k: int| 0 <= k < vs.len() ==> !has_ratio(#[trigger] vs[k]),
    ensures
        weight_walk_spec(technique, vs).0.len() == 0,
        weight_walk_spec(technique, vs).1.len() == 0,
{
    lemma_camera_walk_empty(vs, technique.camera_count());
    lemma_light_walk_empty(vs, technique.camera_count());
}

} // verus!
