//! Sky-view structure: deep-sky object kinds and the kind filter, the
//! RA/Dec bucket index over the catalog, and the ordered layer pipeline of
//! the planetarium renderer.
//!
//! Catalog positions are held in microdegrees (J2000), so that bucketing is
//! integer arithmetic; drawing, projection and the angular cap test stay with
//! the renderer.

use std::sync::Arc;

use vstd::prelude::*;
use vstd::seq_lib::{lemma_flatten_concat, lemma_multiset_commutative};

verus! {

/// Deep-sky object kinds of the catalog.
#[derive(Clone, Copy, Debug, PartialEq, Eq)]
pub enum DsoType {
    Galaxy,
    OpenCluster,
    GlobularCluster,
    Nebula,
    PlanetaryNebula,
    SupernovaRemnant,
    GalaxyCluster,
}

/// Which kinds of deep-sky object are shown.
#[derive(Clone, Copy, Debug)]
pub struct KindFilter {
    pub gx: bool,
    pub oc: bool,
    pub gc: bool,
    pub nb: bool,
    pub pn: bool,
    pub snr: bool,
    pub gal: bool,
}

impl KindFilter {
    /// Whether this filter shows objects of `kind`.
    pub open spec fn shows(&self, kind: DsoType) -> bool {
        match kind {
            DsoType::Galaxy => self.gx,
            DsoType::OpenCluster => self.oc,
            DsoType::GlobularCluster => self.gc,
            DsoType::Nebula => self.nb,
            DsoType::PlanetaryNebula => self.pn,
            DsoType::SupernovaRemnant => self.snr,
            DsoType::GalaxyCluster => self.gal,
        }
    }

    /// Whether this filter shows objects of `kind`.
    pub fn allows(&self, kind: DsoType) -> (r: bool)
        ensures
            r == self.shows(kind),
    {
        match kind {
            DsoType::Galaxy => self.gx,
            DsoType::OpenCluster => self.oc,
            DsoType::GlobularCluster => self.gc,
            DsoType::Nebula => self.nb,
            DsoType::PlanetaryNebula => self.pn,
            DsoType::SupernovaRemnant => self.snr,
            DsoType::GalaxyCluster => self.gal,
        }
    }
}

/// The kind code the GPU symbol shader switches on.
pub open spec fn kind_code(k: DsoType) -> u32 {
    match k {
        DsoType::Galaxy => 0,
        DsoType::OpenCluster => 1,
        DsoType::GlobularCluster => 2,
        DsoType::Nebula => 3,
        DsoType::PlanetaryNebula => 4,
        DsoType::SupernovaRemnant => 5,
        DsoType::GalaxyCluster => 6,
    }
}

/// The kind code the GPU symbol shader switches on.
pub fn kind_to_u32(k: DsoType) -> (r: u32)
    ensures
        r == kind_code(k),
{
    match k {
        DsoType::Galaxy => 0,
        DsoType::OpenCluster => 1,
        DsoType::GlobularCluster => 2,
        DsoType::Nebula => 3,
        DsoType::PlanetaryNebula => 4,
        DsoType::SupernovaRemnant => 5,
        DsoType::GalaxyCluster => 6,
    }
}

// ── Catalog and bucket index ─────────────────────────────────────────────────

/// One catalog object, as far as indexing needs it.
#[derive(Clone, Copy, Debug)]
pub struct Dso {
    /// J2000 right ascension in microdegrees (any value; taken modulo 360°).
    pub ra_udeg: i64,
    /// J2000 declination in microdegrees (clamped to ±90°).
    pub dec_udeg: i64,
    pub kind: DsoType,
}

/// The deep-sky catalog.
#[derive(Clone, Debug)]
pub struct DsoCatalogData {
    pub dsos: Vec<Dso>,
}

/// Number of 10° right-ascension bins.
pub const RA_BINS: usize = 36;

/// Number of 10° declination bins (−90° … +90°).
pub const DEC_BINS: usize = 18;

/// Width of a bin in microdegrees.
pub const BIN_UDEG: i64 = 10_000_000;

/// The right-ascension bin of a position: RA taken modulo 360°, in 10° steps.
pub open spec fn ra_bin(ra: i64) -> int {
    let r = ra as int % 360_000_000;
    let b = r / 10_000_000;
    if b > 35 {
        35
    } else {
        b
    }
}

/// The declination bin of a position: Dec clamped to ±90°, in 10° steps from −90°.
pub open spec fn dec_bin(dec: i64) -> int {
    let d = if dec < -90_000_000 {
        -90_000_000
    } else if dec > 90_000_000 {
        90_000_000
    } else {
        dec as int
    };
    let b = (d + 90_000_000) / 10_000_000;
    if b > 17 {
        17
    } else {
        b
    }
}

/// The cell an object falls in: `dec_bin * 36 + ra_bin`.
pub open spec fn cell_of(d: Dso) -> int {
    dec_bin(d.dec_udeg) * 36 + ra_bin(d.ra_udeg)
}

/// The bucket contents after indexing the first `k` catalog objects.
pub open spec fn cells_after(dsos: Seq<Dso>, k: int) -> Seq<Seq<u32>>
    decreases k,
{
    if k <= 0 {
        Seq::new(648, |i: int| Seq::<u32>::empty())
    } else {
        let prev = cells_after(dsos, k - 1);
        let c = cell_of(dsos[k - 1]);
        prev.update(c, prev[c].push((k - 1) as u32))
    }
}

/// Catalog indices bucketed by 10° × 10° RA/Dec cells. Cell
/// `(ra_bin, dec_bin)` is `cells[dec_bin * 36 + ra_bin]`.
pub struct DsoIndex {
    cells: Vec<Vec<u32>>,
}

impl View for DsoIndex {
    type V = Seq<Seq<u32>>;

    closed spec fn view(&self) -> Seq<Seq<u32>> {
        self.cells@.map_values(|c: Vec<u32>| c@)
    }
}

fn bin_of(d: &Dso) -> (c: usize)
    ensures
        c == cell_of(*d),
        c < 648,
{
    let r = d.ra_udeg % 360_000_000;
    let r = if r < 0 {
        r + 360_000_000
    } else {
        r
    };
    assert(r == d.ra_udeg as int % 360_000_000);
    let rb = r / BIN_UDEG;
    let rb = if rb > 35 {
        35
    } else {
        rb
    };
    let dc = if d.dec_udeg < -90_000_000 {
        -90_000_000
    } else if d.dec_udeg > 90_000_000 {
        90_000_000
    } else {
        d.dec_udeg
    };
    let db = (dc + 90_000_000) / BIN_UDEG;
    let db = if db > 17 {
        17
    } else {
        db
    };
    (db * 36 + rb) as usize
}

impl DsoIndex {
    /// The buckets, in cell order.
    pub closed spec fn cells_view(&self) -> Seq<Seq<u32>> {
        self@
    }

    /// Buckets every catalog object by its RA/Dec cell, in catalog order.
    pub fn build(cat: &DsoCatalogData) -> (idx: DsoIndex)
        requires
            cat.dsos@.len() <= u32::MAX + 1,
        ensures
            idx@ == cells_after(cat.dsos@, cat.dsos@.len() as int),
    {
        let mut cells: Vec<Vec<u32>> = Vec::new();
        let mut c: usize = 0;
        while c < RA_BINS * DEC_BINS
            invariant
                c <= 648,
                cells@.len() == c,
                forall|j: int| 0 <= j < c ==> (#[trigger] cells@[j])@ == Seq::<u32>::empty(),
            decreases 648 - c,
        {
            cells.push(Vec::new());
            c += 1;
        }
        assert(cells@.map_values(|v: Vec<u32>| v@) =~= cells_after(cat.dsos@, 0));
        let mut i: usize = 0;
        while i < cat.dsos.len()
            invariant
                i <= cat.dsos@.len() <= u32::MAX + 1,
                cells@.len() == 648,
                cells@.map_values(|v: Vec<u32>| v@) == cells_after(cat.dsos@, i as int),
            decreases cat.dsos.len() - i,
        {
            let b = bin_of(&cat.dsos[i]);
            let ghost before = cells@.map_values(|v: Vec<u32>| v@);
            let mut cell = cells[b].clone();
            assert(cell@ =~= cells@[b as int]@);
            cell.push(i as u32);
            cells.set(b, cell);
            proof {
                assert(cells@.map_values(|v: Vec<u32>| v@) =~= before.update(
                    b as int,
                    before[b as int].push(i as u32),
                ));
            }
            i += 1;
        }
        DsoIndex { cells }
    }

    /// Every indexed catalog index, cell by cell.
    pub fn all_indices(&self) -> (r: Vec<u32>)
        ensures
            r@ == self@.flatten(),
    {
        let mut out: Vec<u32> = Vec::new();
        let mut c: usize = 0;
        while c < self.cells.len()
            invariant
                c <= self.cells@.len(),
                out@ == self@.subrange(0, c as int).flatten(),
            decreases self.cells.len() - c,
        {
            let cell = &self.cells[c];
            let ghost before = out@;
            let mut j: usize = 0;
            while j < cell.len()
                invariant
                    j <= cell@.len(),
                    out@ == before + cell@.subrange(0, j as int),
                decreases cell.len() - j,
            {
                out.push(cell[j]);
                j += 1;
                assert(out@ =~= before + cell@.subrange(0, j as int));
            }
            proof {
                assert(cell@.subrange(0, cell@.len() as int) =~= cell@);
                let s = self@.subrange(0, c + 1);
                assert(s =~= self@.subrange(0, c as int).push(self@[c as int]));
                self@.subrange(0, c as int).lemma_flatten_push(self@[c as int]);
            }
            c += 1;
        }
        assert(self@.subrange(0, self@.len() as int) =~= self@);
        out
    }
}

/// Builds the index and shares it.
pub fn build_arc(cat: &DsoCatalogData) -> (r: Arc<DsoIndex>)
    requires
        cat.dsos@.len() <= u32::MAX + 1,
    ensures
        r@ == cells_after(cat.dsos@, cat.dsos@.len() as int),
{
    Arc::new(DsoIndex::build(cat))
}

/// The bucket contents after `k` objects always have 648 cells.
pub proof fn lemma_cells_len(dsos: Seq<Dso>, k: int)
    requires
        0 <= k <= dsos.len(),
    ensures
        cells_after(dsos, k).len() == 648,
    decreases k,
{
    if k > 0 {
        lemma_cells_len(dsos, k - 1);
    }
}

/// Every catalog index `0..n` is indexed exactly once: the buckets, read cell
/// by cell, hold exactly the indices of the catalog.
pub proof fn law_index_holds_each_object_once(dsos: Seq<Dso>)
    requires
        dsos.len() <= u32::MAX + 1,
    ensures
        cells_after(dsos, dsos.len() as int).flatten().to_multiset() == Seq::new(
            dsos.len(),
            |i: int| i as u32,
        ).to_multiset(),
{
    lemma_index_prefix(dsos, dsos.len() as int);
}

proof fn lemma_index_prefix(dsos: Seq<Dso>, k: int)
    requires
        0 <= k <= dsos.len() <= u32::MAX + 1,
    ensures
        cells_after(dsos, k).flatten().to_multiset() == Seq::new(k as nat, |i: int| i as u32).to_multiset(),
    decreases k,
{
    if k == 0 {
        let e = Seq::new(648, |i: int| Seq::<u32>::empty());
        assert(cells_after(dsos, 0) == e);
        lemma_flatten_empties(e);
        assert(Seq::new(0, |i: int| i as u32) =~= Seq::<u32>::empty());
    } else {
        lemma_index_prefix(dsos, k - 1);
        lemma_cells_len(dsos, k - 1);
        let prev = cells_after(dsos, k - 1);
        let c = cell_of(dsos[k - 1]);
        assert(0 <= c < 648) by {
            assert(0 <= ra_bin(dsos[k - 1].ra_udeg) <= 35);
            assert(0 <= dec_bin(dsos[k - 1].dec_udeg) <= 17);
        }
        let x = ((k - 1) as u32);
        lemma_flatten_update_push(prev, c, x);
        let s0 = Seq::new((k - 1) as nat, |i: int| i as u32);
        let s1 = Seq::new(k as nat, |i: int| i as u32);
        assert(s1 =~= s0.push(x));
        vstd::seq_lib::to_multiset_build(s0, x);
    }
}

proof fn lemma_flatten_empties(e: Seq<Seq<u32>>)
    requires
        forall|i: int| 0 <= i < e.len() ==> #[trigger] e[i] == Seq::<u32>::empty(),
    ensures
        e.flatten() == Seq::<u32>::empty(),
    decreases e.len(),
{
    if e.len() > 0 {
        lemma_flatten_empties(e.drop_first());
        assert(e.first() == Seq::<u32>::empty());
        assert(e.flatten() =~= e.first() + e.drop_first().flatten());
    }
}

proof fn lemma_flatten_update_push(cells: Seq<Seq<u32>>, c: int, x: u32)
    requires
        0 <= c < cells.len(),
    ensures
        cells.update(c, cells[c].push(x)).flatten().to_multiset() == cells.flatten().to_multiset().insert(x),
{
    let pre = cells.subrange(0, c);
    let post = cells.subrange(c + 1, cells.len() as int);
    let mid = seq![cells[c]];
    let mid2 = seq![cells[c].push(x)];
    assert(cells =~= pre + mid + post);
    assert(cells.update(c, cells[c].push(x)) =~= pre + mid2 + post);
    lemma_flatten_concat(pre + mid, post);
    lemma_flatten_concat(pre, mid);
    lemma_flatten_concat(pre + mid2, post);
    lemma_flatten_concat(pre, mid2);
    mid.lemma_flatten_singleton();
    mid2.lemma_flatten_singleton();
    let a = pre.flatten();
    let b = post.flatten();
    let m = cells[c];
    assert((pre + mid + post).flatten() == a + m + b);
    assert((pre + mid2 + post).flatten() == a + m.push(x) + b);
    lemma_multiset_commutative(a + m, b);
    lemma_multiset_commutative(a, m);
    lemma_multiset_commutative(a + m.push(x), b);
    lemma_multiset_commutative(a, m.push(x));
    vstd::seq_lib::to_multiset_build(m, x);
    assert((a + m.push(x) + b).to_multiset() =~= (a + m + b).to_multiset().insert(x));
}

// ── Render pipeline ──────────────────────────────────────────────────────────

/// The overlay layers of the planetarium.
#[derive(Clone, Copy, Debug, PartialEq, Eq)]
pub enum LayerId {
    Ground,
    AltAzGrid,
    Meridian,
    EqGrid,
    Ecliptic,
    Zenith,
    Stars,
    ConstellationNames,
    Dso,
    SolarSystem,
    SlewTrail,
    MountCrosshair,
    SolveMarker,
    CenterCrosshair,
    FovReticle,
    Mosaic,
    SchedulerJobs,
    InfoOverlay,
}

/// The standard draw order: ground behind everything, then grids, zenith,
/// stars, constellation names, deep-sky objects, solar system, slew trail,
/// mount crosshair, solve marker, centre crosshair, FOV reticles, mosaic
/// plans, scheduler jobs, and the info strip on top.
pub open spec fn standard_order() -> Seq<LayerId> {
    seq![
        LayerId::Ground,
        LayerId::AltAzGrid,
        LayerId::Meridian,
        LayerId::EqGrid,
        LayerId::Ecliptic,
        LayerId::Zenith,
        LayerId::Stars,
        LayerId::ConstellationNames,
        LayerId::Dso,
        LayerId::SolarSystem,
        LayerId::SlewTrail,
        LayerId::MountCrosshair,
        LayerId::SolveMarker,
        LayerId::CenterCrosshair,
        LayerId::FovReticle,
        LayerId::Mosaic,
        LayerId::SchedulerJobs,
        LayerId::InfoOverlay,
    ]
}

/// One call the pipeline makes while drawing a frame.
#[derive(Clone, Copy, Debug, PartialEq, Eq)]
pub enum PipelineStep {
    /// Empty the GPU buffers that the layers fill.
    ClearGpuBuffers,
    /// Clear the 2D canvas: transparent over the GPU canvas (`true`), or
    /// opaque dark in fallback mode (`false`).
    Clear(bool),
    /// Let a layer prepare, handing it the GPU buffers when in GPU mode.
    Prepare(LayerId, bool),
    /// Let a layer emit GPU text.
    GpuText(LayerId),
    /// Let a layer draw on the 2D canvas.
    Draw(LayerId),
}

/// The enabled layers, in order.
pub open spec fn enabled_layers(layers: Seq<LayerId>, on: Seq<bool>) -> Seq<LayerId>
    decreases layers.len(),
{
    if layers.len() == 0 || on.len() != layers.len() {
        seq![]
    } else {
        let rest = enabled_layers(layers.drop_last(), on.drop_last());
        if on.last() {
            rest.push(layers.last())
        } else {
            rest
        }
    }
}

/// The calls of one frame: empty the GPU buffers; clear the canvas; every
/// enabled layer prepares; when a font
/// atlas exists, every enabled layer emits GPU text; every enabled layer draws.
pub open spec fn frame_plan(layers: Seq<LayerId>, on: Seq<bool>, gpu: bool, atlas: bool) -> Seq<
    PipelineStep,
> {
    let e = enabled_layers(layers, on);
    seq![PipelineStep::ClearGpuBuffers, PipelineStep::Clear(gpu)] + e.map_values(
        |l: LayerId| PipelineStep::Prepare(l, gpu),
    ) + (
    if atlas {
        e.map_values(|l: LayerId| PipelineStep::GpuText(l))
    } else {
        seq![]
    }) + e.map_values(|l: LayerId| PipelineStep::Draw(l))
}

/// Ordered list of overlay layers, with the GPU buffers the layers fill.
pub struct RenderPipeline<G> {
    layers: Vec<LayerId>,
    gpu_prepare: G,
}

impl<G> RenderPipeline<G> {
    /// The registered layers, in draw order.
    pub closed spec fn order(&self) -> Seq<LayerId> {
        self.layers@
    }

    /// The GPU buffers.
    pub closed spec fn buffers(&self) -> G {
        self.gpu_prepare
    }

    /// A pipeline with no layers, around the given (empty) GPU buffers.
    pub fn empty(gpu_prepare: G) -> (p: Self)
        ensures
            p.order() == Seq::<LayerId>::empty(),
            p.buffers() == gpu_prepare,
    {
        RenderPipeline { layers: Vec::new(), gpu_prepare }
    }

    /// The pipeline with the standard layers in draw order.
    pub fn standard(gpu_prepare: G) -> (p: Self)
        ensures
            p.order() == standard_order(),
            p.buffers() == gpu_prepare,
    {
        let mut p = Self::empty(gpu_prepare);
        p.register(LayerId::Ground);
        p.register(LayerId::AltAzGrid);
        p.register(LayerId::Meridian);
        p.register(LayerId::EqGrid);
        p.register(LayerId::Ecliptic);
        p.register(LayerId::Zenith);
        p.register(LayerId::Stars);
        p.register(LayerId::ConstellationNames);
        p.register(LayerId::Dso);
        p.register(LayerId::SolarSystem);
        p.register(LayerId::SlewTrail);
        p.register(LayerId::MountCrosshair);
        p.register(LayerId::SolveMarker);
        p.register(LayerId::CenterCrosshair);
        p.register(LayerId::FovReticle);
        p.register(LayerId::Mosaic);
        p.register(LayerId::SchedulerJobs);
        p.register(LayerId::InfoOverlay);
        assert(p.order() =~= standard_order());
        p
    }

    /// Adds a layer on top of the others.
    pub fn register(&mut self, layer: LayerId)
        ensures
            final(self).order() == old(self).order().push(layer),
            final(self).buffers() == old(self).buffers(),
    {
        self.layers.push(layer);
    }

    /// The GPU buffers.
    pub fn gpu_prepare(&self) -> (g: &G)
        ensures
            *g == self.buffers(),
    {
        &self.gpu_prepare
    }

    /// The GPU buffers, for filling.
    pub fn gpu_prepare_mut(&mut self) -> (g: &mut G)
        ensures
            *g == old(self).buffers(),
            final(self).order() == old(self).order(),
            final(self).buffers() == *final(g),
    {
        &mut self.gpu_prepare
    }

    /// The registered layers, in draw order.
    pub fn layers(&self) -> (r: Vec<LayerId>)
        ensures
            r@ == self.order(),
    {
        self.layers.clone()
    }

    /// The calls of one frame, given which layers are enabled (in layer
    /// order), whether the GPU renders, and whether a font atlas exists.
    pub fn run_plan(&self, enabled: &Vec<bool>, gpu: bool, atlas: bool) -> (r: Vec<PipelineStep>)
        requires
            enabled@.len() == self.order().len(),
        ensures
            r@ == frame_plan(self.order(), enabled@, gpu, atlas),
    {
        let mut on: Vec<LayerId> = Vec::new();
        let mut i: usize = 0;
        while i < self.layers.len()
            invariant
                i <= self.layers@.len(),
                enabled@.len() == self.layers@.len(),
                on@ == enabled_layers(self.layers@.subrange(0, i as int), enabled@.subrange(0, i as int)),
            decreases self.layers.len() - i,
        {
            proof {
                let l = self.layers@.subrange(0, i + 1);
                let o = enabled@.subrange(0, i + 1);
                assert(l.drop_last() =~= self.layers@.subrange(0, i as int));
                assert(o.drop_last() =~= enabled@.subrange(0, i as int));
            }
            if enabled[i] {
                on.push(self.layers[i]);
            }
            i += 1;
        }
        assert(self.layers@.subrange(0, self.layers@.len() as int) =~= self.layers@);
        assert(enabled@.subrange(0, enabled@.len() as int) =~= enabled@);
        let mut out: Vec<PipelineStep> = Vec::new();
        out.push(PipelineStep::ClearGpuBuffers);
        out.push(PipelineStep::Clear(gpu));
        let ghost e = on@;
        let ghost base = out@;
        let mut j: usize = 0;
        while j < on.len()
            invariant
                j <= on@.len(),
                e == on@,
                out@ == base + e.subrange(0, j as int).map_values(|l: LayerId| PipelineStep::Prepare(l, gpu)),
            decreases on.len() - j,
        {
            out.push(PipelineStep::Prepare(on[j], gpu));
            j += 1;
            assert(out@ =~= base + e.subrange(0, j as int).map_values(|l: LayerId| PipelineStep::Prepare(l, gpu)));
        }
        assert(e.subrange(0, e.len() as int) =~= e);
        let ghost base2 = out@;
        if atlas {
            let mut j: usize = 0;
            while j < on.len()
                invariant
                    j <= on@.len(),
                    e == on@,
                    out@ == base2 + e.subrange(0, j as int).map_values(|l: LayerId| PipelineStep::GpuText(l)),
                decreases on.len() - j,
            {
                out.push(PipelineStep::GpuText(on[j]));
                j += 1;
                assert(out@ =~= base2 + e.subrange(0, j as int).map_values(|l: LayerId| PipelineStep::GpuText(l)));
            }
        } else {
            assert(out@ =~= base2 + Seq::<PipelineStep>::empty());
        }
        let ghost base3 = out@;
        let mut j: usize = 0;
        while j < on.len()
            invariant
                j <= on@.len(),
                e == on@,
                out@ == base3 + e.subrange(0, j as int).map_values(|l: LayerId| PipelineStep::Draw(l)),
            decreases on.len() - j,
        {
            out.push(PipelineStep::Draw(on[j]));
            j += 1;
            assert(out@ =~= base3 + e.subrange(0, j as int).map_values(|l: LayerId| PipelineStep::Draw(l)));
        }
        assert(out@ =~= frame_plan(self.layers@, enabled@, gpu, atlas));
        out
    }
}

/// The FOV reticle layer: camera-frame rectangles around the view centre and
/// the mount position.
pub struct FovReticleLayer;

impl FovReticleLayer {
    /// The layer's name.
    pub fn name(&self) -> (r: &'static str)
        ensures
            r@ == "fov_reticle"@,
    {
        "fov_reticle"
    }

    /// The layer draws when the FOV toggle is on.
    pub fn enabled(&self, fov_on: bool) -> (r: bool)
        ensures
            r == fov_on,
    {
        fov_on
    }
}

/// Whether a step is a draw.
pub open spec fn is_draw(s: PipelineStep) -> bool {
    s is Draw
}

/// A frame empties the GPU buffers and clears the canvas first, then every
/// enabled layer prepares, in registration
/// order, before any layer draws; the layers then draw in the same order,
/// each once, and disabled layers take no part.
pub proof fn law_frame_prepares_before_drawing(
    layers: Seq<LayerId>,
    on: Seq<bool>,
    gpu: bool,
    atlas: bool,
)
    ensures
        ({
            let e = enabled_layers(layers, on);
            let plan = frame_plan(layers, on, gpu, atlas);
            let n = e.len() as int;
            let t = if atlas {
                n
            } else {
                0
            };
            &&& plan.len() == 2 + n + t + n
            &&& plan[0] == PipelineStep::ClearGpuBuffers
            &&& plan[1] == PipelineStep::Clear(gpu)
            &&& forall|k: int| 0 <= k < n ==> plan[2 + k] == PipelineStep::Prepare(#[trigger] e[k], gpu)
            &&& forall|k: int| 0 <= k < n ==> plan[2 + n + t + k] == PipelineStep::Draw(#[trigger] e[k])
            &&& forall|i: int| 0 <= i < 2 + n + t ==> !is_draw(#[trigger] plan[i])
        }),
{
    let e = enabled_layers(layers, on);
    let n = e.len() as int;
    let pre = e.map_values(|l: LayerId| PipelineStep::Prepare(l, gpu));
    let txt = if atlas {
        e.map_values(|l: LayerId| PipelineStep::GpuText(l))
    } else {
        seq![]
    };
    let drw = e.map_values(|l: LayerId| PipelineStep::Draw(l));
    let plan = frame_plan(layers, on, gpu, atlas);
    let a = seq![PipelineStep::ClearGpuBuffers, PipelineStep::Clear(gpu)] + pre;
    let b = a + txt;
    assert(plan == b + drw);
    assert forall|i: int| 0 <= i < b.len() implies !is_draw(#[trigger] plan[i]) by {
        assert(plan[i] == b[i]);
        if i < a.len() {
            assert(b[i] == a[i]);
            if i > 1 {
                assert(a[i] == pre[i - 2]);
            }
        } else {
            assert(b[i] == txt[i - a.len()]);
        }
    }
    assert forall|k: int| 0 <= k < n implies plan[2 + k] == PipelineStep::Prepare(
        #[trigger] e[k],
        gpu,
    ) by {
        assert(plan[2 + k] == b[2 + k]);
        assert(b[2 + k] == a[2 + k]);
        assert(a[2 + k] == pre[k]);
    }
    assert forall|k: int| 0 <= k < n implies plan[b.len() + k] == PipelineStep::Draw(
        #[trigger] e[k],
    ) by {
        assert(plan[b.len() + k] == drw[k]);
    }
}

} // verus!
