//! Per-frame work of a session: resolving hit-test rays to their base poses,
//! pairing them with the faces they may hit, and assembling the frame.

use vstd::prelude::*;
use crate::device::{DeviceState, Region};
use crate::hit_test::{BaseSpace, EntityTypes, HitTestSource};
use crate::input::{find_input, infos_view, input_slot, InputInfoView};

verus! {

/// The pose a hit-test space is based on, in native space: the identity, the
/// inverse of a pose, or a pose.
#[derive(Clone, Copy, Debug)]
pub enum BaseOrigin<T> {
    Identity,
    InverseOf(T),
    Pose(T),
}

/// The base pose of `base`, or `None` where the device has none for it now.
pub open spec fn base_origin<T>(
    floor_transform: Option<T>,
    viewer_origin: Option<T>,
    inputs: Seq<InputInfoView<T>>,
    base: BaseSpace,
) -> Option<BaseOrigin<T>> {
    match base {
        BaseSpace::Local => Some(BaseOrigin::Identity),
        BaseSpace::Floor => match floor_transform {
            Some(f) => Some(BaseOrigin::InverseOf(f)),
            None => None,
        },
        BaseSpace::Viewer => match viewer_origin {
            Some(v) => Some(BaseOrigin::Pose(v)),
            None => None,
        },
        BaseSpace::TargetRay(id) => match input_slot(inputs, id) {
            Some(i) => match inputs[i].pointer {
                Some(p) => Some(BaseOrigin::Pose(p)),
                None => None,
            },
            None => None,
        },
        BaseSpace::Grip(id) => match input_slot(inputs, id) {
            Some(i) => match inputs[i].grip {
                Some(p) => Some(BaseOrigin::Pose(p)),
                None => None,
            },
            None => None,
        },
    }
}

/// One ray-face intersection to compute this frame: source `source` (an
/// index into the committed sources, of id `source_id`), resolved against
/// `base`, and face `face` of region `region`.
#[derive(Clone, Copy, Debug)]
pub struct HitCandidate<T> {
    pub source: usize,
    pub source_id: u32,
    pub base: BaseOrigin<T>,
    pub region: usize,
    pub face: usize,
}

/// The candidates of source `k` against the faces of region `j`, which has `n` faces.
pub open spec fn face_candidates<T>(k: int, id: u32, base: BaseOrigin<T>, j: int, n: nat) -> Seq<HitCandidate<T>> {
    Seq::new(n, |f: int| HitCandidate { source: k as usize, source_id: id, base, region: j as usize, face: f as usize })
}

/// The candidates of source `k` against every region whose kind it looks for,
/// in region order.
pub open spec fn region_candidates<T, F>(
    k: int,
    id: u32,
    base: BaseOrigin<T>,
    types: EntityTypes,
    regions: Seq<Region<F>>,
) -> Seq<HitCandidate<T>>
    decreases regions.len(),
{
    if regions.len() == 0 {
        Seq::empty()
    } else {
        let j = regions.len() - 1;
        region_candidates(k, id, base, types, regions.drop_last()) + if types.has(regions[j].ty) {
            face_candidates(k, id, base, j, regions[j].faces@.len())
        } else {
            Seq::empty()
        }
    }
}

/// The candidates of the sources `sources`, the first of which has index `k`:
/// source after source, up to the first one whose base pose is missing.
pub open spec fn source_candidates<T, R, F>(
    floor_transform: Option<T>,
    viewer_origin: Option<T>,
    inputs: Seq<InputInfoView<T>>,
    sources: Seq<HitTestSource<T, R>>,
    k: int,
    regions: Seq<Region<F>>,
) -> Seq<HitCandidate<T>>
    decreases sources.len(),
{
    if sources.len() == 0 {
        Seq::empty()
    } else {
        match base_origin(floor_transform, viewer_origin, inputs, sources[0].space.base) {
            None => Seq::empty(),
            Some(b) => region_candidates(k, sources[0].id, b, sources[0].types, regions)
                + source_candidates(
                floor_transform,
                viewer_origin,
                inputs,
                sources.drop_first(),
                k + 1,
                regions,
            ),
        }
    }
}

/// Resolves the base pose of `base` on the device's current state.
pub fn resolve_base<T: Copy, F, V>(data: &DeviceState<T, F, V>, base: BaseSpace) -> (r: Option<BaseOrigin<T>>)
    ensures
        r == base_origin(data.floor_transform, data.viewer_origin, infos_view(data.inputs@), base),
{
    match base {
        BaseSpace::Local => Some(BaseOrigin::Identity),
        BaseSpace::Floor => match data.floor_transform {
            Some(f) => Some(BaseOrigin::InverseOf(f)),
            None => None,
        },
        BaseSpace::Viewer => match data.viewer_origin {
            Some(v) => Some(BaseOrigin::Pose(v)),
            None => None,
        },
        BaseSpace::TargetRay(id) => match find_input(&data.inputs, id) {
            Some(i) => match data.inputs[i].pointer {
                Some(p) => Some(BaseOrigin::Pose(p)),
                None => None,
            },
            None => None,
        },
        BaseSpace::Grip(id) => match find_input(&data.inputs, id) {
            Some(i) => match data.inputs[i].grip {
                Some(p) => Some(BaseOrigin::Pose(p)),
                None => None,
            },
            None => None,
        },
    }
}

/// Appends the candidates of source `k` against `regions`.
fn push_region_candidates<T: Copy, F>(
    out: &mut Vec<HitCandidate<T>>,
    k: usize,
    id: u32,
    base: BaseOrigin<T>,
    types: EntityTypes,
    regions: &Vec<Region<F>>,
)
    ensures
        final(out)@ == old(out)@ + region_candidates(k as int, id, base, types, regions@),
{
    let ghost start = out@;
    let mut j: usize = 0;
    while j < regions.len()
        invariant
            j <= regions.len(),
            out@ == start + region_candidates(k as int, id, base, types, regions@.subrange(0, j as int)),
        decreases regions.len() - j,
    {
        let region = &regions[j];
        let ghost before = out@;
        assert(regions@.subrange(0, j + 1).drop_last() =~= regions@.subrange(0, j as int));
        if types.is_type(region.ty) {
            let mut f: usize = 0;
            while f < region.faces.len()
                invariant
                    f <= region.faces.len(),
                    out@ == before + face_candidates(k as int, id, base, j as int, f as nat),
                decreases region.faces.len() - f,
            {
                out.push(HitCandidate { source: k, source_id: id, base, region: j, face: f });
                f = f + 1;
                assert(out@ =~= before + face_candidates(k as int, id, base, j as int, f as nat));
            }
        }
        proof {
            let sub = regions@.subrange(0, j + 1);
            assert(sub[j as int] == regions@[j as int]);
            if types.has(region.ty) {
                assert(out@ =~= start + region_candidates(k as int, id, base, types, sub));
            } else {
                assert(out@ =~= start + region_candidates(k as int, id, base, types, sub));
            }
        }
        j = j + 1;
    }
    assert(regions@.subrange(0, j as int) =~= regions@);
}

/// The ray-face pairs to intersect this frame for the committed sources
/// `tests`: none without world geometry.
pub fn hit_candidates<T: Copy, R: Copy, F, V>(data: &DeviceState<T, F, V>, tests: &Vec<HitTestSource<T, R>>) -> (r: Vec<HitCandidate<T>>)
    ensures
        r@ == match data.world {
            Some(w) => source_candidates(
                data.floor_transform,
                data.viewer_origin,
                infos_view(data.inputs@),
                tests@,
                0,
                w.regions@,
            ),
            None => Seq::empty(),
        },
{
    let mut out: Vec<HitCandidate<T>> = Vec::new();
    match &data.world {
        None => out,
        Some(w) => {
            let ghost ins = infos_view(data.inputs@);
            let ghost total = source_candidates(data.floor_transform, data.viewer_origin, ins, tests@, 0, w.regions@);
            let mut i: usize = 0;
            assert(tests@.subrange(0, tests@.len() as int) =~= tests@);
            assert(Seq::<HitCandidate<T>>::empty() + total =~= total);
            while i < tests.len()
                invariant
                    i <= tests.len(),
                    total == out@ + source_candidates(
                        data.floor_transform,
                        data.viewer_origin,
                        ins,
                        tests@.subrange(i as int, tests@.len() as int),
                        i as int,
                        w.regions@,
                    ),
                    ins == infos_view(data.inputs@),
                    data.world == Some(*w),
                    total == source_candidates(data.floor_transform, data.viewer_origin, ins, tests@, 0, w.regions@),
                decreases tests.len() - i,
            {
                let source = tests[i];
                let ghost rest = tests@.subrange(i as int, tests@.len() as int);
                assert(rest[0] == source);
                assert(rest.drop_first() =~= tests@.subrange(i + 1, tests@.len() as int));
                match resolve_base(data, source.space.base) {
                    None => {
                        assert(source_candidates(data.floor_transform, data.viewer_origin, ins, rest, i as int,
                            w.regions@) =~= Seq::<HitCandidate<T>>::empty());
                        assert(out@ + Seq::<HitCandidate<T>>::empty() =~= out@);
                        return out;
                    },
                    Some(b) => {
                        let ghost before = out@;
                        push_region_candidates(&mut out, i, source.id, b, source.types, &w.regions);
                        assert(before + region_candidates(i as int, source.id, b, source.types, w.regions@)
                            + source_candidates(data.floor_transform, data.viewer_origin, ins,
                                tests@.subrange(i + 1, tests@.len() as int), i + 1, w.regions@)
                            =~= out@ + source_candidates(data.floor_transform, data.viewer_origin, ins,
                                tests@.subrange(i + 1, tests@.len() as int), i + 1, w.regions@));
                    },
                }
                i = i + 1;
            }
            assert(tests@.subrange(i as int, tests@.len() as int).len() == 0);
            assert(out@ + Seq::<HitCandidate<T>>::empty() =~= out@);
            out
        },
    }
}

/// A source meets no face of a world where no region is of a kind it looks for.
pub proof fn lemma_no_matching_region<T, F>(
    k: int,
    id: u32,
    base: BaseOrigin<T>,
    types: EntityTypes,
    regions: Seq<Region<F>>,
)
    requires
        forall|j: int| 0 <= j < regions.len() ==> !types.has(#[trigger] regions[j].ty),
    ensures
        region_candidates(k, id, base, types, regions).len() == 0,
    decreases regions.len(),
{
    if regions.len() > 0 {
        let front = regions.drop_last();
        assert forall|j: int| 0 <= j < front.len() implies !types.has(#[trigger] front[j].ty) by {
            assert(front[j] == regions[j]);
        }
        lemma_no_matching_region(k, id, base, types, front);
    }
}

/// A source whose base pose resolves, in a world with one region of a kind
/// it looks for, is paired with each face of that region exactly once, in
/// face order; a source looking for no kind of that region with none.
pub proof fn lemma_one_pair_per_matching_face<T, R, F>(
    floor_transform: Option<T>,
    viewer_origin: Option<T>,
    inputs: Seq<InputInfoView<T>>,
    source: HitTestSource<T, R>,
    region: Region<F>,
)
    requires
        base_origin(floor_transform, viewer_origin, inputs, source.space.base) is Some,
    ensures
        ({
            let b = base_origin(floor_transform, viewer_origin, inputs, source.space.base)->Some_0;
            let c = source_candidates(floor_transform, viewer_origin, inputs, seq![source], 0, seq![region]);
            &&& source.types.has(region.ty) ==> c == face_candidates(0, source.id, b, 0, region.faces@.len())
            &&& !source.types.has(region.ty) ==> c.len() == 0
            &&& source.types.has(region.ty) ==> c.len() == region.faces@.len()
        }),
{
    let b = base_origin(floor_transform, viewer_origin, inputs, source.space.base)->Some_0;
    let regions = seq![region];
    assert(regions.drop_last() =~= Seq::<Region<F>>::empty());
    assert(seq![source].drop_first() =~= Seq::<HitTestSource<T, R>>::empty());
    let own = region_candidates(0, source.id, b, source.types, regions);
    let none = Seq::<HitCandidate<T>>::empty();
    assert(region_candidates(0, source.id, b, source.types, regions.drop_last()) == none);
    assert(regions[0] == region);
    assert(seq![source][0] == source);
    assert(source_candidates(floor_transform, viewer_origin, inputs, Seq::<HitTestSource<T, R>>::empty(), 1,
        regions) == none);
    if source.types.has(region.ty) {
        assert(own =~= face_candidates(0, source.id, b, 0, region.faces@.len()));
    } else {
        assert(own =~= Seq::<HitCandidate<T>>::empty());
    }
    let c = source_candidates(floor_transform, viewer_origin, inputs, seq![source], 0, regions);
    assert(c =~= own);
}

} // verus!
