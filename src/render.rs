use vstd::prelude::*;
use crate::loader::{resolve_material, resolved_material};
use crate::model::{Instance, Model};

verus! {

/// The binding slot of the camera's uniform buffer.
pub const CAMERA_GROUP: u32 = 0;

/// The binding slot of a material's texture and sampler.
pub const MATERIAL_GROUP: u32 = 1;

/// One indexed draw: bind the vertex and index buffers of sub-mesh `mesh` of
/// instance `instance`, bind material `material` of that instance's model at
/// `MATERIAL_GROUP`, and draw indices `0..index_count` once.
#[derive(Clone, Copy, Debug, PartialEq, Eq, Structural)]
pub struct DrawCall {
    pub instance: usize,
    pub mesh: usize,
    pub material: usize,
    pub index_count: u32,
}

/// Why the next presentable image could not be acquired.
#[derive(Clone, Copy, Debug, PartialEq, Eq, Structural)]
pub enum SurfaceFailure {
    Timeout,
    Outdated,
    Lost,
    OutOfMemory,
}

/// What to do after a failed acquisition.
#[derive(Clone, Copy, Debug, PartialEq, Eq, Structural)]
pub enum Recovery {
    /// Reconfigure the surface at its current size and try once more.
    Reconfigure,
    /// Give up on this frame and report the failure.
    Fail,
}

/// Why a frame could not be rendered.
#[derive(Clone, Copy, Debug, PartialEq, Eq, Structural)]
pub enum FrameError {
    /// The model of this instance has sub-meshes but no material to draw them with.
    NoMaterial { instance: usize },
    /// No presentable image could be acquired.
    Surface(SurfaceFailure),
}

/// Timeouts, outdated and lost surfaces are transient (they come with resizing
/// and minimizing): the first one is answered by reconfiguring and retrying.
/// Running out of memory, or failing again after a retry, fails the frame.
pub open spec fn recovery_for(failure: SurfaceFailure, retried: bool) -> Recovery {
    if retried || failure is OutOfMemory {
        Recovery::Fail
    } else {
        Recovery::Reconfigure
    }
}

pub fn surface_recovery(failure: SurfaceFailure, retried: bool) -> (r: Recovery)
    ensures
        r == recovery_for(failure, retried),
{
    if retried {
        return Recovery::Fail;
    }
    match failure {
        SurfaceFailure::OutOfMemory => Recovery::Fail,
        _ => Recovery::Reconfigure,
    }
}

/// A model can be drawn when each of its sub-meshes resolves to a material.
pub open spec fn drawable<B, T, G>(model: Model<B, T, G>) -> bool {
    model.mesh@.len() == 0 || model.material@.len() > 0
}

/// The draws of the model of instance `i`, one per sub-mesh in order.
pub open spec fn model_calls<B, T, G>(i: int, model: Model<B, T, G>) -> Seq<DrawCall> {
    Seq::new(
        model.mesh@.len(),
        |k: int|
            DrawCall {
                instance: i as usize,
                mesh: k as usize,
                material: resolved_material(
                    Some(model.mesh@[k].material),
                    model.material@.len(),
                )->0,
                index_count: model.mesh@[k].num_elements,
            },
    )
}

/// The draws of a frame: instance by instance in list order, and within an
/// instance sub-mesh by sub-mesh.
pub open spec fn frame_calls<B, T, G>(s: Seq<Instance<B, T, G>>) -> Seq<DrawCall>
    decreases s.len(),
{
    if s.len() == 0 {
        Seq::empty()
    } else {
        frame_calls(s.drop_last()) + model_calls(s.len() - 1, s.last().model)
    }
}

/// Appends the draws of one model, placed as instance `i`.
pub fn draw_model<B, T, G>(i: usize, model: &Model<B, T, G>, calls: &mut Vec<DrawCall>)
    requires
        drawable(*model),
    ensures
        final(calls)@ == old(calls)@ + model_calls(i as int, *model),
{
    let count = model.material.len();
    let mut k: usize = 0;
    while k < model.mesh.len()
        invariant
            k <= model.mesh@.len(),
            count == model.material@.len(),
            drawable(*model),
            calls@ == old(calls)@ + model_calls(i as int, *model).take(k as int),
        decreases model.mesh@.len() - k,
    {
        let mesh = &model.mesh[k];
        let material = match resolve_material(Some(mesh.material), count) {
            Some(m) => m,
            None => 0,
        };
        calls.push(DrawCall { instance: i, mesh: k, material, index_count: mesh.num_elements });
        assert(model_calls(i as int, *model).take(k + 1) =~= model_calls(i as int, *model).take(
            k as int,
        ).push(model_calls(i as int, *model)[k as int]));
        k += 1;
    }
    assert(model_calls(i as int, *model).take(k as int) =~= model_calls(i as int, *model));
}

/// Plans the draws of one frame over the instance list.
pub fn frame_draws<B, T, G>(instances: &Vec<Instance<B, T, G>>) -> (r: Result<Vec<DrawCall>, FrameError>)
    ensures
        r is Ok <==> forall|j: int| 0 <= j < instances@.len() ==> drawable(#[trigger] instances@[j].model),
        r matches Ok(calls) ==> calls@ == frame_calls(instances@),
        r matches Err(e) ==> e is NoMaterial,
        r matches Err(FrameError::NoMaterial { instance }) ==> {
            &&& instance < instances@.len()
            &&& !drawable(instances@[instance as int].model)
            &&& forall|j: int| 0 <= j < instance ==> drawable(#[trigger] instances@[j].model)
        },
{
    let mut calls: Vec<DrawCall> = Vec::new();
    let mut i: usize = 0;
    while i < instances.len()
        invariant
            i <= instances@.len(),
            forall|j: int| 0 <= j < i ==> drawable(#[trigger] instances@[j].model),
            calls@ == frame_calls(instances@.take(i as int)),
        decreases instances@.len() - i,
    {
        let model = &instances[i].model;
        if model.mesh.len() > 0 && model.material.len() == 0 {
            return Err(FrameError::NoMaterial { instance: i });
        }
        draw_model(i, model, &mut calls);
        assert(instances@.take(i + 1).drop_last() =~= instances@.take(i as int));
        i += 1;
    }
    assert(instances@.take(i as int) =~= instances@);
    Ok(calls)
}

/// Draw order follows the instance list: every draw names an instance of the
/// list, the draws of an instance earlier in the list come before those of one
/// later, and the draws of one instance follow its sub-mesh order.
pub proof fn lemma_draw_order<B, T, G>(s: Seq<Instance<B, T, G>>)
    requires
        s.len() <= usize::MAX,
        forall|j: int| 0 <= j < s.len() ==> (#[trigger] s[j]).model.mesh@.len() <= usize::MAX,
    ensures
        forall|p: int|
            0 <= p < frame_calls(s).len() ==> (#[trigger] frame_calls(s)[p]).instance < s.len(),
        forall|p: int, q: int|
            0 <= p < q < frame_calls(s).len() ==> {
                let a = #[trigger] frame_calls(s)[p];
                let b = #[trigger] frame_calls(s)[q];
                a.instance < b.instance || (a.instance == b.instance && a.mesh < b.mesh)
            },
    decreases s.len(),
{
    if s.len() > 0 {
        let prev = s.drop_last();
        assert forall|j: int| 0 <= j < prev.len() implies (#[trigger] prev[j]).model.mesh@.len()
            <= usize::MAX by {
            assert(prev[j] == s[j]);
        }
        lemma_draw_order(prev);
        let head = frame_calls(prev);
        let tail = model_calls(s.len() - 1, s.last().model);
        assert(frame_calls(s) == head + tail);
        assert forall|p: int| 0 <= p < frame_calls(s).len() implies (#[trigger] frame_calls(
            s,
        )[p]).instance < s.len() by {
            if p >= head.len() {
                assert(frame_calls(s)[p] == tail[p - head.len()]);
            } else {
                assert(frame_calls(s)[p] == head[p]);
            }
        }
        assert forall|p: int, q: int| 0 <= p < q < frame_calls(s).len() implies {
            let a = #[trigger] frame_calls(s)[p];
            let b = #[trigger] frame_calls(s)[q];
            a.instance < b.instance || (a.instance == b.instance && a.mesh < b.mesh)
        } by {
            if q < head.len() {
                assert(frame_calls(s)[p] == head[p]);
                assert(frame_calls(s)[q] == head[q]);
            } else if p < head.len() {
                assert(frame_calls(s)[p] == head[p]);
                assert(frame_calls(s)[q] == tail[q - head.len()]);
            } else {
                assert(s[s.len() - 1] == s.last());
                assert(frame_calls(s)[p] == tail[p - head.len()]);
                assert(frame_calls(s)[q] == tail[q - head.len()]);
            }
        }
    }
}

} // verus!
