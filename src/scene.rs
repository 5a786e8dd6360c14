use vstd::prelude::*;
use crate::model::Instance;
use crate::render::{frame_calls, frame_draws, drawable, lemma_draw_order, DrawCall, FrameError};

verus! {

/// The placed model instances of the world, in the order they were added,
/// which is also the order they are drawn in.
pub struct Scene<B, T, G> {
    instances: Vec<Instance<B, T, G>>,
}

impl<B, T, G> View for Scene<B, T, G> {
    type V = Seq<Instance<B, T, G>>;

    closed spec fn view(&self) -> Seq<Instance<B, T, G>> {
        self.instances@
    }
}

/// The instance list after adding each of `adds` in turn to `start`.
pub open spec fn after_adds<B, T, G>(
    start: Seq<Instance<B, T, G>>,
    adds: Seq<Instance<B, T, G>>,
) -> Seq<Instance<B, T, G>>
    decreases adds.len(),
{
    if adds.len() == 0 {
        start
    } else {
        after_adds(start, adds.drop_last()).push(adds.last())
    }
}

impl<B, T, G> Scene<B, T, G> {
    pub fn new() -> (s: Scene<B, T, G>)
        ensures
            s@ == Seq::<Instance<B, T, G>>::empty(),
    {
        Scene { instances: Vec::new() }
    }

    /// Appends an instance to the end of the list.
    pub fn add_instance(&mut self, instance: Instance<B, T, G>)
        ensures
            final(self)@ == old(self)@.push(instance),
    {
        self.instances.push(instance);
    }

    pub fn instances(&self) -> (r: &Vec<Instance<B, T, G>>)
        ensures
            r@ == self@,
    {
        &self.instances
    }

    pub fn len(&self) -> (r: usize)
        ensures
            r == self@.len(),
    {
        self.instances.len()
    }

    pub fn is_empty(&self) -> (r: bool)
        ensures
            r == (self@.len() == 0),
    {
        self.instances.len() == 0
    }

    /// Plans this frame's draws.
    pub fn draw_calls(&self) -> (r: Result<Vec<DrawCall>, FrameError>)
        ensures
            r is Ok <==> forall|j: int| 0 <= j < self@.len() ==> drawable(#[trigger] self@[j].model),
            r matches Ok(calls) ==> calls@ == frame_calls(self@),
            r matches Err(e) ==> e is NoMaterial,
            r matches Err(FrameError::NoMaterial { instance }) ==> {
                &&& instance < self@.len()
                &&& !drawable(self@[instance as int].model)
                &&& forall|j: int| 0 <= j < instance ==> drawable(#[trigger] self@[j].model)
            },
    {
        assert(self@ == self.instances@);
        frame_draws(&self.instances)
    }
}

/// Adding instances one after another to an empty list leaves exactly those
/// instances, as many as there were additions, in the order they were added.
pub proof fn lemma_adds_kept_in_order<B, T, G>(adds: Seq<Instance<B, T, G>>)
    ensures
        after_adds(Seq::empty(), adds) == adds,
        after_adds(Seq::empty(), adds).len() == adds.len(),
    decreases adds.len(),
{
    if adds.len() > 0 {
        lemma_adds_kept_in_order(adds.drop_last());
        assert(adds.drop_last().push(adds.last()) =~= adds);
    }
}

/// Draw order is the order of the additions: after adding `adds` one by one to an
/// empty list, each draw of a frame names one of the added instances, and draws
/// of an instance added earlier come before draws of one added later.
pub proof fn lemma_draws_follow_adds<B, T, G>(adds: Seq<Instance<B, T, G>>)
    requires
        adds.len() <= usize::MAX,
        forall|j: int| 0 <= j < adds.len() ==> (#[trigger] adds[j]).model.mesh@.len() <= usize::MAX,
    ensures
        ({
            let calls = frame_calls(after_adds(Seq::empty(), adds));
            &&& forall|p: int| 0 <= p < calls.len() ==> (#[trigger] calls[p]).instance < adds.len()
            &&& forall|p: int, q: int|
                0 <= p < q < calls.len() ==> (#[trigger] calls[p]).instance <= (#[trigger] calls[q]).instance
        }),
{
    lemma_adds_kept_in_order(adds);
    lemma_draw_order(adds);
}

} // verus!
