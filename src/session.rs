//! One session on the simulated device: its granted features, its hit-test
//! sources, and the assembly of each animation frame.

use vstd::prelude::*;
use crate::device::{
    emit_all, events_view, now_ns, queue_view, raised_into, DeviceState, Event, EventView,
    FrameSnapshot, snapshot_view,
};
use crate::input::InputSource;
use crate::frame::{HitCandidate, hit_candidates, source_candidates};
use crate::hit_test::{ids_of, HitTestList, HitTestSource, without_id};
use crate::input::infos_view;

verus! {

#[derive(Clone, Copy, Debug, PartialEq, Eq, Structural)]
pub enum SessionMode {
    Inline,
    ImmersiveVR,
    ImmersiveAR,
}

/// A change reported with a frame. `W` is the caller's views value.
#[derive(Debug)]
pub enum FrameUpdateEvent<T, W> {
    HitTestSourceAdded(u32),
    UpdateViews(W),
    UpdateFloorTransform(Option<T>),
}

/// One animation frame: the poses, the changes since the last frame, and the
/// ray-face pairs whose intersections are the frame's hit-test results.
pub struct Frame<T, W> {
    pub snapshot: FrameSnapshot<T>,
    pub events: Vec<FrameUpdateEvent<T, W>>,
    pub hit_candidates: Vec<HitCandidate<T>>,
}

/// The notices for sources of ids `ids`, in order.
pub open spec fn added_events<T, W>(ids: Seq<u32>) -> Seq<FrameUpdateEvent<T, W>> {
    ids.map_values(|id: u32| FrameUpdateEvent::HitTestSourceAdded(id))
}

/// The frame's events: sources added, then new views, then a new floor.
pub open spec fn frame_events<T, W>(
    added: Seq<u32>,
    view_update: Option<W>,
    floor_update: Option<Option<T>>,
) -> Seq<FrameUpdateEvent<T, W>> {
    added_events(added) + match view_update {
        Some(w) => seq![FrameUpdateEvent::UpdateViews(w)],
        None => Seq::empty(),
    } + match floor_update {
        Some(f) => seq![FrameUpdateEvent::UpdateFloorTransform(f)],
        None => Seq::empty(),
    }
}

/// `r` is the frame assembled at `time_ns` from device state `pre` by session
/// `s`, which become `post` and `s2`: pending sources are committed, the view
/// and floor marks are reported (in that order, after the added sources) and
/// cleared, and each committed source is paired with the faces it may hit.
pub open spec fn frame_assembled<T, R, F, V, W>(
    s: HeadlessDevice<T, R>,
    s2: HeadlessDevice<T, R>,
    pre: DeviceState<T, F, V>,
    post: DeviceState<T, F, V>,
    time_ns: u64,
    views: W,
    r: Frame<T, W>,
) -> bool {
    &&& post == (DeviceState { needs_view_update: false, needs_floor_update: false, ..pre })
    &&& s2.mode == s.mode
    &&& s2.granted_features == s.granted_features
    &&& s2.hit_tests.tests@ == s.hit_tests.tests@ + s.hit_tests.uncommitted_tests@
    &&& s2.hit_tests.uncommitted_tests@.len() == 0
    &&& r.snapshot@ == snapshot_view(pre.viewer_origin, infos_view(pre.inputs@), time_ns)
    &&& r.events@ == frame_events(
        ids_of(s.hit_tests.uncommitted_tests@),
        if pre.needs_view_update { Some(views) } else { None },
        if pre.needs_floor_update { Some(pre.floor_transform) } else { None },
    )
    &&& r.hit_candidates@ == match pre.world {
        Some(w) => source_candidates(
            pre.floor_transform,
            pre.viewer_origin,
            infos_view(pre.inputs@),
            s2.hit_tests.tests@,
            0,
            w.regions@,
        ),
        None => Seq::empty(),
    }
}

/// A session on the simulated device. `T` is the pose type and `R` the ray type.
pub struct HeadlessDevice<T, R> {
    pub mode: SessionMode,
    pub hit_tests: HitTestList<T, R>,
    pub granted_features: Vec<String>,
}

impl<T: Copy, R: Copy> HeadlessDevice<T, R> {
    pub fn new(mode: SessionMode, granted_features: Vec<String>) -> (r: Self)
        ensures
            r.mode == mode,
            r.granted_features == granted_features,
            r.hit_tests.tests@.len() == 0,
            r.hit_tests.uncommitted_tests@.len() == 0,
    {
        HeadlessDevice { mode, hit_tests: HitTestList::new(), granted_features }
    }

    /// Assembles the frame at time `time_ns` from the device state: commits
    /// the pending hit-test sources, reports `views` if the view configuration
    /// changed and the floor transform if it changed (clearing both marks), and
    /// pairs every committed source with the faces it may hit.
    pub fn assemble_frame<F, V, W>(
        &mut self,
        data: &mut DeviceState<T, F, V>,
        time_ns: u64,
        views: W,
    ) -> (r: Frame<T, W>)
        ensures
            frame_assembled(*old(self), *final(self), *old(data), *final(data), time_ns, views, r),
    {
        let snapshot = data.get_frame(time_ns);
        let added = self.hit_tests.commit_tests();
        let mut events: Vec<FrameUpdateEvent<T, W>> = Vec::new();
        let mut i: usize = 0;
        while i < added.len()
            invariant
                i <= added.len(),
                events@ == added_events::<T, W>(added@.subrange(0, i as int)),
            decreases added.len() - i,
        {
            events.push(FrameUpdateEvent::HitTestSourceAdded(added[i]));
            i = i + 1;
            assert(events@ =~= added_events::<T, W>(added@.subrange(0, i as int)));
        }
        assert(added@.subrange(0, i as int) =~= added@);
        let ghost after_added = events@;
        if data.needs_view_update {
            data.needs_view_update = false;
            events.push(FrameUpdateEvent::UpdateViews(views));
        }
        let ghost after_views = events@;
        let hits = hit_candidates(data, &self.hit_tests.tests);
        if data.needs_floor_update {
            events.push(FrameUpdateEvent::UpdateFloorTransform(data.floor_transform));
            data.needs_floor_update = false;
        }
        assert(events@ =~= frame_events(
            ids_of(old(self).hit_tests.uncommitted_tests@),
            if old(data).needs_view_update { Some(views) } else { None },
            if old(data).needs_floor_update { Some(old(data).floor_transform) } else { None },
        ));
        Frame { snapshot, events, hit_candidates: hits }
    }

    /// Assembles the next frame, stamped with the clock.
    pub fn wait_for_animation_frame<F, V, W>(&mut self, data: &mut DeviceState<T, F, V>, views: W) -> (r: Frame<
        T,
        W,
    >)
        ensures
            exists|t: u64| frame_assembled(*old(self), *final(self), *old(data), *final(data), t, views, r),
    {
        let t = now_ns();
        self.assemble_frame(data, t, views)
    }

    /// Registers a hit-test source; it is committed with the next frame.
    pub fn request_hit_test(&mut self, source: HitTestSource<T, R>)
        ensures
            final(self).mode == old(self).mode,
            final(self).granted_features == old(self).granted_features,
            final(self).hit_tests.tests@ == old(self).hit_tests.tests@,
            final(self).hit_tests.uncommitted_tests@ == old(self).hit_tests.uncommitted_tests@.push(source),
    {
        self.hit_tests.request_hit_test(source)
    }

    /// Removes the hit-test sources of `id`, pending or committed.
    pub fn cancel_hit_test(&mut self, id: u32)
        ensures
            final(self).mode == old(self).mode,
            final(self).granted_features == old(self).granted_features,
            final(self).hit_tests.tests@ == without_id(old(self).hit_tests.tests@, id),
            final(self).hit_tests.uncommitted_tests@ == without_id(old(self).hit_tests.uncommitted_tests@, id),
    {
        self.hit_tests.cancel_hit_test(id)
    }

    /// The current floor transform.
    pub fn floor_transform<F, V>(&self, data: &DeviceState<T, F, V>) -> (r: Option<T>)
        ensures
            r == data.floor_transform,
    {
        data.floor_transform
    }

    /// The simulated device performs no rendering: the surface comes back as given.
    pub fn render_animation_frame<S>(&mut self, surface: S) -> (r: S)
        ensures
            r == surface,
    {
        surface
    }

    /// Inputs arrive only through later commands.
    pub fn initial_inputs(&self) -> (r: Vec<InputSource>)
        ensures
            r@.len() == 0,
    {
        Vec::new()
    }

    /// Attaches the event sink: returns the events raised so far, in order,
    /// to deliver before any raised later.
    pub fn set_event_dest<F, V>(&mut self, data: &mut DeviceState<T, F, V>) -> (flushed: Vec<Event<T>>)
        ensures
            *final(data) == (DeviceState { events: final(data).events, ..*old(data) }),
            queue_view(&final(data).events) is None,
            events_view(flushed@) == match queue_view(&old(data).events) {
                Some(q) => q,
                None => Seq::<EventView<T>>::empty(),
            },
    {
        let flushed = data.events.upgrade();
        assert(events_view(Seq::<Event<T>>::empty()) =~= Seq::<EventView<T>>::empty());
        flushed
    }

    /// Ends the session: raises the session-end event; returns what to deliver now.
    pub fn quit<F, V>(&mut self, data: &mut DeviceState<T, F, V>) -> (deliver: Vec<Event<T>>)
        ensures
            *final(data) == (DeviceState { events: final(data).events, ..*old(data) }),
            raised_into(
                queue_view(&old(data).events),
                queue_view(&final(data).events),
                events_view(deliver@),
                seq![EventView::SessionEnd],
            ),
    {
        let raised = vec![Event::SessionEnd];
        assert(events_view(raised@) =~= seq![EventView::<T>::SessionEnd]);
        emit_all(&mut data.events, raised)
    }

    /// New clip planes change the projections: marks the views as changed.
    pub fn update_clip_planes<F, V>(&mut self, data: &mut DeviceState<T, F, V>)
        ensures
            *final(data) == (DeviceState { needs_view_update: true, ..*old(data) }),
    {
        data.needs_view_update = true;
    }

    pub fn granted_features(&self) -> (r: &Vec<String>)
        ensures
            r == &self.granted_features,
    {
        &self.granted_features
    }
}

} // verus!
