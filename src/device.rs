//! The state of one simulated device, the control commands that change it,
//! and the events and frames it produces.

use vstd::prelude::*;
use crate::events::{EventBuffer, raise_all};
use crate::hit_test::EntityType;
use crate::input::{
    active_frames, find_input, infos_view, input_slot, is_first_slot, select_clicking_after,
    select_emits, normalize_select, Handedness, InputFrame, InputInfo, InputInfoView,
    InputSource, InputSourceView, SelectEvent, SelectKind, TargetRayMode,
};

verus! {

#[derive(Clone, Copy, Debug, PartialEq, Eq, Structural)]
pub enum Visibility {
    Visible,
    VisibleBlurred,
    Hidden,
}

/// A region of world geometry: its kind, and its faces (of the caller's face type `F`).
pub struct Region<F> {
    pub ty: EntityType,
    pub faces: Vec<F>,
}

pub struct World<F> {
    pub regions: Vec<Region<F>>,
}

/// The viewer pose and active inputs at one moment.
#[derive(Debug)]
pub struct FrameSnapshot<T> {
    pub transform: Option<T>,
    pub inputs: Vec<InputFrame<T>>,
    pub time_ns: u64,
}

pub struct FrameSnapshotView<T> {
    pub transform: Option<T>,
    pub inputs: Seq<InputFrame<T>>,
    pub time_ns: u64,
}

impl<T> View for FrameSnapshot<T> {
    type V = FrameSnapshotView<T>;

    open spec fn view(&self) -> FrameSnapshotView<T> {
        FrameSnapshotView { transform: self.transform, inputs: self.inputs@, time_ns: self.time_ns }
    }
}

impl<T: Copy> FrameSnapshot<T> {
    pub fn duplicate(&self) -> (r: Self)
        ensures
            r@ == self@,
    {
        let mut inputs: Vec<InputFrame<T>> = Vec::new();
        let mut i: usize = 0;
        while i < self.inputs.len()
            invariant
                i <= self.inputs.len(),
                inputs@ == self.inputs@.subrange(0, i as int),
            decreases self.inputs.len() - i,
        {
            inputs.push(self.inputs[i]);
            i = i + 1;
            assert(inputs@ =~= self.inputs@.subrange(0, i as int));
        }
        assert(self.inputs@.subrange(0, i as int) =~= self.inputs@);
        FrameSnapshot { transform: self.transform, inputs, time_ns: self.time_ns }
    }
}

/// An event for the session's consumer.
#[derive(Debug)]
pub enum Event<T> {
    VisibilityChange(Visibility),
    AddInput(InputSource),
    UpdateInput(u32, InputSource),
    RemoveInput(u32),
    Select(u32, SelectKind, SelectEvent, FrameSnapshot<T>),
    SessionEnd,
}

pub enum EventView<T> {
    VisibilityChange(Visibility),
    AddInput(InputSourceView),
    UpdateInput(u32, InputSourceView),
    RemoveInput(u32),
    Select(u32, SelectKind, SelectEvent, FrameSnapshotView<T>),
    SessionEnd,
}

impl<T> View for Event<T> {
    type V = EventView<T>;

    open spec fn view(&self) -> EventView<T> {
        match self {
            Event::VisibilityChange(v) => EventView::VisibilityChange(*v),
            Event::AddInput(s) => EventView::AddInput(s@),
            Event::UpdateInput(id, s) => EventView::UpdateInput(*id, s@),
            Event::RemoveInput(id) => EventView::RemoveInput(*id),
            Event::Select(id, k, e, f) => EventView::Select(*id, *k, *e, f@),
            Event::SessionEnd => EventView::SessionEnd,
        }
    }
}

pub open spec fn events_view<T>(es: Seq<Event<T>>) -> Seq<EventView<T>> {
    es.map_values(|e: Event<T>| e@)
}

/// The views of a buffer's queue, or `None` once a sink is attached.
pub open spec fn queue_view<T>(b: &EventBuffer<Event<T>>) -> Option<Seq<EventView<T>>> {
    match b.queue() {
        Some(q) => Some(events_view(q)),
        None => None,
    }
}

/// Raising `raised` on a buffer that was `before`: queued while no sink is
/// attached, else handed out as `delivered`, in order either way.
pub open spec fn raised_into<T>(
    before: Option<Seq<EventView<T>>>,
    after: Option<Seq<EventView<T>>>,
    delivered: Seq<EventView<T>>,
    raised: Seq<EventView<T>>,
) -> bool {
    &&& after == raise_all(before, raised)
    &&& delivered == (if before is Some { Seq::<EventView<T>>::empty() } else { raised })
}

/// Raises each of `raised` in order; returns those to deliver now.
pub fn emit_all<T>(buffer: &mut EventBuffer<Event<T>>, raised: Vec<Event<T>>) -> (delivered: Vec<Event<T>>)
    ensures
        raised_into(queue_view(old(buffer)), queue_view(final(buffer)), events_view(delivered@), events_view(raised@)),
{
    let ghost r0 = events_view(raised@);
    let ghost before = queue_view(buffer);
    let mut raised = raised;
    let mut delivered: Vec<Event<T>> = Vec::new();
    let ghost mut k: int = 0;
    while raised.len() > 0
        invariant
            0 <= k <= r0.len(),
            events_view(raised@) == r0.subrange(k, r0.len() as int),
            queue_view(buffer) == raise_all(before, r0.subrange(0, k)),
            events_view(delivered@) == (if before is Some { Seq::<EventView<T>>::empty() } else { r0.subrange(0, k) }),
            before is None <==> queue_view(buffer) is None,
        decreases raised.len(),
    {
        let ghost q_before = buffer.queue();
        let ghost old_r = raised@;
        assert(events_view(old_r).len() == old_r.len());
        assert(events_view(old_r)[0] == r0[k]);
        let e = raised.remove(0);
        let ghost ev = e@;
        assert(ev == r0[k]);
        assert(raised@ =~= old_r.subrange(1, old_r.len() as int));
        assert(r0.subrange(0, k + 1).drop_last() =~= r0.subrange(0, k));
        let out = buffer.callback(e);
        if let Some(d) = out {
            delivered.push(d);
        }
        proof {
            if let Some(q) = q_before {
                assert(events_view(q.push(e)) =~= events_view(q).push(ev));
            }
            assert forall|i: int| 0 <= i < raised@.len() implies #[trigger] raised@[i]@ == r0[k + 1 + i] by {
                assert(raised@[i] == old_r[i + 1]);
                assert(events_view(old_r)[i + 1] == r0[k + 1 + i]);
            }
            k = k + 1;
            assert(events_view(raised@) =~= r0.subrange(k, r0.len() as int));
            if before is None {
                assert(events_view(delivered@) =~= r0.subrange(0, k));
            } else {
                assert(events_view(delivered@) =~= Seq::<EventView<T>>::empty());
            }
        }
    }
    assert(r0.subrange(0, k) =~= r0);
    delivered
}

/// An input source to add, with its initial poses.
pub struct InputInit<T> {
    pub source: InputSource,
    pub pointer_origin: Option<T>,
    pub grip_origin: Option<T>,
}

/// A command addressed to one input source.
pub enum InputMsg<T> {
    SetHandedness(Handedness),
    SetTargetRayMode(TargetRayMode),
    SetProfiles(Vec<String>),
    SetPointerOrigin(Option<T>),
    SetGripOrigin(Option<T>),
    TriggerSelect(SelectKind, SelectEvent),
    Disconnect,
    Reconnect,
}

pub enum InputMsgView<T> {
    SetHandedness(Handedness),
    SetTargetRayMode(TargetRayMode),
    SetProfiles(Seq<Seq<char>>),
    SetPointerOrigin(Option<T>),
    SetGripOrigin(Option<T>),
    TriggerSelect(SelectKind, SelectEvent),
    Disconnect,
    Reconnect,
}

impl<T> View for InputMsg<T> {
    type V = InputMsgView<T>;

    open spec fn view(&self) -> InputMsgView<T> {
        match self {
            InputMsg::SetHandedness(h) => InputMsgView::SetHandedness(*h),
            InputMsg::SetTargetRayMode(t) => InputMsgView::SetTargetRayMode(*t),
            InputMsg::SetProfiles(p) => InputMsgView::SetProfiles(p@.map_values(|s: String| s@)),
            InputMsg::SetPointerOrigin(p) => InputMsgView::SetPointerOrigin(*p),
            InputMsg::SetGripOrigin(p) => InputMsgView::SetGripOrigin(*p),
            InputMsg::TriggerSelect(k, e) => InputMsgView::TriggerSelect(*k, *e),
            InputMsg::Disconnect => InputMsgView::Disconnect,
            InputMsg::Reconnect => InputMsgView::Reconnect,
        }
    }
}

/// The new entry of input `id` and the events raised, after `m`; `frame` is
/// the snapshot that select events carry.
pub open spec fn input_step<T>(
    e: InputInfoView<T>,
    id: u32,
    m: InputMsgView<T>,
    frame: FrameSnapshotView<T>,
) -> (InputInfoView<T>, Seq<EventView<T>>) {
    match m {
        InputMsgView::SetHandedness(h) => {
            let s = InputSourceView { handedness: h, ..e.source };
            (InputInfoView { source: s, ..e }, seq![EventView::UpdateInput(id, s)])
        },
        InputMsgView::SetTargetRayMode(t) => {
            let s = InputSourceView { target_ray_mode: t, ..e.source };
            (InputInfoView { source: s, ..e }, seq![EventView::UpdateInput(id, s)])
        },
        InputMsgView::SetProfiles(p) => {
            let s = InputSourceView { profiles: p, ..e.source };
            (InputInfoView { source: s, ..e }, seq![EventView::UpdateInput(id, s)])
        },
        InputMsgView::SetPointerOrigin(p) => (InputInfoView { pointer: p, ..e }, Seq::empty()),
        InputMsgView::SetGripOrigin(p) => (InputInfoView { grip: p, ..e }, Seq::empty()),
        InputMsgView::TriggerSelect(kind, ev) => if !e.active {
            (e, Seq::empty())
        } else {
            (
                InputInfoView { clicking: select_clicking_after(ev), ..e },
                select_emits(e.clicking, ev).map_values(
                    |x: SelectEvent| EventView::Select(id, kind, x, frame),
                ),
            )
        },
        InputMsgView::Disconnect => if e.active {
            (
                InputInfoView { active: false, clicking: false, ..e },
                seq![EventView::RemoveInput(e.source.id)],
            )
        } else {
            (e, Seq::empty())
        },
        InputMsgView::Reconnect => if !e.active {
            (InputInfoView { active: true, ..e }, seq![EventView::AddInput(e.source)])
        } else {
            (e, Seq::empty())
        },
    }
}

/// Applies `m` to the entry of input `id`; returns the events it raises.
pub fn step_input<T: Copy>(
    e: &mut InputInfo<T>,
    id: u32,
    m: InputMsg<T>,
    frame: FrameSnapshot<T>,
) -> (raised: Vec<Event<T>>)
    ensures
        (final(e)@, events_view(raised@)) == input_step(old(e)@, id, m@, frame@),
{
    let mut raised: Vec<Event<T>> = Vec::new();
    match m {
        InputMsg::SetHandedness(h) => {
            e.source.handedness = h;
            raised.push(Event::UpdateInput(id, e.source.duplicate()));
        },
        InputMsg::SetTargetRayMode(t) => {
            e.source.target_ray_mode = t;
            raised.push(Event::UpdateInput(id, e.source.duplicate()));
        },
        InputMsg::SetProfiles(p) => {
            e.source.profiles = p;
            raised.push(Event::UpdateInput(id, e.source.duplicate()));
        },
        InputMsg::SetPointerOrigin(p) => {
            e.pointer = p;
        },
        InputMsg::SetGripOrigin(p) => {
            e.grip = p;
        },
        InputMsg::TriggerSelect(kind, ev) => {
            if e.active {
                let clicking = e.clicking;
                e.clicking = ev == SelectEvent::Start;
                let emitted = normalize_select(clicking, ev);
                let mut i: usize = 0;
                while i < emitted.len()
                    invariant
                        i <= emitted.len(),
                        emitted@ == select_emits(clicking, ev),
                        events_view(raised@) == emitted@.subrange(0, i as int).map_values(
                            |x: SelectEvent| EventView::Select(id, kind, x, frame@),
                        ),
                    decreases emitted.len() - i,
                {
                    let ghost prev = raised@;
                    let f = frame.duplicate();
                    raised.push(Event::Select(id, kind, emitted[i], f));
                    assert(events_view(raised@) =~= events_view(prev).push(
                        EventView::Select(id, kind, emitted@[i as int], frame@),
                    ));
                    assert(emitted@.subrange(0, i + 1) =~= emitted@.subrange(0, i as int).push(emitted@[i as int]));
                    i = i + 1;
                    assert(events_view(raised@) =~= emitted@.subrange(0, i as int).map_values(
                        |x: SelectEvent| EventView::Select(id, kind, x, frame@),
                    ));
                }
                assert(emitted@.subrange(0, i as int) =~= emitted@);
            }
        },
        InputMsg::Disconnect => {
            if e.active {
                raised.push(Event::RemoveInput(e.source.id));
                e.active = false;
                e.clicking = false;
            }
        },
        InputMsg::Reconnect => {
            if !e.active {
                raised.push(Event::AddInput(e.source.duplicate()));
                e.active = true;
            }
        },
    }
    assert(events_view(raised@) =~= input_step(old(e)@, id, m@, frame@).1);
    raised
}

/// A control command for the simulated device.
pub enum DeviceMsg<T, F, V> {
    SetWorld(World<F>),
    ClearWorld,
    SetViewerOrigin(Option<T>),
    /// The new floor transform (native to floor): the inverse of the floor origin.
    SetFloorTransform(Option<T>),
    SetViews(V),
    VisibilityChange(Visibility),
    AddInputSource(InputInit<T>),
    MessageInputSource(u32, InputMsg<T>),
    Disconnect,
}

/// The state of one simulated device, shared by its control loop and its
/// session. `T` is the pose type, `F` the face type of world geometry and `V`
/// the raw view configuration.
pub struct DeviceState<T, F, V> {
    pub floor_transform: Option<T>,
    pub viewer_origin: Option<T>,
    pub supported_features: Vec<String>,
    pub views: V,
    pub needs_view_update: bool,
    pub needs_floor_update: bool,
    pub inputs: Vec<InputInfo<T>>,
    pub events: EventBuffer<Event<T>>,
    pub disconnected: bool,
    pub world: Option<World<F>>,
}

/// What the control loop does after a command: go on or stop, and the events
/// to hand to the attached sink now.
pub struct MsgOutcome<T> {
    pub keep_running: bool,
    pub deliver: Vec<Event<T>>,
}

pub open spec fn snapshot_view<T>(viewer: Option<T>, inputs: Seq<InputInfoView<T>>, time_ns: u64) -> FrameSnapshotView<T> {
    FrameSnapshotView { transform: viewer, inputs: active_frames(inputs), time_ns }
}

pub open spec fn entry_of<T>(init: InputInit<T>) -> InputInfoView<T> {
    InputInfoView {
        source: init.source@,
        active: true,
        pointer: init.pointer_origin,
        grip: init.grip_origin,
        clicking: false,
    }
}

/// The input registry after `msg` and the events `msg` raises, for a device
/// whose viewer origin is `viewer`, at time `time_ns`.
pub open spec fn step_inputs<T, F, V>(
    inputs: Seq<InputInfoView<T>>,
    viewer: Option<T>,
    msg: DeviceMsg<T, F, V>,
    time_ns: u64,
) -> (Seq<InputInfoView<T>>, Seq<EventView<T>>) {
    match msg {
        DeviceMsg::VisibilityChange(v) => (inputs, seq![EventView::VisibilityChange(v)]),
        DeviceMsg::AddInputSource(init) => (
            inputs.push(entry_of(init)),
            seq![EventView::AddInput(init.source@)],
        ),
        DeviceMsg::MessageInputSource(id, m) => match input_slot(inputs, id) {
            Some(i) => {
                let (e, raised) = input_step(inputs[i], id, m@, snapshot_view(viewer, inputs, time_ns));
                (inputs.update(i, e), raised)
            },
            None => (inputs, Seq::empty()),
        },
        _ => (inputs, Seq::empty()),
    }
}

/// `post` and `r` are the state and outcome after applying `msg` to `pre` at
/// time `time_ns`: the command's own field changes, the input registry step,
/// its events raised in order, and whether the loop goes on.
pub open spec fn msg_applied<T, F, V>(
    pre: DeviceState<T, F, V>,
    post: DeviceState<T, F, V>,
    msg: DeviceMsg<T, F, V>,
    time_ns: u64,
    r: MsgOutcome<T>,
) -> bool {
    let (inputs, raised) = step_inputs(infos_view(pre.inputs@), pre.viewer_origin, msg, time_ns);
    &&& infos_view(post.inputs@) == inputs
    &&& raised_into(queue_view(&pre.events), queue_view(&post.events), events_view(r.deliver@), raised)
    &&& r.keep_running == !(msg is Disconnect)
    &&& post.disconnected == (pre.disconnected || msg is Disconnect)
    &&& post.world == match msg {
        DeviceMsg::SetWorld(w) => Some(w),
        DeviceMsg::ClearWorld => None,
        _ => pre.world,
    }
    &&& post.viewer_origin == match msg {
        DeviceMsg::SetViewerOrigin(o) => o,
        _ => pre.viewer_origin,
    }
    &&& post.floor_transform == match msg {
        DeviceMsg::SetFloorTransform(f) => f,
        _ => pre.floor_transform,
    }
    &&& post.needs_floor_update == (pre.needs_floor_update || msg is SetFloorTransform)
    &&& post.views == match msg {
        DeviceMsg::SetViews(v) => v,
        _ => pre.views,
    }
    &&& post.needs_view_update == (pre.needs_view_update || msg is SetViews)
    &&& post.supported_features == pre.supported_features
}

/// Relies on time::precise_time_ns: a reading of a high-resolution clock, in
/// nanoseconds. Nothing is promised of the value.
#[verifier::external_body]
pub(crate) fn now_ns() -> (r: u64) {
    time::precise_time_ns()
}

impl<T: Copy, F, V> DeviceState<T, F, V> {
    /// A connected device with no inputs, no pending updates and no sink yet.
    pub fn new(
        floor_transform: Option<T>,
        viewer_origin: Option<T>,
        supported_features: Vec<String>,
        views: V,
        world: Option<World<F>>,
    ) -> (r: Self)
        ensures
            r.floor_transform == floor_transform,
            r.viewer_origin == viewer_origin,
            r.supported_features == supported_features,
            r.views == views,
            r.world == world,
            !r.needs_view_update,
            !r.needs_floor_update,
            r.inputs@.len() == 0,
            queue_view(&r.events) == Some(Seq::<EventView<T>>::empty()),
            !r.disconnected,
    {
        let events = EventBuffer::new();
        assert(events_view(Seq::<Event<T>>::empty()) =~= Seq::<EventView<T>>::empty());
        DeviceState {
            floor_transform,
            viewer_origin,
            supported_features,
            views,
            needs_view_update: false,
            needs_floor_update: false,
            inputs: Vec::new(),
            events,
            disconnected: false,
            world,
        }
    }

    /// The viewer pose and the frames of the active inputs, stamped `time_ns`.
    pub fn get_frame(&self, time_ns: u64) -> (r: FrameSnapshot<T>)
        ensures
            r@ == snapshot_view(self.viewer_origin, infos_view(self.inputs@), time_ns),
    {
        let ghost v = infos_view(self.inputs@);
        let mut inputs: Vec<InputFrame<T>> = Vec::new();
        let mut i: usize = 0;
        while i < self.inputs.len()
            invariant
                i <= self.inputs.len(),
                v == infos_view(self.inputs@),
                inputs@ == active_frames(v.subrange(0, i as int)),
            decreases self.inputs.len() - i,
        {
            let e = &self.inputs[i];
            assert(v.subrange(0, i + 1).drop_last() =~= v.subrange(0, i as int));
            assert(v.subrange(0, i + 1).last() == e@);
            if e.active {
                inputs.push(
                    InputFrame {
                        id: e.source.id,
                        target_ray_origin: e.pointer,
                        grip_origin: e.grip,
                        pressed: false,
                        squeezed: false,
                    },
                );
            }
            i = i + 1;
        }
        assert(v.subrange(0, i as int) =~= v);
        FrameSnapshot { transform: self.viewer_origin, inputs, time_ns }
    }

    /// Applies one control command at time `time_ns`.
    pub fn apply_msg(&mut self, msg: DeviceMsg<T, F, V>, time_ns: u64) -> (r: MsgOutcome<T>)
        ensures
            msg_applied(*old(self), *final(self), msg, time_ns, r),
    {
        let ghost ins = infos_view(self.inputs@);
        let mut keep_running = true;
        let raised: Vec<Event<T>> = match msg {
            DeviceMsg::SetWorld(w) => {
                self.world = Some(w);
                Vec::new()
            },
            DeviceMsg::ClearWorld => {
                self.world = None;
                Vec::new()
            },
            DeviceMsg::SetViewerOrigin(o) => {
                self.viewer_origin = o;
                Vec::new()
            },
            DeviceMsg::SetFloorTransform(f) => {
                self.floor_transform = f;
                self.needs_floor_update = true;
                Vec::new()
            },
            DeviceMsg::SetViews(v) => {
                self.views = v;
                self.needs_view_update = true;
                Vec::new()
            },
            DeviceMsg::VisibilityChange(v) => vec![Event::VisibilityChange(v)],
            DeviceMsg::AddInputSource(init) => {
                let announced = init.source.duplicate();
                self.inputs.push(
                    InputInfo {
                        source: init.source,
                        active: true,
                        pointer: init.pointer_origin,
                        grip: init.grip_origin,
                        clicking: false,
                    },
                );
                assert(infos_view(self.inputs@) =~= ins.push(entry_of(init)));
                vec![Event::AddInput(announced)]
            },
            DeviceMsg::MessageInputSource(id, m) => {
                match find_input(&self.inputs, id) {
                    None => Vec::new(),
                    Some(i) => {
                        let frame = self.get_frame(time_ns);
                        let mut entry = self.inputs.remove(i);
                        let raised = step_input(&mut entry, id, m, frame);
                        self.inputs.insert(i, entry);
                        assert(infos_view(self.inputs@) =~= ins.update(i as int, entry@));
                        raised
                    },
                }
            },
            DeviceMsg::Disconnect => {
                self.disconnected = true;
                keep_running = false;
                Vec::new()
            },
        };
        assert(events_view(raised@) =~= step_inputs(ins, old(self).viewer_origin, msg, time_ns).1);
        let deliver = emit_all(&mut self.events, raised);
        MsgOutcome { keep_running, deliver }
    }

    /// Applies one control command, stamping any select event with the clock.
    pub fn handle_msg(&mut self, msg: DeviceMsg<T, F, V>) -> (r: MsgOutcome<T>)
        ensures
            exists|t: u64| msg_applied(*old(self), *final(self), msg, t, r),
    {
        let t = now_ns();
        self.apply_msg(msg, t)
    }
}

/// Disconnecting an active input and then reconnecting it raises a removal
/// and then an addition, both naming the input's own id; the entry stays in
/// its slot, active again, with the same descriptor.
pub proof fn lemma_disconnect_reconnect<T, F, V>(
    inputs: Seq<InputInfoView<T>>,
    viewer: Option<T>,
    id: u32,
    t1: u64,
    t2: u64,
)
    requires
        input_slot(inputs, id) is Some,
        inputs[input_slot(inputs, id)->Some_0].active,
    ensures
        ({
            let i = input_slot(inputs, id)->Some_0;
            let (after1, ev1) = step_inputs(
                inputs,
                viewer,
                DeviceMsg::<T, F, V>::MessageInputSource(id, InputMsg::Disconnect),
                t1,
            );
            let (after2, ev2) = step_inputs(
                after1,
                viewer,
                DeviceMsg::<T, F, V>::MessageInputSource(id, InputMsg::Reconnect),
                t2,
            );
            &&& ev1 + ev2 == seq![EventView::<T>::RemoveInput(id), EventView::AddInput(inputs[i].source)]
            &&& inputs[i].source.id == id
            &&& after2.len() == inputs.len()
            &&& after2[i].source == inputs[i].source
            &&& after2[i].active
        }),
{
    let i = input_slot(inputs, id)->Some_0;
    let c = choose|k: int| is_first_slot(inputs, id, k);
    assert(is_first_slot(inputs, id, c));
    let (after1, ev1) = step_inputs(
        inputs,
        viewer,
        DeviceMsg::<T, F, V>::MessageInputSource(id, InputMsg::Disconnect),
        t1,
    );
    assert(is_first_slot(after1, id, i));
    let c1 = choose|k: int| is_first_slot(after1, id, k);
    assert(is_first_slot(after1, id, c1));
    assert(c1 == i) by {
        if c1 < i {
            assert(after1[c1] == inputs[c1]);
        } else if c1 > i {
        }
    }
    let (after2, ev2) = step_inputs(
        after1,
        viewer,
        DeviceMsg::<T, F, V>::MessageInputSource(id, InputMsg::Reconnect),
        t2,
    );
    assert(ev1 + ev2 =~= seq![EventView::<T>::RemoveInput(id), EventView::AddInput(inputs[i].source)]);
}

} // verus!
