use webxr_headless::device::{
    DeviceMsg, DeviceState, Event, InputInit, InputMsg, Region, Visibility, World,
};
use webxr_headless::discovery::{DeviceInit, Error, HeadlessMockDiscovery};
use webxr_headless::events::EventBuffer;
use webxr_headless::frame::BaseOrigin;
use webxr_headless::hit_test::{BaseSpace, EntityType, EntityTypes, HitTestSource, Space};
use webxr_headless::input::{
    normalize_select, Handedness, InputSource, SelectEvent, SelectKind, TargetRayMode,
};
use webxr_headless::session::{FrameUpdateEvent, HeadlessDevice, SessionMode};

type Pose = (i32, i32);
type State = DeviceState<Pose, u8, &'static str>;

fn source(id: u32) -> InputSource {
    InputSource {
        id,
        handedness: Handedness::Right,
        target_ray_mode: TargetRayMode::TrackedPointer,
        profiles: vec!["generic-trigger".to_string()],
    }
}

fn state() -> State {
    DeviceState::new(None, Some((0, 0)), vec!["local-floor".to_string()], "mono", None)
}

fn add_input(s: &mut State, id: u32) {
    s.apply_msg(
        DeviceMsg::AddInputSource(InputInit {
            source: source(id),
            pointer_origin: Some((1, 1)),
            grip_origin: None,
        }),
        5,
    );
}

fn select_kinds(events: &[Event<Pose>]) -> Vec<SelectEvent> {
    events
        .iter()
        .filter_map(|e| match e {
            Event::Select(_, _, ev, _) => Some(*ev),
            _ => None,
        })
        .collect()
}

fn attached(s: &mut State) {
    let mut d: HeadlessDevice<Pose, u8> = HeadlessDevice::new(SessionMode::ImmersiveVR, vec![]);
    d.set_event_dest(s);
}

fn trigger(s: &mut State, id: u32, ev: SelectEvent, t: u64) -> Vec<Event<Pose>> {
    s.apply_msg(
        DeviceMsg::MessageInputSource(id, InputMsg::TriggerSelect(SelectKind::Select, ev)),
        t,
    )
    .deliver
}

#[test]
fn select_start_then_end_while_held_completes() {
    let mut s = state();
    add_input(&mut s, 1);
    attached(&mut s);
    let mut out = trigger(&mut s, 1, SelectEvent::Start, 10);
    out.extend(trigger(&mut s, 1, SelectEvent::End, 11));
    assert_eq!(select_kinds(&out), vec![SelectEvent::Start, SelectEvent::Select]);
    assert!(!s.inputs[0].clicking);
}

#[test]
fn select_end_without_press_stays_end() {
    let mut s = state();
    add_input(&mut s, 1);
    attached(&mut s);
    let out = trigger(&mut s, 1, SelectEvent::End, 10);
    assert_eq!(select_kinds(&out), vec![SelectEvent::End]);
}

#[test]
fn select_pulse_expands_to_start_and_select_with_one_snapshot() {
    let mut s = state();
    add_input(&mut s, 1);
    attached(&mut s);
    let out = trigger(&mut s, 1, SelectEvent::Select, 42);
    assert_eq!(select_kinds(&out), vec![SelectEvent::Start, SelectEvent::Select]);
    for e in &out {
        match e {
            Event::Select(id, kind, _, frame) => {
                assert_eq!(*id, 1);
                assert_eq!(*kind, SelectKind::Select);
                assert_eq!(frame.time_ns, 42);
                assert_eq!(frame.transform, Some((0, 0)));
                assert_eq!(frame.inputs.len(), 1);
                assert_eq!(frame.inputs[0].target_ray_origin, Some((1, 1)));
            }
            _ => panic!("unexpected event"),
        }
    }
}

#[test]
fn normalize_select_table() {
    assert_eq!(normalize_select(false, SelectEvent::Start), vec![SelectEvent::Start]);
    assert_eq!(normalize_select(true, SelectEvent::End), vec![SelectEvent::Select]);
    assert_eq!(normalize_select(false, SelectEvent::End), vec![SelectEvent::End]);
    assert_eq!(
        normalize_select(true, SelectEvent::Select),
        vec![SelectEvent::Start, SelectEvent::Select]
    );
}

#[test]
fn select_on_inactive_input_is_ignored() {
    let mut s = state();
    add_input(&mut s, 1);
    attached(&mut s);
    s.apply_msg(DeviceMsg::MessageInputSource(1, InputMsg::Disconnect), 1);
    let out = trigger(&mut s, 1, SelectEvent::Start, 10);
    assert!(out.is_empty());
    assert!(!s.inputs[0].clicking);
}

#[test]
fn disconnect_then_reconnect_keeps_id() {
    let mut s = state();
    add_input(&mut s, 7);
    attached(&mut s);
    let mut out = s.apply_msg(DeviceMsg::MessageInputSource(7, InputMsg::Disconnect), 1).deliver;
    assert!(!s.inputs[0].active);
    out.extend(s.apply_msg(DeviceMsg::MessageInputSource(7, InputMsg::Reconnect), 2).deliver);
    assert_eq!(out.len(), 2);
    assert!(matches!(out[0], Event::RemoveInput(7)));
    match &out[1] {
        Event::AddInput(src) => {
            assert_eq!(src.id, 7);
            assert_eq!(src.profiles, vec!["generic-trigger".to_string()]);
        }
        _ => panic!("expected an added input"),
    }
    assert!(s.inputs[0].active);
    assert_eq!(s.inputs.len(), 1);
}

#[test]
fn reconnect_of_active_input_and_unknown_input_do_nothing() {
    let mut s = state();
    add_input(&mut s, 7);
    attached(&mut s);
    assert!(s.apply_msg(DeviceMsg::MessageInputSource(7, InputMsg::Reconnect), 1).deliver.is_empty());
    let out = s.apply_msg(DeviceMsg::MessageInputSource(99, InputMsg::Disconnect), 1);
    assert!(out.deliver.is_empty());
    assert!(out.keep_running);
    assert!(s.inputs[0].active);
}

#[test]
fn input_updates_raise_update_events() {
    let mut s = state();
    add_input(&mut s, 3);
    attached(&mut s);
    let out = s
        .apply_msg(DeviceMsg::MessageInputSource(3, InputMsg::SetHandedness(Handedness::Left)), 1)
        .deliver;
    match &out[..] {
        [Event::UpdateInput(3, src)] => assert_eq!(src.handedness, Handedness::Left),
        _ => panic!("expected one update"),
    }
    let out = s
        .apply_msg(DeviceMsg::MessageInputSource(3, InputMsg::SetPointerOrigin(Some((9, 9)))), 1)
        .deliver;
    assert!(out.is_empty());
    assert_eq!(s.inputs[0].pointer, Some((9, 9)));
}

#[test]
fn events_buffered_until_sink_attached() {
    let mut s = state();
    s.apply_msg(DeviceMsg::VisibilityChange(Visibility::Hidden), 1);
    add_input(&mut s, 2);
    s.apply_msg(DeviceMsg::VisibilityChange(Visibility::Visible), 1);
    let mut d: HeadlessDevice<Pose, u8> = HeadlessDevice::new(SessionMode::ImmersiveVR, vec![]);
    let flushed = d.set_event_dest(&mut s);
    assert_eq!(flushed.len(), 3);
    assert!(matches!(flushed[0], Event::VisibilityChange(Visibility::Hidden)));
    assert!(matches!(flushed[1], Event::AddInput(_)));
    assert!(matches!(flushed[2], Event::VisibilityChange(Visibility::Visible)));
    let later = d.quit(&mut s);
    assert_eq!(later.len(), 1);
    assert!(matches!(later[0], Event::SessionEnd));
}

#[test]
fn event_buffer_queue_and_pass_through() {
    let mut b: EventBuffer<u8> = EventBuffer::new();
    assert_eq!(b.callback(1), None);
    assert_eq!(b.callback(2), None);
    assert!(!b.is_attached());
    assert_eq!(b.upgrade(), vec![1, 2]);
    assert!(b.is_attached());
    assert_eq!(b.callback(3), Some(3));
    assert_eq!(b.upgrade(), Vec::<u8>::new());
}

fn hit_source(id: u32, base: BaseSpace, mesh: bool) -> HitTestSource<Pose, u8> {
    HitTestSource {
        id,
        space: Space { base, offset: (0, 0) },
        ray: 0,
        types: EntityTypes { point: false, plane: !mesh, mesh },
    }
}

fn world(ty: EntityType, faces: usize) -> World<u8> {
    World { regions: vec![Region { ty, faces: vec![0; faces] }] }
}

#[test]
fn hit_test_example_one_triangle_ahead() {
    let mut s: State = DeviceState::new(Some((0, 0)), Some((0, 0)), vec![], "mono", None);
    s.apply_msg(DeviceMsg::SetWorld(world(EntityType::Plane, 1)), 1);
    let mut d: HeadlessDevice<Pose, u8> = HeadlessDevice::new(SessionMode::ImmersiveAR, vec![]);
    d.request_hit_test(hit_source(5, BaseSpace::Local, false));
    let frame = d.assemble_frame(&mut s, 100, "views");
    assert_eq!(frame.hit_candidates.len(), 1);
    assert_eq!(frame.hit_candidates[0].source_id, 5);
    assert!(matches!(frame.hit_candidates[0].base, BaseOrigin::Identity));
    assert!(matches!(frame.events[..], [FrameUpdateEvent::HitTestSourceAdded(5)]));
    let again = d.assemble_frame(&mut s, 120, "views");
    assert_eq!(again.hit_candidates.len(), 1);
    assert!(again.events.is_empty());
}

#[test]
fn hit_test_one_pair_per_matching_face_none_for_other_kinds() {
    let mut s = state();
    s.apply_msg(DeviceMsg::SetWorld(world(EntityType::Mesh, 3)), 1);
    let mut d: HeadlessDevice<Pose, u8> = HeadlessDevice::new(SessionMode::ImmersiveAR, vec![]);
    d.request_hit_test(hit_source(1, BaseSpace::Viewer, true));
    let frame = d.assemble_frame(&mut s, 1, ());
    let faces: Vec<usize> = frame.hit_candidates.iter().map(|c| c.face).collect();
    assert_eq!(faces, vec![0, 1, 2]);
    assert!(matches!(frame.hit_candidates[0].base, BaseOrigin::Pose((0, 0))));

    let mut d2: HeadlessDevice<Pose, u8> = HeadlessDevice::new(SessionMode::ImmersiveAR, vec![]);
    d2.request_hit_test(hit_source(2, BaseSpace::Local, false));
    assert!(d2.assemble_frame(&mut s, 2, ()).hit_candidates.is_empty());
}

#[test]
fn hit_test_stops_at_first_unresolvable_source() {
    let mut s = state();
    s.apply_msg(DeviceMsg::SetWorld(world(EntityType::Plane, 1)), 1);
    let mut d: HeadlessDevice<Pose, u8> = HeadlessDevice::new(SessionMode::ImmersiveAR, vec![]);
    d.request_hit_test(hit_source(1, BaseSpace::Local, false));
    d.request_hit_test(hit_source(2, BaseSpace::Floor, false));
    d.request_hit_test(hit_source(3, BaseSpace::Local, false));
    let frame = d.assemble_frame(&mut s, 1, ());
    let ids: Vec<u32> = frame.hit_candidates.iter().map(|c| c.source_id).collect();
    assert_eq!(ids, vec![1]);
}

#[test]
fn floor_base_uses_inverse_and_input_base_uses_pointer() {
    let mut s = state();
    add_input(&mut s, 4);
    s.apply_msg(DeviceMsg::SetFloorTransform(Some((3, 4))), 1);
    s.apply_msg(DeviceMsg::SetWorld(world(EntityType::Plane, 1)), 1);
    let mut d: HeadlessDevice<Pose, u8> = HeadlessDevice::new(SessionMode::ImmersiveAR, vec![]);
    d.request_hit_test(hit_source(1, BaseSpace::Floor, false));
    d.request_hit_test(hit_source(2, BaseSpace::TargetRay(4), false));
    d.request_hit_test(hit_source(3, BaseSpace::Grip(4), false));
    let frame = d.assemble_frame(&mut s, 1, ());
    assert_eq!(frame.hit_candidates.len(), 2);
    assert!(matches!(frame.hit_candidates[0].base, BaseOrigin::InverseOf((3, 4))));
    assert!(matches!(frame.hit_candidates[1].base, BaseOrigin::Pose((1, 1))));
}

#[test]
fn cancel_removes_pending_and_committed() {
    let mut s = state();
    s.apply_msg(DeviceMsg::SetWorld(world(EntityType::Plane, 1)), 1);
    let mut d: HeadlessDevice<Pose, u8> = HeadlessDevice::new(SessionMode::ImmersiveAR, vec![]);
    d.request_hit_test(hit_source(1, BaseSpace::Local, false));
    d.assemble_frame(&mut s, 1, ());
    d.request_hit_test(hit_source(2, BaseSpace::Local, false));
    d.cancel_hit_test(1);
    d.cancel_hit_test(2);
    let frame = d.assemble_frame(&mut s, 2, ());
    assert!(frame.hit_candidates.is_empty());
    assert!(frame.events.is_empty());
}

#[test]
fn frame_reports_updates_once_in_order() {
    let mut s = state();
    s.apply_msg(DeviceMsg::SetViews("stereo"), 1);
    s.apply_msg(DeviceMsg::SetFloorTransform(Some((2, 2))), 1);
    let mut d: HeadlessDevice<Pose, u8> = HeadlessDevice::new(SessionMode::ImmersiveVR, vec![]);
    d.request_hit_test(hit_source(9, BaseSpace::Local, false));
    let frame = d.assemble_frame(&mut s, 1, "new views");
    assert_eq!(frame.events.len(), 3);
    assert!(matches!(frame.events[0], FrameUpdateEvent::HitTestSourceAdded(9)));
    assert!(matches!(frame.events[1], FrameUpdateEvent::UpdateViews("new views")));
    assert!(matches!(frame.events[2], FrameUpdateEvent::UpdateFloorTransform(Some((2, 2)))));
    assert!(d.assemble_frame(&mut s, 2, "again").events.is_empty());
    d.update_clip_planes(&mut s);
    let frame = d.assemble_frame(&mut s, 3, "clipped");
    assert!(matches!(frame.events[..], [FrameUpdateEvent::UpdateViews("clipped")]));
}

#[test]
fn frame_lists_only_active_inputs() {
    let mut s = state();
    add_input(&mut s, 1);
    add_input(&mut s, 2);
    s.apply_msg(DeviceMsg::MessageInputSource(1, InputMsg::Disconnect), 1);
    let mut d: HeadlessDevice<Pose, u8> = HeadlessDevice::new(SessionMode::ImmersiveVR, vec![]);
    let frame = d.assemble_frame(&mut s, 77, ());
    assert_eq!(frame.snapshot.inputs.len(), 1);
    assert_eq!(frame.snapshot.inputs[0].id, 2);
    assert!(!frame.snapshot.inputs[0].pressed);
    assert_eq!(frame.snapshot.time_ns, 77);
}

fn init(inline: bool, vr: bool, ar: bool) -> DeviceInit<Pose, u8, ()> {
    DeviceInit {
        supports_inline: inline,
        supports_vr: vr,
        supports_ar: ar,
        floor_transform: None,
        viewer_origin: None,
        supported_features: vec!["local".to_string()],
        views: (),
        world: None,
    }
}

#[test]
fn sessions_follow_supported_modes_and_disconnect() {
    let mut m = HeadlessMockDiscovery::new();
    let (disc, mut s) = m.simulate_device_connection(init(true, true, false));
    assert!(disc.supports_session(&s, SessionMode::Inline));
    assert!(!disc.supports_session(&s, SessionMode::ImmersiveAR));
    let r = disc.request_session::<Pose, u8, u8, ()>(&s, SessionMode::ImmersiveAR, Ok(vec![]));
    assert!(matches!(r, Err(Error::NoMatchingDevice)));
    let r = disc.request_session::<Pose, u8, u8, ()>(
        &s,
        SessionMode::ImmersiveVR,
        Ok(vec!["local".to_string()]),
    );
    match r {
        Ok(d) => {
            assert_eq!(d.mode, SessionMode::ImmersiveVR);
            assert_eq!(d.granted_features(), &vec!["local".to_string()]);
            assert!(d.initial_inputs().is_empty());
        }
        Err(_) => panic!("session expected"),
    }
    let out = s.apply_msg(DeviceMsg::Disconnect, 1);
    assert!(!out.keep_running);
    assert!(s.disconnected);
    assert!(!disc.supports_session(&s, SessionMode::Inline));
    let r = disc.request_session::<Pose, u8, u8, ()>(&s, SessionMode::Inline, Ok(vec![]));
    assert!(matches!(r, Err(Error::NoMatchingDevice)));
}

#[test]
fn validation_failure_is_passed_on() {
    let mut m = HeadlessMockDiscovery::new();
    let (disc, s) = m.simulate_device_connection(init(true, false, false));
    let r = disc.request_session::<Pose, u8, u8, ()>(
        &s,
        SessionMode::Inline,
        Err(Error::UnsupportedFeature("hand-tracking".to_string())),
    );
    match r {
        Err(Error::UnsupportedFeature(f)) => assert_eq!(f, "hand-tracking"),
        _ => panic!("expected the validation error"),
    }
}

#[test]
fn commands_set_state_fields() {
    let mut s = state();
    s.apply_msg(DeviceMsg::SetViewerOrigin(Some((5, 6))), 1);
    assert_eq!(s.viewer_origin, Some((5, 6)));
    s.apply_msg(DeviceMsg::SetWorld(world(EntityType::Point, 2)), 1);
    assert!(s.world.is_some());
    s.apply_msg(DeviceMsg::ClearWorld, 1);
    assert!(s.world.is_none());
    s.apply_msg(DeviceMsg::SetFloorTransform(None), 1);
    assert!(s.needs_floor_update);
    let d: HeadlessDevice<Pose, u8> = HeadlessDevice::new(SessionMode::ImmersiveVR, vec![]);
    assert_eq!(d.floor_transform(&s), None);
}

#[test]
fn handle_msg_stamps_select_with_the_clock() {
    let mut s = state();
    add_input(&mut s, 1);
    attached(&mut s);
    let out = s.handle_msg(DeviceMsg::MessageInputSource(
        1,
        InputMsg::TriggerSelect(SelectKind::Squeeze, SelectEvent::Start),
    ));
    assert!(out.keep_running);
    match &out.deliver[..] {
        [Event::Select(1, SelectKind::Squeeze, SelectEvent::Start, frame)] => {
            assert!(frame.time_ns > 0)
        }
        _ => panic!("expected one select start"),
    }
}

#[test]
fn render_passes_surface_through() {
    let mut d: HeadlessDevice<Pose, u8> = HeadlessDevice::new(SessionMode::Inline, vec![]);
    assert_eq!(d.render_animation_frame(String::from("surface")), "surface");
}

#[test]
fn wait_for_animation_frame_stamps_with_the_clock() {
    let mut s = state();
    add_input(&mut s, 1);
    let mut d: HeadlessDevice<Pose, u8> = HeadlessDevice::new(SessionMode::ImmersiveVR, vec![]);
    let frame = d.wait_for_animation_frame(&mut s, ());
    assert!(frame.snapshot.time_ns > 0);
    assert_eq!(frame.snapshot.transform, Some((0, 0)));
    assert_eq!(frame.snapshot.inputs.len(), 1);
}
