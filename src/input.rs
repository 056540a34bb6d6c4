//! Input sources, their registry entries, and the select gesture machine.

use vstd::prelude::*;

verus! {

#[derive(Clone, Copy, Debug, PartialEq, Eq, Structural)]
pub enum Handedness {
    Unspecified,
    Left,
    Right,
}

#[derive(Clone, Copy, Debug, PartialEq, Eq, Structural)]
pub enum TargetRayMode {
    Gaze,
    TrackedPointer,
    Screen,
    TransientPointer,
}

#[derive(Clone, Copy, Debug, PartialEq, Eq, Structural)]
pub enum SelectKind {
    Select,
    Squeeze,
}

#[derive(Clone, Copy, Debug, PartialEq, Eq, Structural)]
pub enum SelectEvent {
    Start,
    End,
    Select,
}

/// Describes one input source to the session.
#[derive(Debug)]
pub struct InputSource {
    pub id: u32,
    pub handedness: Handedness,
    pub target_ray_mode: TargetRayMode,
    pub profiles: Vec<String>,
}

pub struct InputSourceView {
    pub id: u32,
    pub handedness: Handedness,
    pub target_ray_mode: TargetRayMode,
    pub profiles: Seq<Seq<char>>,
}

impl View for InputSource {
    type V = InputSourceView;

    open spec fn view(&self) -> InputSourceView {
        InputSourceView {
            id: self.id,
            handedness: self.handedness,
            target_ray_mode: self.target_ray_mode,
            profiles: self.profiles@.map_values(|p: String| p@),
        }
    }
}

impl InputSource {
    /// A copy of this descriptor.
    pub fn duplicate(&self) -> (r: InputSource)
        ensures
            r@ == self@,
    {
        let mut profiles: Vec<String> = Vec::new();
        let mut i: usize = 0;
        while i < self.profiles.len()
            invariant
                i <= self.profiles.len(),
                profiles@ == self.profiles@.subrange(0, i as int),
            decreases self.profiles.len() - i,
        {
            profiles.push(self.profiles[i].clone());
            i = i + 1;
            assert(profiles@ =~= self.profiles@.subrange(0, i as int));
        }
        assert(self.profiles@.subrange(0, i as int) =~= self.profiles@);
        InputSource {
            id: self.id,
            handedness: self.handedness,
            target_ray_mode: self.target_ray_mode,
            profiles,
        }
    }
}

/// What one select trigger emits, given whether a press was open before it.
/// A held press that ends is reported as a completed selection, and a pulse is
/// expanded into a start followed by a selection.
pub open spec fn select_emits(clicking: bool, event: SelectEvent) -> Seq<SelectEvent> {
    match event {
        SelectEvent::Start => seq![SelectEvent::Start],
        SelectEvent::End => if clicking {
            seq![SelectEvent::Select]
        } else {
            seq![SelectEvent::End]
        },
        SelectEvent::Select => seq![SelectEvent::Start, SelectEvent::Select],
    }
}

/// Whether a press is open after a select trigger.
pub open spec fn select_clicking_after(event: SelectEvent) -> bool {
    event == SelectEvent::Start
}

/// Computes what a select trigger emits, given whether a press was open.
pub fn normalize_select(clicking: bool, event: SelectEvent) -> (r: Vec<SelectEvent>)
    ensures
        r@ == select_emits(clicking, event),
{
    match event {
        SelectEvent::Start => vec![SelectEvent::Start],
        SelectEvent::End => if clicking {
            vec![SelectEvent::Select]
        } else {
            vec![SelectEvent::End]
        },
        SelectEvent::Select => vec![SelectEvent::Start, SelectEvent::Select],
    }
}

/// The events of a run of select triggers on an active input, and whether a
/// press is open at its end.
pub open spec fn select_run(clicking: bool, events: Seq<SelectEvent>) -> (Seq<SelectEvent>, bool)
    decreases events.len(),
{
    if events.len() == 0 {
        (Seq::empty(), clicking)
    } else {
        let (emitted, c) = select_run(clicking, events.drop_last());
        (emitted + select_emits(c, events.last()), select_clicking_after(events.last()))
    }
}

/// On an input with no open press: a start then an end gives a start and a
/// completed selection; an end alone is passed on as an end; a pulse gives a
/// start and a selection. No press is open after any of these.
pub proof fn lemma_select_normalization()
    ensures
        select_run(false, seq![SelectEvent::Start, SelectEvent::End]) == (
        seq![SelectEvent::Start, SelectEvent::Select], false),
        select_run(false, seq![SelectEvent::End]) == (seq![SelectEvent::End], false),
        select_run(false, seq![SelectEvent::Select]) == (
        seq![SelectEvent::Start, SelectEvent::Select], false),
{
    let e = Seq::<SelectEvent>::empty();
    let s1 = seq![SelectEvent::Start];
    let se = seq![SelectEvent::Start, SelectEvent::End];
    assert(se.drop_last() =~= s1);
    assert(s1.drop_last() =~= e);
    assert(seq![SelectEvent::End].drop_last() =~= e);
    assert(seq![SelectEvent::Select].drop_last() =~= e);
    assert(select_run(false, e) == (e, false));
    assert(e + s1 =~= s1);
    assert(select_run(false, s1) == (s1, true));
    assert(s1 + seq![SelectEvent::Select] =~= seq![SelectEvent::Start, SelectEvent::Select]);
    assert(select_run(false, se) == (seq![SelectEvent::Start, SelectEvent::Select], false));
    assert(e + seq![SelectEvent::End] =~= seq![SelectEvent::End]);
    assert(e + seq![SelectEvent::Start, SelectEvent::Select] =~= seq![
        SelectEvent::Start,
        SelectEvent::Select,
    ]);
}

/// The registry entry of one input source. `T` is the caller's pose type
/// (input space to native space).
pub struct InputInfo<T> {
    pub source: InputSource,
    pub active: bool,
    pub pointer: Option<T>,
    pub grip: Option<T>,
    pub clicking: bool,
}

pub struct InputInfoView<T> {
    pub source: InputSourceView,
    pub active: bool,
    pub pointer: Option<T>,
    pub grip: Option<T>,
    pub clicking: bool,
}

impl<T> View for InputInfo<T> {
    type V = InputInfoView<T>;

    open spec fn view(&self) -> InputInfoView<T> {
        InputInfoView {
            source: self.source@,
            active: self.active,
            pointer: self.pointer,
            grip: self.grip,
            clicking: self.clicking,
        }
    }
}

/// What one input reports in a frame: its poses, and no continuous press state.
#[derive(Clone, Copy, Debug)]
pub struct InputFrame<T> {
    pub id: u32,
    pub target_ray_origin: Option<T>,
    pub grip_origin: Option<T>,
    pub pressed: bool,
    pub squeezed: bool,
}

pub open spec fn input_frame_of<T>(e: InputInfoView<T>) -> InputFrame<T> {
    InputFrame {
        id: e.source.id,
        target_ray_origin: e.pointer,
        grip_origin: e.grip,
        pressed: false,
        squeezed: false,
    }
}

/// The frames of the active entries, in registry order.
pub open spec fn active_frames<T>(inputs: Seq<InputInfoView<T>>) -> Seq<InputFrame<T>>
    decreases inputs.len(),
{
    if inputs.len() == 0 {
        Seq::empty()
    } else {
        let rest = active_frames(inputs.drop_last());
        if inputs.last().active {
            rest.push(input_frame_of(inputs.last()))
        } else {
            rest
        }
    }
}

pub open spec fn infos_view<T>(inputs: Seq<InputInfo<T>>) -> Seq<InputInfoView<T>> {
    inputs.map_values(|e: InputInfo<T>| e@)
}

/// Whether `i` is the first entry of the registry with input id `id`.
pub open spec fn is_first_slot<T>(inputs: Seq<InputInfoView<T>>, id: u32, i: int) -> bool {
    &&& 0 <= i < inputs.len()
    &&& inputs[i].source.id == id
    &&& forall|j: int| 0 <= j < i ==> inputs[j].source.id != id
}

/// The slot of the first entry with input id `id`, if any.
pub open spec fn input_slot<T>(inputs: Seq<InputInfoView<T>>, id: u32) -> Option<int> {
    if exists|i: int| is_first_slot(inputs, id, i) {
        Some(choose|i: int| is_first_slot(inputs, id, i))
    } else {
        None
    }
}

/// Finds the slot of the first entry with input id `id`.
pub fn find_input<T>(inputs: &Vec<InputInfo<T>>, id: u32) -> (r: Option<usize>)
    ensures
        r matches Some(i) ==> input_slot(infos_view(inputs@), id) == Some(i as int),
        r is None ==> input_slot(infos_view(inputs@), id) is None,
{
    let ghost v = infos_view(inputs@);
    let mut i: usize = 0;
    while i < inputs.len()
        invariant
            i <= inputs.len(),
            v == infos_view(inputs@),
            forall|j: int| 0 <= j < i ==> v[j].source.id != id,
        decreases inputs.len() - i,
    {
        if inputs[i].source.id == id {
            assert(is_first_slot(v, id, i as int));
            proof {
                let k = choose|k: int| is_first_slot(v, id, k);
                assert(k == i as int) by {
                    if k < i {
                    } else if k > i {
                        assert(v[i as int].source.id == id);
                    }
                }
            }
            return Some(i);
        }
        i = i + 1;
    }
    assert(!exists|k: int| is_first_slot(v, id, k));
    None
}

} // verus!
