//! Discovery of the simulated device: which session modes it offers, and
//! the creation of its state and of sessions on it.

use vstd::prelude::*;
use crate::device::{queue_view, DeviceState, EventView, World};
use crate::session::{HeadlessDevice, SessionMode};

verus! {

/// Why a session could not be had.
#[derive(Debug)]
pub enum Error {
    NoMatchingDevice,
    CommunicationError,
    ThreadCreationError,
    InlineSession,
    UnsupportedFeature(String),
    BackendSpecific(String),
}

/// How a simulated device starts out. `floor_transform` is the inverse of
/// the floor origin (native to floor).
pub struct DeviceInit<T, F, V> {
    pub supports_inline: bool,
    pub supports_vr: bool,
    pub supports_ar: bool,
    pub floor_transform: Option<T>,
    pub viewer_origin: Option<T>,
    pub supported_features: Vec<String>,
    pub views: V,
    pub world: Option<World<F>>,
}

/// The entry point that simulates connecting a device.
pub struct HeadlessMockDiscovery {}

/// The discovery side of one simulated device: the modes it was set up with.
#[derive(Clone, Copy, Debug)]
pub struct HeadlessDiscovery {
    pub supports_vr: bool,
    pub supports_inline: bool,
    pub supports_ar: bool,
}

impl HeadlessMockDiscovery {
    pub fn new() -> (r: HeadlessMockDiscovery)
        ensures
            r == (HeadlessMockDiscovery {}),
    {
        HeadlessMockDiscovery {}
    }

    /// Connects a device set up by `init`: its discovery side and its fresh state.
    pub fn simulate_device_connection<T: Copy, F, V>(&mut self, init: DeviceInit<T, F, V>) -> (r: (
        HeadlessDiscovery,
        DeviceState<T, F, V>,
    ))
        ensures
            r.0 == (HeadlessDiscovery {
                supports_vr: init.supports_vr,
                supports_inline: init.supports_inline,
                supports_ar: init.supports_ar,
            }),
            r.1.floor_transform == init.floor_transform,
            r.1.viewer_origin == init.viewer_origin,
            r.1.supported_features == init.supported_features,
            r.1.views == init.views,
            r.1.world == init.world,
            !r.1.needs_view_update,
            !r.1.needs_floor_update,
            r.1.inputs@.len() == 0,
            queue_view(&r.1.events) == Some(Seq::<EventView<T>>::empty()),
            !r.1.disconnected,
    {
        let discovery = HeadlessDiscovery {
            supports_vr: init.supports_vr,
            supports_inline: init.supports_inline,
            supports_ar: init.supports_ar,
        };
        let state = DeviceState::new(
            init.floor_transform,
            init.viewer_origin,
            init.supported_features,
            init.views,
            init.world,
        );
        (discovery, state)
    }
}

impl HeadlessDiscovery {
    /// Whether a session of `mode` can be had on a device whose disconnected
    /// flag is `disconnected`.
    pub open spec fn supports(&self, mode: SessionMode, disconnected: bool) -> bool {
        !disconnected && match mode {
            SessionMode::Inline => self.supports_inline,
            SessionMode::ImmersiveVR => self.supports_vr,
            SessionMode::ImmersiveAR => self.supports_ar,
        }
    }

    pub fn supports_session<T, F, V>(&self, data: &DeviceState<T, F, V>, mode: SessionMode) -> (r: bool)
        ensures
            r == self.supports(mode, data.disconnected),
    {
        if data.disconnected {
            return false;
        }
        match mode {
            SessionMode::Inline => self.supports_inline,
            SessionMode::ImmersiveVR => self.supports_vr,
            SessionMode::ImmersiveAR => self.supports_ar,
        }
    }

    /// Opens a session of `mode`. `validated` is the outcome of checking the
    /// requested features against the device's supported ones: the granted
    /// features, or the failure that is passed on.
    pub fn request_session<T: Copy, R: Copy, F, V>(
        &self,
        data: &DeviceState<T, F, V>,
        mode: SessionMode,
        validated: Result<Vec<String>, Error>,
    ) -> (r: Result<HeadlessDevice<T, R>, Error>)
        ensures
            !self.supports(mode, data.disconnected) ==> r matches Err(Error::NoMatchingDevice),
            self.supports(mode, data.disconnected) ==> match validated {
                Ok(granted) => r matches Ok(d) && d.mode == mode && d.granted_features == granted
                    && d.hit_tests.tests@.len() == 0 && d.hit_tests.uncommitted_tests@.len() == 0,
                Err(e) => r == Err::<HeadlessDevice<T, R>, Error>(e),
            },
    {
        if !self.supports_session(data, mode) {
            return Err(Error::NoMatchingDevice);
        }
        match validated {
            Ok(granted) => Ok(HeadlessDevice::new(mode, granted)),
            Err(e) => Err(e),
        }
    }
}

} // verus!
