//! The fixed choices with which an adapter and a device are requested.

use vstd::prelude::*;

verus! {

/// Which kind of adapter to prefer when several are present.
#[derive(Clone, Copy, Debug, PartialEq, Eq, Structural)]
pub enum PowerPreference {
    /// No preference.
    Unspecified,
    /// Prefer the adapter that draws the least power.
    LowPower,
    /// Prefer the fastest adapter.
    HighPerformance,
}

/// A surface that an adapter can present to.
#[derive(Clone, Copy, Debug, PartialEq, Eq, Structural)]
pub struct Surface {
    pub index: usize,
}

/// What is asked of an adapter.
#[derive(Clone, Copy, Debug, PartialEq, Eq, Structural)]
pub struct AdapterOptions {
    pub power_preference: PowerPreference,
    /// Whether a software fallback adapter must be used.
    pub force_fallback_adapter: bool,
    /// The surface that the adapter must be able to present to, if any.
    pub compatible_surface: Option<Surface>,
}

/// Optional device features, as the two words of feature bits.
#[derive(Clone, Copy, Debug, PartialEq, Eq, Structural)]
pub struct Features {
    /// Features of the WebGPU standard.
    pub webgpu: u64,
    /// Native-only features.
    pub native: u64,
}

/// A named set of resource limits.
#[derive(Clone, Copy, Debug, PartialEq, Eq, Structural)]
pub enum Limits {
    /// The limits guaranteed by every desktop-class adapter.
    Defaults,
    /// A conservative lower bound that most hardware can meet.
    DownlevelDefaults,
    /// The lower bound that also fits WebGL2-class hardware.
    DownlevelWebgl2Defaults,
}

/// How the device should trade speed against memory.
#[derive(Clone, Copy, Debug, PartialEq, Eq, Structural)]
pub enum MemoryHints {
    /// Favour speed.
    Performance,
    /// Favour a small footprint.
    MemoryUsage,
}

/// Whether the device records a trace of the calls made on it.
#[derive(Clone, Copy, Debug, PartialEq, Eq, Structural)]
pub enum Trace {
    /// No trace is recorded.
    Off,
}

/// What is asked of a device.
#[derive(Clone, Copy, Debug, PartialEq, Eq)]
pub struct DeviceOptions {
    pub label: &'static str,
    pub required_features: Features,
    pub required_limits: Limits,
    pub memory_hints: MemoryHints,
    pub trace: Trace,
}

impl Features {
    pub open spec fn spec_empty() -> Features {
        Features { webgpu: 0, native: 0 }
    }

    /// The feature set that asks for nothing optional.
    #[verifier::when_used_as_spec(spec_empty)]
    pub fn empty() -> (features: Features)
        ensures
            features == Features::spec_empty(),
    {
        Features { webgpu: 0, native: 0 }
    }
}

/// The adapter request of this program: the fastest adapter, no software
/// fallback, no surface to be compatible with.
pub open spec fn spec_adapter_options() -> AdapterOptions {
    AdapterOptions {
        power_preference: PowerPreference::HighPerformance,
        force_fallback_adapter: false,
        compatible_surface: None,
    }
}

/// The device request of this program: nothing optional, conservative
/// limits, speed over memory, no trace.
pub open spec fn spec_device_options() -> DeviceOptions {
    DeviceOptions {
        label: "device",
        required_features: Features::spec_empty(),
        required_limits: Limits::DownlevelDefaults,
        memory_hints: MemoryHints::Performance,
        trace: Trace::Off,
    }
}

#[verifier::when_used_as_spec(spec_adapter_options)]
pub fn adapter_options() -> (options: AdapterOptions)
    ensures
        options == spec_adapter_options(),
{
    AdapterOptions {
        power_preference: PowerPreference::HighPerformance,
        force_fallback_adapter: false,
        compatible_surface: None,
    }
}

#[verifier::when_used_as_spec(spec_device_options)]
pub fn device_options() -> (options: DeviceOptions)
    ensures
        options == spec_device_options(),
{
    DeviceOptions {
        label: "device",
        required_features: Features::empty(),
        required_limits: Limits::DownlevelDefaults,
        memory_hints: MemoryHints::Performance,
        trace: Trace::Off,
    }
}

} // verus!
