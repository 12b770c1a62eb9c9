//! The device context: the connection to the GPU. It fixes what is asked of
//! the platform — a high-performance adapter compatible with the
//! presentation surface, no software fallback, a logical device with default
//! features and limits — and decides, from the platform's answers, whether
//! the engine may proceed. Absence of a GPU is an unrecoverable environment
//! error, not a transient condition: there is no retry.

use vstd::prelude::*;

verus! {

/// Which class of adapter is preferred.
#[derive(Clone, Copy, Debug, PartialEq, Eq, Structural)]
pub enum PowerPreference {
    /// Prefer the battery-friendly adapter.
    LowPower,
    /// Prefer the discrete, high-performance adapter.
    HighPerformance,
}

/// The adapter request this engine makes, handed to the platform once at
/// construction.
#[derive(Clone, Copy, Debug, PartialEq, Eq, Structural)]
pub struct AdapterRequest {
    /// The preference the platform resolves among the adapters present.
    pub power: PowerPreference,
    /// Whether a software rasterizer may stand in for a real GPU.
    pub allow_fallback: bool,
    /// Whether the adapter must be able to present to the engine's surface.
    pub compatible_with_surface: bool,
}

/// An environment error: the process cannot render on this machine.
#[derive(Clone, Copy, Debug, PartialEq, Eq, Structural)]
pub enum AcquireError {
    /// No adapter compatible with the surface was found.
    NoCompatibleAdapter,
    /// The adapter refused to open a logical device.
    DeviceRefused,
}

/// An open GPU connection: an adapter was found, a logical device and its
/// command queue were granted. `submitted` counts the command buffers handed
/// to the queue, which executes them in submission order.
#[derive(Clone, Copy, Debug, PartialEq, Eq, Structural)]
pub struct DeviceContext {
    pub submitted: u64,
}

/// The fixed adapter request: high performance, no software fallback,
/// compatible with the presentation surface.
pub open spec fn fixed_adapter_request() -> AdapterRequest {
    AdapterRequest {
        power: PowerPreference::HighPerformance,
        allow_fallback: false,
        compatible_with_surface: true,
    }
}

impl DeviceContext {
    /// The request handed to the platform when the context is acquired.
    pub fn adapter_request() -> (r: AdapterRequest)
        ensures
            r == fixed_adapter_request(),
    {
        AdapterRequest {
            power: PowerPreference::HighPerformance,
            allow_fallback: false,
            compatible_with_surface: true,
        }
    }

    /// Decides the outcome of device acquisition from the platform's two
    /// answers: whether a compatible adapter was found, and whether that
    /// adapter granted a logical device. A context is built exactly when
    /// both succeeded; a missing adapter is reported before a refused
    /// device, and a fresh context has submitted nothing.
    pub fn acquire(adapter_found: bool, device_granted: bool) -> (r: Result<
        DeviceContext,
        AcquireError,
    >)
        ensures
            !adapter_found ==> r == Result::<DeviceContext, AcquireError>::Err(
                AcquireError::NoCompatibleAdapter,
            ),
            adapter_found && !device_granted ==> r == Result::<DeviceContext, AcquireError>::Err(
                AcquireError::DeviceRefused,
            ),
            adapter_found && device_granted ==> r == Result::<DeviceContext, AcquireError>::Ok(
                DeviceContext { submitted: 0 },
            ),
    {
        if !adapter_found {
            Err(AcquireError::NoCompatibleAdapter)
        } else if !device_granted {
            Err(AcquireError::DeviceRefused)
        } else {
            Ok(DeviceContext { submitted: 0 })
        }
    }

    /// Records one command buffer handed to the queue.
    pub fn record_submission(&mut self)
        requires
            old(self).submitted < u64::MAX,
        ensures
            final(self).submitted == old(self).submitted + 1,
    {
        self.submitted = self.submitted + 1;
    }
}

} // verus!
