//! The answer of a health check, from what the probe of the endpoint found.

use crate::engine::{engine_not_responding, health_unreadable, EngineError, EngineErrorView};
use vstd::prelude::*;

verus! {

/// What one GET on the health endpoint came to.
#[derive(Debug, PartialEq, Eq)]
pub enum HealthProbe {
    /// No connection: the worker is not listening, or not yet.
    Unreachable(String),
    /// The worker answered, but the body could not be read.
    Unreadable(String),
    /// The worker answered with this body.
    Body(String),
}

/// A [`HealthProbe`] with its texts as sequences of characters.
pub enum HealthProbeView {
    Unreachable(Seq<char>),
    Unreadable(Seq<char>),
    Body(Seq<char>),
}

impl View for HealthProbe {
    type V = HealthProbeView;

    open spec fn view(&self) -> HealthProbeView {
        match self {
            HealthProbe::Unreachable(d) => HealthProbeView::Unreachable(d@),
            HealthProbe::Unreadable(d) => HealthProbeView::Unreadable(d@),
            HealthProbe::Body(b) => HealthProbeView::Body(b@),
        }
    }
}

/// The status for `probe`: the body as it came, or the error that says why
/// there is none.
pub open spec fn health_status(probe: HealthProbeView) -> Result<Seq<char>, EngineErrorView> {
    match probe {
        HealthProbeView::Unreachable(detail) => Err(engine_not_responding(detail)),
        HealthProbeView::Unreadable(detail) => Err(health_unreadable(detail)),
        HealthProbeView::Body(body) => Ok(body),
    }
}

/// Turns the outcome of a probe into the answer of the health check. A
/// failure is not final: the worker may still be loading its model.
pub fn check_engine_health(probe: HealthProbe) -> (status: Result<String, EngineError>)
    ensures
        match health_status(probe@) {
            Ok(body) => status matches Ok(text) && text@ == body,
            Err(error) => status matches Err(e) && e@ == error,
        },
        probe matches HealthProbe::Body(body) ==> status == Ok::<String, EngineError>(body),
{
    match probe {
        HealthProbe::Unreachable(detail) => Err(EngineError::not_responding(detail.as_str())),
        HealthProbe::Unreadable(detail) => Err(EngineError::unreadable_health(detail.as_str())),
        HealthProbe::Body(body) => Ok(body),
    }
}

} // verus!
