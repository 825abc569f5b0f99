//! The listener that registers the service instance and takes finished
//! contexts.

use crate::tracing_core::context::TracingContext;
use vstd::prelude::*;

verus! {

/// Registers the service instance, and takes the contexts that finished.
pub trait ContextListener {
    /// Return the registered service id
    /// If haven't registered successfully, return None.
    fn service_instance_id(&self) -> Option<i32>;

    /// Move the finished and inactive context to the reporter.
    /// The reporter should use async way to transport the data to the backend through HTTP, gRPC or SkyWalking forwarder.
    fn report_trace(&self, finished_context: TracingContext);
}

/// `answer` is what `listener` answered when asked for the registered
/// service instance id.
pub open spec fn answered<L: ContextListener>(listener: &L, answer: Option<i32>) -> bool {
    call_ensures(<L as ContextListener>::service_instance_id, (listener,), answer)
}

/// Ask `listener` for the registered service instance id.
pub fn ask_instance_id<L: ContextListener>(listener: &L) -> (r: Option<i32>)
    ensures
        answered(listener, r),
{
    let service_instance_id = <L as ContextListener>::service_instance_id;
    service_instance_id(listener)
}

} // verus!
