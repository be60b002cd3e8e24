//! Commands the render worker accepts between ticks. The worker itself
//! (ticking, reload, shutdown) is process orchestration and lives with the
//! surrounding application.

use vstd::prelude::*;

verus! {

/// A control command delivered to the render worker: rebuild the canvas
/// from fresh configuration, or exit the render loop after the tick in
/// flight.
pub enum ControllerMessage {
    ReloadConfig,
    Terminate,
}

} // verus!
