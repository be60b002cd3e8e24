//! The rendering capability a plugin binds to: anything that can produce
//! one grid fragment per tick.

use vstd::prelude::*;

use crate::matrix::Matrix;
use crate::wasm_module::WasmError;

verus! {

/// A renderer owned by one plugin. Every call produces a fresh fragment at
/// the origin; nothing persists across ticks on the host's side.
pub trait Picture {
    /// Renders one fragment, or reports why the renderer failed.
    fn draw(&mut self) -> (r: Result<Matrix, WasmError>)
        ensures
            r matches Ok(m) ==> m.wf(),
    ;
}

} // verus!
