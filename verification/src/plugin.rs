//! A plugin: a named, positioned binding of a renderer to a rectangular
//! region of the display. The plugin exclusively owns its renderer; the
//! canvas applies the screen offset, not the plugin.

use vstd::prelude::*;

use crate::config::PluginConf;
use crate::matrix::{cell_at, Matrix, MATRIX_AREA, MATRIX_HEIGHT, MATRIX_WIDTH};
use crate::picture::Picture;
use crate::wasm_module::{WasmError, WasmModule};

verus! {

/// A named widget bound to its screen offset, its declared dimensions, and
/// the renderer it owns. The occupied rectangle is
/// `[offset_x, offset_x + img_width) x [offset_y, offset_y + img_height)`.
#[derive(Debug)]
pub struct Plugin<P> {
    pub name: String,
    pub img_height: usize,
    pub img_width: usize,
    pub offset_x: usize,
    pub offset_y: usize,
    pub drawer: P,
}

impl<P> Plugin<P> {
    /// The plugin's occupied rectangle covers the cell in row `row` and
    /// column `col`.
    pub open spec fn covers(&self, row: int, col: int) -> bool {
        &&& self.offset_y <= row < self.offset_y + self.img_height
        &&& self.offset_x <= col < self.offset_x + self.img_width
    }

    /// The occupied rectangle lies within the display bounds.
    pub open spec fn fits(&self) -> bool {
        &&& self.offset_x + self.img_width <= MATRIX_WIDTH
        &&& self.offset_y + self.img_height <= MATRIX_HEIGHT
    }

    /// Same name, dimensions and offset; only the renderer's internal state
    /// may differ.
    pub open spec fn same_placement(&self, other: &Plugin<P>) -> bool {
        &&& self.name@ == other.name@
        &&& self.img_height == other.img_height
        &&& self.img_width == other.img_width
        &&& self.offset_x == other.offset_x
        &&& self.offset_y == other.offset_y
    }

    /// The space the plugin's picture takes, as a grid: every cell of the
    /// occupied rectangle holds 1, every other cell 0.
    pub fn get_space_as_matrix(&self) -> (r: Matrix)
        ensures
            r.wf(),
            forall|row: int, col: int|
                0 <= row < MATRIX_HEIGHT && 0 <= col < MATRIX_WIDTH ==> r@[cell_at(row, col)] == (
                if self.covers(row, col) {
                    1u8
                } else {
                    0u8
                }),
    {
        let mut out: Vec<u8> = Vec::new();
        let mut i: usize = 0;
        while i < MATRIX_AREA
            invariant
                i <= MATRIX_AREA,
                out@.len() == i,
                forall|k: int|
                    0 <= k < i ==> out@[k] == (if self.covers(
                        k / (MATRIX_WIDTH as int),
                        k % (MATRIX_WIDTH as int),
                    ) {
                        1u8
                    } else {
                        0u8
                    }),
            decreases MATRIX_AREA - i,
        {
            let row = i / MATRIX_WIDTH;
            let col = i % MATRIX_WIDTH;
            let inside = row >= self.offset_y && row - self.offset_y < self.img_height && col
                >= self.offset_x && col - self.offset_x < self.img_width;
            out.push(if inside {
                1u8
            } else {
                0u8
            });
            i = i + 1;
        }
        let r = Matrix::from_buffer(out);
        let m = match r {
            Ok(m) => m,
            Err(_) => vstd::pervasive::unreached(),
        };
        proof {
            assert forall|row: int, col: int|
                0 <= row < MATRIX_HEIGHT && 0 <= col < MATRIX_WIDTH implies m@[cell_at(row, col)]
                == (if self.covers(row, col) {
                1u8
            } else {
                0u8
            }) by {
                vstd::arithmetic::div_mod::lemma_fundamental_div_mod_converse(
                    cell_at(row, col),
                    MATRIX_WIDTH as int,
                    row,
                    col,
                );
            }
        }
        m
    }
}

impl<P: Picture> Plugin<P> {
    /// Renders the plugin's fragment at the origin, scaled to the plugin's
    /// declared dimensions; the canvas applies the offset afterwards.
    pub fn draw(&mut self) -> (r: Result<Matrix, WasmError>)
        ensures
            r matches Ok(m) ==> m.wf(),
            final(self).same_placement(old(self)),
    {
        self.drawer.draw()
    }
}

impl Plugin<WasmModule> {
    /// Binds a loaded module to its configured screen position; the
    /// dimensions come from the module's self-declared geometry.
    pub fn from_plugin_config(plugin_conf: PluginConf, wasm_module: WasmModule) -> (p: Plugin<
        WasmModule,
    >)
        ensures
            p.name@ == plugin_conf.name@,
            p.offset_x == plugin_conf.pos_x,
            p.offset_y == plugin_conf.pos_y,
            p.img_width == wasm_module.spec_metadata().width,
            p.img_height == wasm_module.spec_metadata().height,
            p.drawer == wasm_module,
    {
        let width = wasm_module.metadata().width;
        let height = wasm_module.metadata().height;
        Plugin {
            name: plugin_conf.name,
            img_height: height,
            img_width: width,
            offset_y: plugin_conf.pos_y,
            offset_x: plugin_conf.pos_x,
            drawer: wasm_module,
        }
    }
}

} // verus!
