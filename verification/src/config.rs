//! Configured plugin entries: the plain values the canvas is built from.
//! Reading and decoding the configuration file is the surrounding
//! application's business; the library only consumes the resulting list.

use vstd::prelude::*;

verus! {

/// One configured plugin: a name (doubling as the on-disk module filename
/// stem) and the screen position the plugin is placed at.
#[derive(Debug, Clone)]
pub struct PluginConf {
    pub name: String,
    pub pos_x: usize,
    pub pos_y: usize,
}

} // verus!
