//! Static configuration of the indicator: the layer table, the size of the
//! window and its offset from the cursor.

use vstd::prelude::*;

verus! {

/// What the indicator shows while a given keyboard layer is active.
#[derive(Debug, Clone, Copy, PartialEq, Eq)]
pub enum LayerConfig {
    /// Show the window filled with this red, green, blue colour.
    Color(u8, u8, u8),
    /// Keep the window hidden.
    Hidden,
}

/// The whole configuration. It is fixed before any watcher starts and is
/// only read afterwards.
#[derive(Debug)]
pub struct Config {
    /// One entry per layer, indexed by the layer number.
    pub layers: Vec<LayerConfig>,
    /// Width and height of the window, in logical pixels.
    pub size: (u32, u32),
    /// Where the window's origin lies relative to the cursor.
    pub offset: (i32, i32),
}

impl Config {
    /// The layer table of the built-in configuration.
    pub open spec fn default_layers() -> Seq<LayerConfig> {
        seq![LayerConfig::Hidden, LayerConfig::Color(0, 255, 0), LayerConfig::Color(255, 0, 0)]
    }
}

impl Clone for Config {
    /// A copy with the same layer table, size and offset.
    fn clone(&self) -> (copy: Config)
        ensures
            copy.layers@ == self.layers@,
            copy.size == self.size,
            copy.offset == self.offset,
    {
        let mut layers: Vec<LayerConfig> = Vec::new();
        let mut i: usize = 0;
        while i < self.layers.len()
            invariant
                i <= self.layers.len(),
                layers@ == self.layers@.take(i as int),
            decreases self.layers.len() - i,
        {
            layers.push(self.layers[i]);
            i += 1;
        }
        Config { layers, size: self.size, offset: self.offset }
    }
}

impl Default for Config {
    /// The built-in configuration: the base layer hides the indicator, the
    /// first layer shows green, the second red; the window is 5 by 10 and
    /// sits 20 to the right of and 5 below the cursor.
    fn default() -> (config: Config)
        ensures
            config.layers@ == Config::default_layers(),
            config.size == (5u32, 10u32),
            config.offset == (20i32, 5i32),
    {
        let mut layers: Vec<LayerConfig> = Vec::new();
        layers.push(LayerConfig::Hidden);
        layers.push(LayerConfig::Color(0, 255, 0));
        layers.push(LayerConfig::Color(255, 0, 0));
        assert(layers@ =~= Config::default_layers());
        Config { layers, size: (5, 10), offset: (20, 5) }
    }
}

} // verus!
