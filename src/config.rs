//! The settings a user gives the window manager.
use vstd::prelude::*;
use crate::layout::{Layout, LayoutStrategy, RATIO_SCALE};

verus! {

/// What a configuration was refused for.
#[derive(Debug, Clone, Copy, PartialEq, Eq, Structural, Hash)]
pub enum ConfigError {
    NoWorkspaces,
    NoLayouts,
    RatioStepOutOfRange,
}

/// The user's configuration.
#[derive(Clone)]
pub struct Config<S> {
    /// The names of the workspaces; at least one per screen.
    pub workspaces: Vec<String>,
    /// Window classes that always float.
    pub floating_classes: Vec<String>,
    /// The layouts each workspace offers; at least one.
    pub layouts: Vec<Layout<S>>,
    /// Border width in pixels.
    pub border_px: u32,
    /// Gap between tiled windows in pixels.
    pub gap_px: u32,
    /// How far one adjustment moves the main ratio, in thousandths.
    pub main_ratio_step: u32,
    /// Space is reserved for a status bar.
    pub show_bar: bool,
    /// The status bar is at the top of the screen.
    pub top_bar: bool,
    /// Height of the status bar in pixels.
    pub bar_height: u32,
}

impl<S: LayoutStrategy> Config<S> {
    /// The workspace numbers used in key bindings: 1 to the number of
    /// workspaces.
    pub fn ws_range(&self) -> (r: std::ops::Range<usize>)
        requires
            self.workspaces@.len() < usize::MAX,
        ensures
            r.start == 1,
            r.end == self.workspaces@.len() + 1,
    {
        1..(self.workspaces.len() + 1)
    }

    /// The configuration, if it has a workspace, a layout, and a ratio step
    /// of no more than a whole.
    pub fn validate(self) -> (r: Result<Self, ConfigError>)
        ensures
            self.workspaces@.len() == 0 ==> r == Err::<Self, ConfigError>(ConfigError::NoWorkspaces),
            self.workspaces@.len() > 0 && self.layouts@.len() == 0 ==> r == Err::<Self, ConfigError>(
                ConfigError::NoLayouts,
            ),
            self.workspaces@.len() > 0 && self.layouts@.len() > 0 && self.main_ratio_step > RATIO_SCALE ==> r
                == Err::<Self, ConfigError>(ConfigError::RatioStepOutOfRange),
            r is Ok <==> (self.workspaces@.len() > 0 && self.layouts@.len() > 0 && self.main_ratio_step
                <= RATIO_SCALE),
            r matches Ok(c) ==> c == self,
    {
        if self.workspaces.len() == 0 {
            return Err(ConfigError::NoWorkspaces);
        }
        if self.layouts.len() == 0 {
            return Err(ConfigError::NoLayouts);
        }
        if self.main_ratio_step > RATIO_SCALE {
            return Err(ConfigError::RatioStepOutOfRange);
        }
        Ok(self)
    }
}

} // verus!
