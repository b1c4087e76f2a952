//! The settings of the overlay and their defaults.

use vstd::prelude::*;

verus! {

/// The screen corner that the clock is attached to.
#[derive(Debug, Clone, Copy, PartialEq, Eq, Structural)]
pub enum Anchor {
    TopLeft,
    TopRight,
    BottomLeft,
    BottomRight,
}

/// Where the clock sits and how much room it reserves.
#[derive(Debug, Clone, Copy, PartialEq, Eq, Structural)]
pub struct Position {
    pub anchor: Anchor,
    pub exclusive_zone: i32,
}

/// The distance from each screen edge, in pixels.
#[derive(Debug, Clone, Copy, PartialEq, Eq, Structural)]
pub struct Margins {
    pub top: u32,
    pub right: u32,
    pub bottom: u32,
    pub left: u32,
}

/// A size in pixels.
#[derive(Debug, Clone, Copy, PartialEq, Eq, Structural)]
pub struct Size {
    pub width: u32,
    pub height: u32,
}

/// The colours of the overlay, each as `#rrggbb`.
#[derive(Debug)]
pub struct Theme {
    pub background: String,
    pub foreground: String,
    pub accent: String,
}

impl Clone for Theme {
    fn clone(&self) -> (copy: Self)
        ensures
            copy == *self,
    {
        Theme {
            background: self.background.clone(),
            foreground: self.foreground.clone(),
            accent: self.accent.clone(),
        }
    }
}

/// All settings of the overlay.
#[derive(Debug)]
pub struct Config {
    pub position: Position,
    pub margins: Margins,
    pub collapsed_size: Size,
    pub expanded_size: Size,
    pub theme: Theme,
    pub fps_cap: u32,
    pub animations_enabled: bool,
}

impl Clone for Config {
    fn clone(&self) -> (copy: Self)
        ensures
            copy == *self,
    {
        Config {
            position: self.position,
            margins: self.margins,
            collapsed_size: self.collapsed_size,
            expanded_size: self.expanded_size,
            theme: self.theme.clone(),
            fps_cap: self.fps_cap,
            animations_enabled: self.animations_enabled,
        }
    }
}

/// The clock sits in the top right corner and reserves no room.
pub fn default_position() -> (position: Position)
    ensures
        position == (Position { anchor: Anchor::TopRight, exclusive_zone: 0 }),
{
    Position { anchor: Anchor::TopRight, exclusive_zone: 0 }
}

/// Eight pixels from every edge.
pub fn default_margins() -> (margins: Margins)
    ensures
        margins == (Margins { top: 8, right: 8, bottom: 8, left: 8 }),
{
    Margins { top: 8, right: 8, bottom: 8, left: 8 }
}

/// The size of the collapsed clock: 150 by 60.
pub fn default_size() -> (size: Size)
    ensures
        size == (Size { width: 150, height: 60 }),
{
    Size { width: 150, height: 60 }
}

/// The size of the expanded clock: 300 by 120.
pub fn default_expanded_size() -> (size: Size)
    ensures
        size == (Size { width: 300, height: 120 }),
{
    Size { width: 300, height: 120 }
}

/// A dark background, a white foreground and a blue accent.
pub fn default_theme() -> (theme: Theme)
    ensures
        theme.background@ == "#1a1a1a"@,
        theme.foreground@ == "#ffffff"@,
        theme.accent@ == "#4a9eff"@,
{
    Theme {
        background: "#1a1a1a".to_owned(),
        foreground: "#ffffff".to_owned(),
        accent: "#4a9eff".to_owned(),
    }
}

/// Sixty frames per second.
pub fn default_fps_cap() -> (fps: u32)
    ensures
        fps == 60,
{
    60
}

impl Default for Config {
    /// Every setting at its default, with animations enabled.
    fn default() -> (config: Self)
        ensures
            config.position == (Position { anchor: Anchor::TopRight, exclusive_zone: 0 }),
            config.margins == (Margins { top: 8, right: 8, bottom: 8, left: 8 }),
            config.collapsed_size == (Size { width: 150, height: 60 }),
            config.expanded_size == (Size { width: 300, height: 120 }),
            config.theme.background@ == "#1a1a1a"@,
            config.theme.foreground@ == "#ffffff"@,
            config.theme.accent@ == "#4a9eff"@,
            config.fps_cap == 60,
            config.animations_enabled,
    {
        Config {
            position: default_position(),
            margins: default_margins(),
            collapsed_size: default_size(),
            expanded_size: default_expanded_size(),
            theme: default_theme(),
            fps_cap: default_fps_cap(),
            animations_enabled: true,
        }
    }
}

} // verus!
