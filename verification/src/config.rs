//! Initial window settings.

use vstd::prelude::*;
use vstd::string::*;

verus! {

/// Data to create an application: initial window settings (high DPI is not handled).
pub struct AppConfig {
    pub title: String,
    pub w: u32,
    pub h: u32,
}

impl AppConfig {
    /// A 1280x720 window titled "† ANF game †".
    pub fn default() -> (c: AppConfig)
        ensures
            c.title@ == "† ANF game †"@,
            c.w == 1280,
            c.h == 720,
    {
        AppConfig { title: String::from_str("† ANF game †"), w: 1280, h: 720 }
    }
}

/// Window settings of the framework (high DPI is not handled).
pub struct AnfConfig {
    pub title: String,
    pub w: u32,
    pub h: u32,
}

impl AnfConfig {
    /// A 1280x720 window titled "† ANF game †".
    pub fn default() -> (c: AnfConfig)
        ensures
            c.title@ == "† ANF game †"@,
            c.w == 1280,
            c.h == 720,
    {
        AnfConfig { title: String::from_str("† ANF game †"), w: 1280, h: 720 }
    }
}

/// Initial settings of the window.
pub struct WindowConfig {
    pub title: String,
    pub w: u32,
    pub h: u32,
    pub is_debug: bool,
    pub rm_decoration: bool,
    pub allow_high_dpi: bool,
    pub is_resizable: bool,
}

impl Default for WindowConfig {
    /// A 1280x720 debug window titled "† ANF game †", decorated, allowing high DPI, not
    /// resizable.
    fn default() -> (c: WindowConfig)
        ensures
            c.title@ == "† ANF game †"@,
            c.w == 1280,
            c.h == 720,
            c.is_debug,
            !c.rm_decoration,
            c.allow_high_dpi,
            !c.is_resizable,
    {
        WindowConfig {
            title: String::from_str("† ANF game †"),
            w: 1280,
            h: 720,
            is_debug: true,
            rm_decoration: false,
            allow_high_dpi: true,
            is_resizable: false,
        }
    }
}

} // verus!
