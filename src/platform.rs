use vstd::prelude::*;

verus! {

/// The kind of target the application runs on.
#[derive(Clone, Copy, Debug, PartialEq, Eq, Structural)]
pub enum Platform {
    /// A Windows desktop.
    Windows,
    /// A desktop other than Windows (Linux, macOS, ...).
    OtherDesktop,
    /// A phone or tablet.
    Mobile,
}

impl Platform {
    /// Whether this platform is a desktop one.
    pub open spec fn spec_is_desktop(self) -> bool {
        !(self is Mobile)
    }

    /// Whether a native dialog is shown on a startup failure here.
    pub open spec fn spec_shows_dialog(self) -> bool {
        self is Windows
    }

    pub fn is_desktop(&self) -> (r: bool)
        ensures
            r == self.spec_is_desktop(),
    {
        !matches!(self, Platform::Mobile)
    }

    pub fn shows_dialog(&self) -> (r: bool)
        ensures
            r == self.spec_shows_dialog(),
    {
        matches!(self, Platform::Windows)
    }
}

} // verus!
