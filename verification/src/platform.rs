//! The operating systems that the rules tell apart.
use vstd::prelude::*;

verus! {

/// The operating system that the program runs on.
#[derive(Clone, Copy, Debug, PartialEq, Eq, Structural)]
pub enum Platform {
    Windows,
    MacOs,
    Linux,
    /// Any other system: watching works, autostart does not.
    Unsupported,
}

impl Platform {
    /// The byte that `join` puts between a folder and a name.
    pub open spec fn spec_separator(self) -> u8 {
        if self == Platform::Windows {
            0x5cu8
        } else {
            0x2fu8
        }
    }

    /// The byte that `join` puts between a folder and a name: `\` on Windows, `/` elsewhere.
    pub fn separator(self) -> (r: u8)
        ensures
            r == self.spec_separator(),
    {
        match self {
            Platform::Windows => 0x5cu8,
            _ => 0x2fu8,
        }
    }

    /// Whether `b` separates the names of a path.
    pub open spec fn spec_is_separator(self, b: u8) -> bool {
        b == 0x2fu8 || b == self.spec_separator()
    }

    /// Whether `b` separates the names of a path: `/`, and on Windows `\` too.
    pub fn is_separator(self, b: u8) -> (r: bool)
        ensures
            r == self.spec_is_separator(b),
    {
        b == 0x2fu8 || b == self.separator()
    }
}

/// Names are separated by `/`, and on Windows by `\` too, which there comes
/// between a folder and a name.
pub proof fn law_separators(platform: Platform, b: u8)
    ensures
        platform.spec_is_separator(b) <==> b == 0x2f || platform == Platform::Windows && b == 0x5c,
        platform == Platform::Windows ==> platform.spec_separator() == 0x5c,
        platform != Platform::Windows ==> platform.spec_separator() == 0x2f,
{
}

} // verus!
