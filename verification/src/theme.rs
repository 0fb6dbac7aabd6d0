//! The colours of the terminal client.

use vstd::prelude::*;

verus! {

/// A 24-bit colour.
#[derive(Debug, Clone, Copy, PartialEq, Eq, Structural)]
pub struct Rgb {
    pub r: u8,
    pub g: u8,
    pub b: u8,
}

/// The colour of each part of the screen.
#[derive(Debug, Clone, Copy, PartialEq, Eq, Structural)]
pub struct Theme {
    pub bg: Rgb,
    pub panel_border: Rgb,
    pub title: Rgb,
    pub status: Rgb,
    pub text: Rgb,
    pub muted: Rgb,
    pub system: Rgb,
    pub error: Rgb,
    pub self_name: Rgb,
    pub other_name: Rgb,
    pub timestamp: Rgb,
    pub input_border: Rgb,
    pub header_bg: Rgb,
    pub header_fg: Rgb,
    pub header_accent: Rgb,
}

/// The colour with components `r`, `g`, `b`.
pub open spec fn rgb(r: u8, g: u8, b: u8) -> Rgb {
    Rgb { r, g, b }
}

/// The Dracula palette the client draws with.
pub open spec fn dracula() -> Theme {
    Theme {
        bg: rgb(40, 42, 54),
        panel_border: rgb(98, 114, 164),
        title: rgb(189, 147, 249),
        status: rgb(80, 250, 123),
        text: rgb(248, 248, 242),
        muted: rgb(98, 114, 164),
        system: rgb(139, 233, 253),
        error: rgb(255, 85, 85),
        self_name: rgb(80, 250, 123),
        other_name: rgb(255, 184, 108),
        timestamp: rgb(189, 147, 249),
        input_border: rgb(255, 121, 198),
        header_bg: rgb(68, 71, 90),
        header_fg: rgb(248, 248, 242),
        header_accent: rgb(189, 147, 249),
    }
}

impl Default for Theme {
    fn default() -> (t: Theme)
        ensures
            t == dracula(),
    {
        Theme {
            bg: Rgb { r: 40, g: 42, b: 54 },
            panel_border: Rgb { r: 98, g: 114, b: 164 },
            title: Rgb { r: 189, g: 147, b: 249 },
            status: Rgb { r: 80, g: 250, b: 123 },
            text: Rgb { r: 248, g: 248, b: 242 },
            muted: Rgb { r: 98, g: 114, b: 164 },
            system: Rgb { r: 139, g: 233, b: 253 },
            error: Rgb { r: 255, g: 85, b: 85 },
            self_name: Rgb { r: 80, g: 250, b: 123 },
            other_name: Rgb { r: 255, g: 184, b: 108 },
            timestamp: Rgb { r: 189, g: 147, b: 249 },
            input_border: Rgb { r: 255, g: 121, b: 198 },
            header_bg: Rgb { r: 68, g: 71, b: 90 },
            header_fg: Rgb { r: 248, g: 248, b: 242 },
            header_accent: Rgb { r: 189, g: 147, b: 249 },
        }
    }
}

} // verus!
