//! Colours and the per-run rendering settings.
use vstd::prelude::*;

verus! {

/// The escape sequences written for each role; all empty when colours are off.
#[derive(Clone, Copy)]
pub struct Palette {
    pub enabled: bool,
    pub info: &'static str,
    pub warn: &'static str,
    pub error: &'static str,
    pub status3xx: &'static str,
    pub faint: &'static str,
    pub reset: &'static str,
}

impl Palette {
    /// Whether this is the palette that `Palette::new(enabled)` makes.
    pub open spec fn is_for(self, enabled: bool) -> bool {
        &&& self.enabled == enabled
        &&& enabled ==> {
            &&& self.info@ == "\x1b[32m"@
            &&& self.warn@ == "\x1b[33m"@
            &&& self.error@ == "\x1b[31m"@
            &&& self.status3xx@ == "\x1b[36m"@
            &&& self.faint@ == "\x1b[2m"@
            &&& self.reset@ == "\x1b[0m"@
        }
        &&& !enabled ==> {
            &&& self.info@.len() == 0
            &&& self.warn@.len() == 0
            &&& self.error@.len() == 0
            &&& self.status3xx@.len() == 0
            &&& self.faint@.len() == 0
            &&& self.reset@.len() == 0
        }
    }

    /// ANSI colours (green, yellow, red, cyan, dim) where `enabled`, else
    /// empty strings.
    pub fn new(enabled: bool) -> (r: Palette)
        ensures
            r.is_for(enabled),
    {
        if enabled {
            Palette {
                enabled,
                info: "\x1b[32m",
                warn: "\x1b[33m",
                error: "\x1b[31m",
                status3xx: "\x1b[36m",
                faint: "\x1b[2m",
                reset: "\x1b[0m",
            }
        } else {
            proof {
                reveal_strlit("");
            }
            Palette { enabled, info: "", warn: "", error: "", status3xx: "", faint: "", reset: "" }
        }
    }
}

/// When output is coloured.
#[derive(Clone, Copy)]
pub enum ColorChoice {
    /// Where standard output is a terminal.
    Auto,
    Always,
    Never,
}

/// Whether colours are on under `choice`, given whether standard output is a
/// terminal.
pub open spec fn colors_on(choice: ColorChoice, is_tty: bool) -> bool {
    match choice {
        ColorChoice::Auto => is_tty,
        ColorChoice::Always => true,
        ColorChoice::Never => false,
    }
}

/// Settings shared by every record of a run.
#[derive(Clone, Copy)]
pub struct RenderCtx {
    /// Whether a record's timestamp is written at the start of its line.
    pub show_ts: bool,
    pub pal: Palette,
}

impl RenderCtx {
    /// The settings for a run: colours as `choice` and the terminal decide.
    pub fn new(show_ts: bool, choice: ColorChoice, is_tty: bool) -> (r: RenderCtx)
        ensures
            r.show_ts == show_ts,
            r.pal.is_for(colors_on(choice, is_tty)),
    {
        let enabled = match choice {
            ColorChoice::Auto => is_tty,
            ColorChoice::Always => true,
            ColorChoice::Never => false,
        };
        RenderCtx { show_ts, pal: Palette::new(enabled) }
    }
}

} // verus!
