//! Startup banners.
//!
//! Shown once when the overlay starts: a large coloured logo, a one-line
//! summary of the configuration, or a minimal line with the keyboard
//! shortcuts.

use vstd::prelude::*;

use crate::text::dec_rep;
use crate::text::dec_rep_signed;
use crate::text::i64_to_string;
use crate::text::u64_to_string;

verus! {

/// Colour themes for the banner.
#[derive(Debug, Clone, Copy, PartialEq, Eq, Structural)]
pub enum Theme {
    /// Warm coral accents.
    Coral,
    /// No colour codes at all.
    Plain,
}

impl Theme {
    /// The accent colour prefix.
    pub open spec fn info_spec(self) -> Seq<char> {
        if self is Coral {
            "\u{1b}[38;2;255;127;80m"@
        } else {
            Seq::empty()
        }
    }

    /// The success colour prefix.
    pub open spec fn success_spec(self) -> Seq<char> {
        if self is Coral {
            "\u{1b}[32m"@
        } else {
            Seq::empty()
        }
    }

    /// The warning colour prefix.
    pub open spec fn warning_spec(self) -> Seq<char> {
        if self is Coral {
            "\u{1b}[33m"@
        } else {
            Seq::empty()
        }
    }

    /// The reset code.
    pub open spec fn reset_spec(self) -> Seq<char> {
        if self is Coral {
            "\u{1b}[0m"@
        } else {
            Seq::empty()
        }
    }

    fn info(&self) -> (r: String)
        ensures
            r@ == self.info_spec(),
    {
        match self {
            Theme::Coral => String::from_str("\u{1b}[38;2;255;127;80m"),
            Theme::Plain => String::new(),
        }
    }

    fn success(&self) -> (r: String)
        ensures
            r@ == self.success_spec(),
    {
        match self {
            Theme::Coral => String::from_str("\u{1b}[32m"),
            Theme::Plain => String::new(),
        }
    }

    fn warning(&self) -> (r: String)
        ensures
            r@ == self.warning_spec(),
    {
        match self {
            Theme::Coral => String::from_str("\u{1b}[33m"),
            Theme::Plain => String::new(),
        }
    }

    fn reset(&self) -> (r: String)
        ensures
            r@ == self.reset_spec(),
    {
        match self {
            Theme::Coral => String::from_str("\u{1b}[0m"),
            Theme::Plain => String::new(),
        }
    }
}

/// The logo, line by line.
pub open spec fn logo_line(i: int) -> Seq<char> {
    if i == 0 {
        " ██╗   ██╗ ██████╗ ██╗  ██╗████████╗███████╗██████╗ ███╗   ███╗"@
    } else if i == 1 {
        " ██║   ██║██╔═══██╗╚██╗██╔╝╚══██╔══╝██╔════╝██╔══██╗████╗ ████║"@
    } else if i == 2 {
        " ██║   ██║██║   ██║ ╚███╔╝    ██║   █████╗  ██████╔╝██╔████╔██║"@
    } else if i == 3 {
        " ╚██╗ ██╔╝██║   ██║ ██╔██╗    ██║   ██╔══╝  ██╔══██╗██║╚██╔╝██║"@
    } else if i == 4 {
        "  ╚████╔╝ ╚██████╔╝██╔╝ ██╗   ██║   ███████╗██║  ██║██║ ╚═╝ ██║"@
    } else {
        "   ╚═══╝   ╚═════╝ ╚═╝  ╚═╝   ╚═╝   ╚══════╝╚═╝  ╚═╝╚═╝     ╚═╝"@
    }
}

/// The purple gradient, light to deep, one colour per logo line.
pub open spec fn gradient_color(i: int) -> (u8, u8, u8) {
    if i == 0 {
        (224u8, 176u8, 255u8)
    } else if i == 1 {
        (200u8, 162u8, 255u8)
    } else if i == 2 {
        (187u8, 154u8, 247u8)
    } else if i == 3 {
        (157u8, 124u8, 216u8)
    } else if i == 4 {
        (138u8, 106u8, 196u8)
    } else {
        (118u8, 88u8, 176u8)
    }
}

/// The purple gradient as values, light to deep.
pub fn purple_gradient() -> (r: Vec<(u8, u8, u8)>)
    ensures
        r@.len() == 6,
        forall|i: int| 0 <= i < 6 ==> #[trigger] r@[i] == gradient_color(i),
{
    let mut v: Vec<(u8, u8, u8)> = Vec::new();
    v.push((224, 176, 255));
    v.push((200, 162, 255));
    v.push((187, 154, 247));
    v.push((157, 124, 216));
    v.push((138, 106, 196));
    v.push((118, 88, 176));
    v
}

/// The ANSI truecolor foreground code for an RGB colour.
pub open spec fn rgb_fg_spec(r: u8, g: u8, b: u8) -> Seq<char> {
    "\u{1b}[38;2;"@ + dec_rep(r as nat) + ";"@ + dec_rep(g as nat) + ";"@ + dec_rep(b as nat)
        + "m"@
}

/// Formats an RGB colour as an ANSI truecolor foreground code.
pub fn rgb_fg(r: u8, g: u8, b: u8) -> (s: String)
    ensures
        s@ == rgb_fg_spec(r, g, b),
{
    let mut out = String::from_str("\u{1b}[38;2;");
    let rd = u64_to_string(r as u64);
    out.append(rd.as_str());
    out.append(";");
    let gd = u64_to_string(g as u64);
    out.append(gd.as_str());
    out.append(";");
    let bd = u64_to_string(b as u64);
    out.append(bd.as_str());
    out.append("m");
    proof {
        assert(out@ =~= rgb_fg_spec(r, g, b));
    }
    out
}

/// One rendered logo line, with its gradient colour when colours are on.
pub open spec fn logo_line_rendered(i: int, use_color: bool) -> Seq<char> {
    (if use_color {
        let c = gradient_color(i);
        rgb_fg_spec(c.0, c.1, c.2) + logo_line(i) + "\u{1b}[0m"@
    } else {
        logo_line(i)
    }) + "\n"@
}

/// The first `i` logo lines rendered.
pub open spec fn logo_upto(i: int, use_color: bool) -> Seq<char>
    decreases i,
{
    if i <= 0 {
        Seq::empty()
    } else {
        logo_upto(i - 1, use_color) + logo_line_rendered(i - 1, use_color)
    }
}

/// The whole logo banner: a blank line, the six logo lines, a blank line.
pub open spec fn ascii_banner_spec(use_color: bool) -> Seq<char> {
    "\n"@ + logo_upto(6, use_color) + "\n"@
}

fn logo_line_text(i: usize) -> (r: String)
    requires
        i < 6,
    ensures
        r@ == logo_line(i as int),
{
    if i == 0 {
        String::from_str(" ██╗   ██╗ ██████╗ ██╗  ██╗████████╗███████╗██████╗ ███╗   ███╗")
    } else if i == 1 {
        String::from_str(" ██║   ██║██╔═══██╗╚██╗██╔╝╚══██╔══╝██╔════╝██╔══██╗████╗ ████║")
    } else if i == 2 {
        String::from_str(" ██║   ██║██║   ██║ ╚███╔╝    ██║   █████╗  ██████╔╝██╔████╔██║")
    } else if i == 3 {
        String::from_str(" ╚██╗ ██╔╝██║   ██║ ██╔██╗    ██║   ██╔══╝  ██╔══██╗██║╚██╔╝██║")
    } else if i == 4 {
        String::from_str("  ╚████╔╝ ╚██████╔╝██╔╝ ██╗   ██║   ███████╗██║  ██║██║ ╚═╝ ██║")
    } else {
        String::from_str("   ╚═══╝   ╚═════╝ ╚═╝  ╚═╝   ╚═╝   ╚══════╝╚═╝  ╚═╝╚═╝     ╚═╝")
    }
}

/// Formats the large logo banner, with a purple gradient when colours
/// are on.
pub fn format_ascii_banner(use_color: bool) -> (r: String)
    ensures
        r@ == ascii_banner_spec(use_color),
{
    let gradient = purple_gradient();
    let mut out = String::from_str("\n");
    let mut i: usize = 0;
    while i < 6
        invariant
            i <= 6,
            gradient@.len() == 6,
            forall|j: int| 0 <= j < 6 ==> #[trigger] gradient@[j] == gradient_color(j),
            out@ =~= "\n"@ + logo_upto(i as int, use_color),
        decreases 6 - i,
    {
        let line = logo_line_text(i);
        if use_color {
            let (cr, cg, cb) = gradient[i];
            let color = rgb_fg(cr, cg, cb);
            out.append(color.as_str());
            out.append(line.as_str());
            out.append("\u{1b}[0m");
        } else {
            out.append(line.as_str());
        }
        out.append("\n");
        i = i + 1;
        proof {
            assert(out@ =~= "\n"@ + logo_upto(i as int, use_color));
        }
    }
    out.append("\n");
    proof {
        assert(out@ =~= ascii_banner_spec(use_color));
    }
    out
}

/// Configuration shown in the startup banner.
#[derive(Debug)]
pub struct BannerConfig {
    /// Whether auto-voice starts enabled.
    pub auto_voice: bool,
    /// The theme's name.
    pub theme: String,
    /// The pipeline in use (Rust or Python).
    pub pipeline: String,
    /// Microphone sensitivity threshold in dB.
    pub sensitivity_db: i64,
    /// The wrapped backend CLI's name.
    pub backend: String,
}

impl Default for BannerConfig {
    /// The defaults: the coral theme around the native pipeline.
    fn default() -> (r: BannerConfig)
        ensures
            !r.auto_voice,
            r.theme@ == "coral"@,
            r.pipeline@ == "Rust"@,
            r.sensitivity_db == -35,
            r.backend@ == "codex"@,
    {
        BannerConfig {
            auto_voice: false,
            theme: String::from_str("coral"),
            pipeline: String::from_str("Rust"),
            sensitivity_db: -35,
            backend: String::from_str("codex"),
        }
    }
}

/// The compact startup banner: name, version, backend, pipeline, theme,
/// auto-voice state and sensitivity.
pub open spec fn startup_banner_spec(
    auto_voice: bool,
    theme_name: Seq<char>,
    pipeline: Seq<char>,
    sensitivity_db: int,
    backend: Seq<char>,
    theme: Theme,
) -> Seq<char> {
    theme.info_spec() + "VoxTerm"@ + theme.reset_spec() + " v"@ + "0.1.0"@ + " \u{2502} "@
        + backend + " \u{2502} "@ + pipeline + " \u{2502} theme: "@ + theme_name
        + " \u{2502} auto-voice: "@ + (if auto_voice {
        theme.success_spec() + "on"@ + theme.reset_spec()
    } else {
        theme.warning_spec() + "off"@ + theme.reset_spec()
    }) + " \u{2502} "@ + dec_rep_signed(sensitivity_db) + "dB\n"@
}

/// Formats the compact startup banner.
pub fn format_startup_banner(config: &BannerConfig, theme: Theme) -> (r: String)
    ensures
        r@ == startup_banner_spec(
            config.auto_voice,
            config.theme@,
            config.pipeline@,
            config.sensitivity_db as int,
            config.backend@,
            theme,
        ),
{
    let mut out = theme.info();
    out.append("VoxTerm");
    let reset = theme.reset();
    out.append(reset.as_str());
    out.append(" v");
    let v = crate::version();
    out.append(v.as_str());
    out.append(" \u{2502} ");
    out.append(config.backend.as_str());
    out.append(" \u{2502} ");
    out.append(config.pipeline.as_str());
    out.append(" \u{2502} theme: ");
    out.append(config.theme.as_str());
    out.append(" \u{2502} auto-voice: ");
    if config.auto_voice {
        let success = theme.success();
        out.append(success.as_str());
        out.append("on");
        out.append(reset.as_str());
    } else {
        let warning = theme.warning();
        out.append(warning.as_str());
        out.append("off");
        out.append(reset.as_str());
    }
    out.append(" \u{2502} ");
    let db = i64_to_string(config.sensitivity_db);
    out.append(db.as_str());
    out.append("dB\n");
    proof {
        assert(out@ =~= startup_banner_spec(
            config.auto_voice,
            config.theme@,
            config.pipeline@,
            config.sensitivity_db as int,
            config.backend@,
            theme,
        ));
    }
    out
}

/// The minimal one-line banner with the keyboard shortcuts.
pub open spec fn minimal_banner_spec(theme: Theme) -> Seq<char> {
    theme.info_spec() + "VoxTerm"@ + theme.reset_spec() + " v"@ + "0.1.0"@
        + " \u{2502} Ctrl+R rec \u{2502} Ctrl+V auto \u{2502} Ctrl+Q quit\n"@
}

/// Formats the minimal one-line banner.
pub fn format_minimal_banner(theme: Theme) -> (r: String)
    ensures
        r@ == minimal_banner_spec(theme),
{
    let mut out = theme.info();
    out.append("VoxTerm");
    let reset = theme.reset();
    out.append(reset.as_str());
    out.append(" v");
    let v = crate::version();
    out.append(v.as_str());
    out.append(" \u{2502} Ctrl+R rec \u{2502} Ctrl+V auto \u{2502} Ctrl+Q quit\n");
    proof {
        assert(out@ =~= minimal_banner_spec(theme));
    }
    out
}

} // verus!
