//! The status spinner: a terminal animation that runs beside a long operation,
//! or stays quiet in silent mode.
use std::io::Write;
use vstd::prelude::*;

verus! {

#[verifier::external_type_specification]
#[verifier::external_body]
pub struct ExProgressBar(indicatif::ProgressBar);

#[verifier::external_type_specification]
#[verifier::external_body]
pub struct ExProgressStyle(indicatif::ProgressStyle);

#[verifier::external_type_specification]
#[verifier::external_body]
pub struct ExProgressDrawTarget(indicatif::ProgressDrawTarget);

#[verifier::external_type_specification]
#[verifier::external_body]
pub struct ExTemplateError(indicatif::style::TemplateError);

/// Relies on indicatif::ProgressDrawTarget::stdout: a draw target on standard output.
pub assume_specification[ indicatif::ProgressDrawTarget::stdout ]() -> indicatif::ProgressDrawTarget;

/// Relies on indicatif::ProgressDrawTarget::hidden: a draw target that draws nothing.
pub assume_specification[ indicatif::ProgressDrawTarget::hidden ]() -> indicatif::ProgressDrawTarget;

/// Relies on indicatif::ProgressBar::set_draw_target: the bar draws on the given target from now on.
pub assume_specification[ indicatif::ProgressBar::set_draw_target ](
    bar: &indicatif::ProgressBar,
    target: indicatif::ProgressDrawTarget,
);

/// Relies on indicatif::ProgressBar::finish_and_clear: finishes the bar and
/// removes its frame from the terminal.
pub assume_specification[ indicatif::ProgressBar::finish_and_clear ](bar: &indicatif::ProgressBar);

/// Relies on indicatif::ProgressBar::with_draw_target: a bar drawn on the given target.
pub assume_specification[ indicatif::ProgressBar::with_draw_target ](
    len: Option<u64>,
    draw_target: indicatif::ProgressDrawTarget,
) -> indicatif::ProgressBar;

/// Relies on indicatif::ProgressBar's Clone: another handle on the same bar.
pub assume_specification[ <indicatif::ProgressBar as std::clone::Clone>::clone ](
    bar: &indicatif::ProgressBar,
) -> indicatif::ProgressBar;

/// Relies on indicatif::ProgressBar::set_style: replaces the bar's style.
pub assume_specification[ indicatif::ProgressBar::set_style ](
    bar: &indicatif::ProgressBar,
    style: indicatif::ProgressStyle,
);

/// Relies on indicatif::ProgressBar::tick: advances and redraws the spinner frame.
pub assume_specification[ indicatif::ProgressBar::tick ](bar: &indicatif::ProgressBar);

/// Relies on indicatif::ProgressStyle::default_spinner: the stock spinner style.
pub assume_specification[ indicatif::ProgressStyle::default_spinner ]() -> indicatif::ProgressStyle;

/// Relies on indicatif::ProgressStyle::tick_strings: the style with the given
/// frames. A redraw needs at least two frames, so fewer are not accepted; its
/// own check on the progress characters holds for every style built here,
/// which have two.
pub assume_specification[ indicatif::ProgressStyle::tick_strings ](
    style: indicatif::ProgressStyle,
    s: &[&str],
) -> indicatif::ProgressStyle
    requires
        s@.len() >= 2,
;

/// Relies on indicatif::ProgressStyle::template: the style with the given
/// display template, or an error where the template does not parse. Only the
/// spinner's color templates are accepted: a width written after a colon is
/// read with a panic on overflow.
pub assume_specification[ indicatif::ProgressStyle::template ](
    style: indicatif::ProgressStyle,
    s: &str,
) -> Result<indicatif::ProgressStyle, indicatif::style::TemplateError>
    requires
        exists|c: SpinnerColor| s@ == template_for(c),
;

/// Relies on indicatif::ProgressBar::set_message: the text shown beside the frame.
#[verifier::external_body]
fn show_message(bar: &indicatif::ProgressBar, message: &'static str) {
    bar.set_message(message)
}

/// Relies on indicatif::ProgressBar::println: a line written above the bar,
/// through the bar's own output.
#[verifier::external_body]
fn print_above(bar: &indicatif::ProgressBar, message: &str) {
    bar.println(message)
}

/// Relies on std::io::stdout: a line written straight to standard output.
#[verifier::external_body]
fn print_plain(message: &str) {
    let _ = writeln!(std::io::stdout(), "{}", message);
}

/// A terminal color the spinner can be drawn in.
#[derive(Clone, Copy, Debug, PartialEq, Eq, PartialOrd, Ord, Hash, Structural)]
pub enum SpinnerColor {
    Black,
    Red,
    Green,
    Yellow,
    Blue,
    Magenta,
    Cyan,
    White,
}

/// The terminal name of a color.
pub open spec fn color_name(c: SpinnerColor) -> Seq<char> {
    match c {
        SpinnerColor::Black => "black"@,
        SpinnerColor::Red => "red"@,
        SpinnerColor::Green => "green"@,
        SpinnerColor::Yellow => "yellow"@,
        SpinnerColor::Blue => "blue"@,
        SpinnerColor::Magenta => "magenta"@,
        SpinnerColor::Cyan => "cyan"@,
        SpinnerColor::White => "white"@,
    }
}

/// The display template with the spinner frame drawn in color `c`.
pub open spec fn template_for(c: SpinnerColor) -> Seq<char> {
    "{spinner:."@ + color_name(c) + "} {msg}"@
}

impl SpinnerColor {
    /// The terminal name of the color.
    pub fn name(&self) -> (r: String)
        ensures
            r@ == color_name(*self),
    {
        let s = match self {
            SpinnerColor::Black => "black",
            SpinnerColor::Red => "red",
            SpinnerColor::Green => "green",
            SpinnerColor::Yellow => "yellow",
            SpinnerColor::Blue => "blue",
            SpinnerColor::Magenta => "magenta",
            SpinnerColor::Cyan => "cyan",
            SpinnerColor::White => "white",
        };
        s.to_owned()
    }
}

/// The spinner's ten braille animation frames, in order.
pub open spec fn braille_frames() -> Seq<Seq<char>> {
    seq!["⠋"@, "⠙"@, "⠹"@, "⠸"@, "⠼"@, "⠴"@, "⠦"@, "⠧"@, "⠇"@, "⠏"@]
}

/// The views of a list of frames.
pub open spec fn frame_views(v: Seq<&str>) -> Seq<Seq<char>> {
    v.map_values(|s: &str| s@)
}

/// The spinner's animation frames.
fn tick_glyphs() -> (r: Vec<&'static str>)
    ensures
        r@.len() == 10,
        frame_views(r@) == braille_frames(),
{
    let r = vec!["⠋", "⠙", "⠹", "⠸", "⠼", "⠴", "⠦", "⠧", "⠇", "⠏"];
    assert(frame_views(r@) =~= braille_frames());
    r
}

/// A spinner on standard output; silent mode draws nothing and prints plainly.
#[derive(Clone, Debug)]
pub struct Spinner {
    progress_bar: indicatif::ProgressBar,
    silent: bool,
    /// The frames last handed to the bar's spinner style; empty while the bar
    /// has not been given one, or has been silenced since.
    frames: Vec<&'static str>,
    /// The length the bar was built with.
    length: Option<u64>,
    /// Whether the draw target last handed to the bar is standard output
    /// (else it is the hidden target).
    on_stdout: bool,
}

impl Spinner {
    /// Whether the spinner is silent.
    pub closed spec fn is_silent(&self) -> bool {
        self.silent
    }

    /// The frames handed to the bar's spinner style, if any.
    pub closed spec fn frames(&self) -> Seq<Seq<char>> {
        frame_views(self.frames@)
    }

    /// Whether the bar has been handed the animated spinner style.
    pub open spec fn is_animated(&self) -> bool {
        self.frames().len() > 0
    }

    /// The length the bar was built with.
    pub closed spec fn bar_length(&self) -> Option<u64> {
        self.length
    }

    /// Whether the bar draws on standard output rather than on the hidden target.
    pub closed spec fn draws_on_stdout(&self) -> bool {
        self.on_stdout
    }

    /// A spinner whose bar draws on standard output with the largest length,
    /// not silent and not yet given the animated style.
    pub fn new() -> (r: Self)
        ensures
            !r.is_silent(),
            !r.is_animated(),
            r.bar_length() == Some(u64::MAX),
            r.draws_on_stdout(),
    {
        Spinner {
            progress_bar: indicatif::ProgressBar::with_draw_target(
                Some(u64::MAX),
                indicatif::ProgressDrawTarget::stdout(),
            ),
            silent: false,
            frames: Vec::new(),
            length: Some(u64::MAX),
            on_stdout: true,
        }
    }

    /// Fixes silence and switches the rendering with it: a spinner that is not
    /// silent draws on standard output in the spinner style with the ten
    /// braille frames; a silent one draws on the hidden target, a no-op.
    pub fn set_silent(self, silent: bool) -> (r: Self)
        ensures
            r.is_silent() == silent,
            !silent ==> r.frames() == braille_frames(),
            silent ==> !r.is_animated(),
            r.draws_on_stdout() == !silent,
            r.bar_length() == self.bar_length(),
    {
        let mut s = self;
        s.silent = silent;
        if !silent {
            let glyphs = tick_glyphs();
            s.progress_bar.set_draw_target(indicatif::ProgressDrawTarget::stdout());
            s.progress_bar.set_style(
                indicatif::ProgressStyle::default_spinner().tick_strings(glyphs.as_slice()),
            );
            s.frames = glyphs;
            s.on_stdout = true;
        } else {
            s.progress_bar.set_draw_target(indicatif::ProgressDrawTarget::hidden());
            s.frames = Vec::new();
            s.on_stdout = false;
        }
        s
    }

    /// Ends the animation: the bar is finished and its frame cleared from the
    /// terminal, so no partial frame stays behind.
    pub fn clear(&self) {
        self.progress_bar.finish_and_clear();
    }

    /// Draws the frame in `color`; no effect when silent.
    pub fn set_color(&self, color: SpinnerColor) -> (r: &Self)
        ensures
            r == self,
    {
        if !self.silent {
            let glyphs = tick_glyphs();
            let tpl = Self::format_tpl(color);
            let style = indicatif::ProgressStyle::default_spinner().tick_strings(
                glyphs.as_slice(),
            );
            match style.template(tpl.as_str()) {
                Ok(styled) => self.progress_bar.set_style(styled),
                Err(_) => {},
            }
        }
        self
    }

    /// Replaces the text beside the frame; no effect when silent.
    pub fn set_message(&self, message: &'static str) -> (r: &Self)
        ensures
            r == self,
    {
        if !self.silent {
            show_message(&self.progress_bar, message);
        }
        self
    }

    /// Prints a line: plainly when silent, else above the frame without
    /// disturbing it.
    pub fn print_message(&self, message: &str) -> (r: &Self)
        ensures
            r == self,
    {
        if self.silent {
            print_plain(message);
        } else {
            print_above(&self.progress_bar, message);
        }
        self
    }

    /// One animation step: advances and redraws the frame unless silent.
    pub fn tick(&self) {
        if !self.silent {
            self.progress_bar.tick();
        }
    }

    /// The display template for `color`.
    pub fn format_tpl(color: SpinnerColor) -> (r: String)
        ensures
            r@ == template_for(color),
    {
        let mut tpl = String::from_str("{spinner:.");
        let name = color.name();
        tpl.append(name.as_str());
        tpl.append("} {msg}");
        tpl
    }
}

} // verus!
