use vstd::prelude::*;
use vstd::string::*;

use crate::level::{LoggingLevel, Severity};
use crate::text::{decimal, is_prefix, push_decimal, same_text, starts_with};

verus! {

/// The terminal colors the renderer uses.
#[derive(PartialEq, Eq, Structural, Debug, Clone, Copy)]
pub enum Color {
    Red,
    Yellow,
    Blue,
    Purple,
    White,
}

/// A foreground color, optionally in bold.
#[derive(PartialEq, Eq, Structural, Debug, Clone, Copy)]
pub struct Style {
    pub color: Color,
    pub bold: bool,
}

/// A piece of output text and the style it is shown in (`None`: unstyled).
pub struct Segment {
    pub text: String,
    pub style: Option<Style>,
}

/// What a record's channel asks of the renderer.
#[derive(PartialEq, Eq, Structural, Debug, Clone, Copy)]
pub enum Channel {
    /// An ordinary record.
    Plain,
    /// A record shown indented under the one before it.
    Continuation,
    /// A startup announcement, shown as plain information whatever its severity.
    Launch,
}

/// The target that marks a continuation record.
pub const CONTINUATION_TARGET: &'static str = "_";

/// The target that marks a launch announcement.
pub const LAUNCH_TARGET: &'static str = "launch";

/// The channel that a record's target names.
pub open spec fn channel_of(target: Seq<char>) -> Channel {
    if target == CONTINUATION_TARGET@ {
        Channel::Continuation
    } else if target == LAUNCH_TARGET@ {
        Channel::Launch
    } else {
        Channel::Plain
    }
}

impl Channel {
    /// Reads the channel from a record's target.
    pub fn from_target(target: &str) -> (r: Channel)
        ensures
            r == channel_of(target@),
    {
        if same_text(target, CONTINUATION_TARGET) {
            Channel::Continuation
        } else if same_text(target, LAUNCH_TARGET) {
            Channel::Launch
        } else {
            Channel::Plain
        }
    }
}

/// A log record as the renderer sees it.
pub struct Record {
    pub severity: Severity,
    pub channel: Channel,
    /// Module path of the code that emitted the record.
    pub module: String,
    /// Source file of the code that emitted the record.
    pub file: String,
    /// Source line of the code that emitted the record.
    pub line: u32,
    /// The formatted message.
    pub message: String,
}

/// A piece of output in the model: its text and its style.
pub type Piece = (Seq<char>, Option<Style>);

pub open spec fn plain(text: Seq<char>) -> Piece {
    (text, None)
}

pub open spec fn colored(text: Seq<char>, color: Color, bold: bool) -> Piece {
    (text, Some(Style { color, bold }))
}

/// The severity a record is shown with: launch announcements read as `Info`.
pub open spec fn shown_severity(rec: Record) -> Severity {
    if rec.channel == Channel::Launch {
        Severity::Info
    } else {
        rec.severity
    }
}

/// Whether a module path belongs to one of the chatty network libraries.
pub open spec fn is_noisy(path: Seq<char>) -> bool {
    is_prefix("hyper::"@, path) || is_prefix("rustls::"@, path)
}

/// Whether a record produces no output at all under `level`.
pub open spec fn suppressed(level: LoggingLevel, rec: Record) -> bool {
    !level.admits(rec.severity) || (level != LoggingLevel::Debug && is_noisy(rec.module@))
}

/// Whether a record is shown indented under `level`.
pub open spec fn indented(level: LoggingLevel, rec: Record) -> bool {
    rec.channel == Channel::Continuation && level != LoggingLevel::Critical
}

/// The indentation shown before a continuation record.
pub open spec fn indent_pieces() -> Seq<Piece> {
    seq![plain("    "@), colored("=>"@, Color::White, false), plain(" "@)]
}

/// The body of a record, by the severity it is shown with.
pub open spec fn body_pieces(rec: Record) -> Seq<Piece> {
    match shown_severity(rec) {
        Severity::Info => seq![colored(rec.message@, Color::Blue, false), plain("\n"@)],
        Severity::Trace => seq![colored(rec.message@, Color::Purple, false), plain("\n"@)],
        Severity::Error => seq![
            colored("Error:"@, Color::Red, true),
            plain(" "@),
            colored(rec.message@, Color::Red, false),
            plain("\n"@),
        ],
        Severity::Warn => seq![
            colored("Warning:"@, Color::Yellow, true),
            plain(" "@),
            colored(rec.message@, Color::Yellow, false),
            plain("\n"@),
        ],
        Severity::Debug => seq![
            plain("\n"@),
            colored("-->"@, Color::Blue, true),
            plain(" "@),
            colored(rec.file@, Color::Blue, false),
            plain(":"@),
            colored(decimal(rec.line as nat), Color::Blue, false),
            plain("\n"@),
            plain(rec.message@),
            plain("\n"@),
        ],
    }
}

/// Everything shown for a record under `level`, piece by piece.
pub open spec fn layout(level: LoggingLevel, rec: Record) -> Seq<Piece> {
    if suppressed(level, rec) {
        seq![]
    } else if indented(level, rec) {
        indent_pieces() + body_pieces(rec)
    } else {
        body_pieces(rec)
    }
}

/// The model of a sequence of segments.
pub open spec fn pieces(segs: Seq<Segment>) -> Seq<Piece> {
    segs.map_values(|s: Segment| (s.text@, s.style))
}


/// The digit that selects a color in an ANSI foreground code.
pub open spec fn color_digit(c: Color) -> char {
    match c {
        Color::Red => '1',
        Color::Yellow => '3',
        Color::Blue => '4',
        Color::Purple => '5',
        Color::White => '7',
    }
}

/// The escape sequence that switches the terminal to a style.
pub open spec fn ansi_prefix(st: Style) -> Seq<char> {
    seq!['\x1b', '['] + (if st.bold { seq!['1', ';'] } else { seq![] }) + seq![
        '3',
        color_digit(st.color),
        'm',
    ]
}

/// The escape sequence that resets the terminal's style.
pub open spec fn ansi_reset() -> Seq<char> {
    seq!['\x1b', '[', '0', 'm']
}

/// Text wrapped in the escape sequences of a style.
pub open spec fn painted(text: Seq<char>, st: Style) -> Seq<char> {
    ansi_prefix(st) + text + ansi_reset()
}

/// How one piece is written: styled only when colors are on.
pub open spec fn shown(p: Piece, colors: bool) -> Seq<char> {
    match p.1 {
        Some(st) => if colors {
            painted(p.0, st)
        } else {
            p.0
        },
        None => p.0,
    }
}

/// The text written for a sequence of pieces.
pub open spec fn output(ps: Seq<Piece>, colors: bool) -> Seq<char>
    decreases ps.len(),
{
    if ps.len() == 0 {
        seq![]
    } else {
        output(ps.drop_last(), colors) + shown(ps.last(), colors)
    }
}

/// The text of a sequence of pieces with every style left out.
pub open spec fn unstyled(ps: Seq<Piece>) -> Seq<char>
    decreases ps.len(),
{
    if ps.len() == 0 {
        seq![]
    } else {
        unstyled(ps.drop_last()) + ps.last().0
    }
}

/// Relies on yansi's `Paint::new(..).fg(..)` and its `Display`: painting is on
/// (the crate's `nightly` feature, which alone can switch it off, is not
/// enabled), so the text is written between the color's ANSI code and the reset
/// code.
#[verifier::external_body]
fn paint_regular(text: &str, color: Color) -> (r: String)
    ensures
        r@ == painted(text@, Style { color, bold: false }),
{
    let c = match color {
        Color::Red => yansi::Color::Red,
        Color::Yellow => yansi::Color::Yellow,
        Color::Blue => yansi::Color::Blue,
        Color::Purple => yansi::Color::Purple,
        Color::White => yansi::Color::White,
    };
    format!("{}", yansi::Paint::new(text).fg(c))
}

/// Relies on yansi's `Paint::new(..).fg(..).bold()` and its `Display`: painting
/// is on (see `paint_regular`), so the text is written between the bold code
/// joined to the color's code and the reset code.
#[verifier::external_body]
fn paint_bold(text: &str, color: Color) -> (r: String)
    ensures
        r@ == painted(text@, Style { color, bold: true }),
{
    let c = match color {
        Color::Red => yansi::Color::Red,
        Color::Yellow => yansi::Color::Yellow,
        Color::Blue => yansi::Color::Blue,
        Color::Purple => yansi::Color::Purple,
        Color::White => yansi::Color::White,
    };
    format!("{}", yansi::Paint::new(text).fg(c).bold())
}

/// Writes `text` in the escape sequences of `st`.
pub fn paint(text: &str, st: Style) -> (r: String)
    ensures
        r@ == painted(text@, st),
{
    if st.bold {
        paint_bold(text, st.color)
    } else {
        paint_regular(text, st.color)
    }
}

/// Writes the segments in order, styled when `colors` is on.
pub fn write_segments(segs: &Vec<Segment>, colors: bool) -> (r: String)
    ensures
        r@ == output(pieces(segs@), colors),
{
    let mut out = String::new();
    let mut i: usize = 0;
    while i < segs.len()
        invariant
            i <= segs@.len(),
            out@ == output(pieces(segs@).take(i as int), colors),
        decreases segs@.len() - i,
    {
        let seg = &segs[i];
        proof {
            let ps = pieces(segs@);
            assert(ps.take(i + 1).drop_last() =~= ps.take(i as int));
        }
        match seg.style {
            Some(st) => {
                if colors {
                    let p = paint(seg.text.as_str(), st);
                    out.append(p.as_str());
                } else {
                    out.append(seg.text.as_str());
                }
            },
            None => {
                out.append(seg.text.as_str());
            },
        }
        i = i + 1;
    }
    assert(pieces(segs@).take(i as int) =~= pieces(segs@));
    out
}

fn segment(text: &str, style: Option<Style>) -> (r: Segment)
    ensures
        r.text@ == text@,
        r.style == style,
{
    Segment { text: String::from_str(text), style }
}

fn push_body(segs: &mut Vec<Segment>, rec: &Record)
    ensures
        pieces(final(segs)@) == pieces(old(segs)@) + body_pieces(*rec),
{
    let blue = Style { color: Color::Blue, bold: false };
    match if rec.channel == Channel::Launch { Severity::Info } else { rec.severity } {
        Severity::Info => {
            segs.push(segment(rec.message.as_str(), Some(blue)));
            segs.push(segment("\n", None));
        },
        Severity::Trace => {
            segs.push(segment(rec.message.as_str(), Some(Style { color: Color::Purple, bold: false })));
            segs.push(segment("\n", None));
        },
        Severity::Error => {
            segs.push(segment("Error:", Some(Style { color: Color::Red, bold: true })));
            segs.push(segment(" ", None));
            segs.push(segment(rec.message.as_str(), Some(Style { color: Color::Red, bold: false })));
            segs.push(segment("\n", None));
        },
        Severity::Warn => {
            segs.push(segment("Warning:", Some(Style { color: Color::Yellow, bold: true })));
            segs.push(segment(" ", None));
            segs.push(segment(rec.message.as_str(), Some(Style { color: Color::Yellow, bold: false })));
            segs.push(segment("\n", None));
        },
        Severity::Debug => {
            let mut line = String::new();
            push_decimal(&mut line, rec.line);
            segs.push(segment("\n", None));
            segs.push(segment("-->", Some(Style { color: Color::Blue, bold: true })));
            segs.push(segment(" ", None));
            segs.push(segment(rec.file.as_str(), Some(blue)));
            segs.push(segment(":", None));
            segs.push(Segment { text: line, style: Some(blue) });
            segs.push(segment("\n", None));
            segs.push(segment(rec.message.as_str(), None));
            segs.push(segment("\n", None));
        },
    }
    assert(pieces(final(segs)@) =~= pieces(old(segs)@) + body_pieces(*rec));
}

/// The logger: a level and whether output is colored.
pub struct Logger {
    pub level: LoggingLevel,
    pub colors: bool,
}

impl Logger {
    /// A logger for `level`, coloring its output when `colors` is on.
    pub fn new(level: LoggingLevel, colors: bool) -> (r: Logger)
        ensures
            r.level == level,
            r.colors == colors,
    {
        Logger { level, colors }
    }

    /// Whether a record of severity `s` passes this logger's level.
    pub fn enabled(&self, s: Severity) -> (r: bool)
        ensures
            r == self.level.admits(s),
    {
        self.level.enabled(s)
    }

    /// The segments shown for a record, in order; none for a suppressed one.
    pub fn layout(&self, rec: &Record) -> (r: Vec<Segment>)
        ensures
            pieces(r@) == layout(self.level, *rec),
    {
        let mut segs: Vec<Segment> = Vec::new();
        if !self.enabled(rec.severity) {
            assert(pieces(segs@) =~= seq![]);
            return segs;
        }
        let noisy = starts_with(rec.module.as_str(), "hyper::") || starts_with(
            rec.module.as_str(),
            "rustls::",
        );
        if self.level != LoggingLevel::Debug && noisy {
            assert(pieces(segs@) =~= seq![]);
            return segs;
        }
        if rec.channel == Channel::Continuation && self.level != LoggingLevel::Critical {
            segs.push(segment("    ", None));
            segs.push(segment("=>", Some(Style { color: Color::White, bold: false })));
            segs.push(segment(" ", None));
            assert(pieces(segs@) =~= indent_pieces());
        } else {
            assert(pieces(segs@) =~= seq![]);
        }
        push_body(&mut segs, rec);
        assert(pieces(segs@) =~= layout(self.level, *rec));
        segs
    }

    /// The text written for a record: empty for a suppressed one.
    pub fn render(&self, rec: &Record) -> (r: String)
        ensures
            r@ == output(layout(self.level, *rec), self.colors),
    {
        let segs = self.layout(rec);
        write_segments(&segs, self.colors)
    }
}


/// With colors off, the text written for any pieces is their text alone,
/// with no escape sequence.
pub proof fn lemma_colorless_output_is_unstyled(ps: Seq<Piece>)
    ensures
        output(ps, false) == unstyled(ps),
    decreases ps.len(),
{
    if ps.len() > 0 {
        lemma_colorless_output_is_unstyled(ps.drop_last());
    }
}

/// With colors off, what a logger writes for a record is the text of its
/// layout with every style left out; with colors on, each styled piece is the
/// same text between its style's escape sequences.
pub proof fn lemma_colorless_render(level: LoggingLevel, rec: Record)
    ensures
        output(layout(level, rec), false) == unstyled(layout(level, rec)),
        forall|i: int|
            0 <= i < layout(level, rec).len() ==> #[trigger] shown(layout(level, rec)[i], true)
                == match layout(level, rec)[i].1 {
                Some(st) => painted(layout(level, rec)[i].0, st),
                None => layout(level, rec)[i].0,
            },
{
    lemma_colorless_output_is_unstyled(layout(level, rec));
}
} // verus!
