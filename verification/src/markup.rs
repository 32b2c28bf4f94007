//! Coloured renderings in inline markup, for use as render hooks.
//!
//! Each rendering is a gauge: an icon and a figure between grey brackets, the
//! figure in the colour of its alert state.

use crate::battery::{BatteryInfo, ChargeStatus};
use crate::chars::{decimal, push_decimal};
use crate::memory::{classify, Level, MemorySample};
use crate::units::{gigabyte_figure, gigabyte_figure_text, gigabyte_unit, gigabyte_unit_text};
use vstd::prelude::*;

verus! {

/// The number of decimal places of a figure given in gigabytes.
pub const GIGABYTE_PLACES: u16 = 1;

/// The colours of the three alert states, each as markup names it
/// (`#RRGGBB`).
#[derive(Clone, Debug, PartialEq, Eq)]
pub struct Palette {
    pub normal: String,
    pub warning: String,
    pub critical: String,
}

impl Palette {
    /// The colour of an alert state.
    pub open spec fn colour_of(self, level: Level) -> Seq<char> {
        match level {
            Level::Normal => self.normal@,
            Level::Warning => self.warning@,
            Level::Critical => self.critical@,
        }
    }

    /// The colour of an alert state.
    pub fn colour(&self, level: Level) -> (colour: &str)
        ensures
            colour@ == self.colour_of(level),
    {
        match level {
            Level::Normal => self.normal.as_str(),
            Level::Warning => self.warning.as_str(),
            Level::Critical => self.critical.as_str(),
        }
    }
}

/// The alert state of a battery's charge in percent: critical below 20,
/// warning below 50, normal from there.
pub open spec fn charge_level_of(capacity: nat) -> Level {
    if capacity >= 50 {
        Level::Normal
    } else if capacity >= 20 {
        Level::Warning
    } else {
        Level::Critical
    }
}

/// Classifies a battery's charge in percent.
pub fn charge_level(capacity: u64) -> (level: Level)
    ensures
        level == charge_level_of(capacity as nat),
{
    if capacity >= 50 {
        Level::Normal
    } else if capacity >= 20 {
        Level::Warning
    } else {
        Level::Critical
    }
}

/// The alert state of a processor load in percent: normal below 5, critical
/// above 50, warning between.
pub open spec fn load_level_of(load: nat) -> Level {
    if load > 50 {
        Level::Critical
    } else if load < 5 {
        Level::Normal
    } else {
        Level::Warning
    }
}

/// Classifies a processor load in percent.
pub fn load_level(load: u64) -> (level: Level)
    ensures
        level == load_level_of(load as nat),
{
    if load > 50 {
        Level::Critical
    } else if load < 5 {
        Level::Normal
    } else {
        Level::Warning
    }
}

/// `body` in the colour `colour`.
pub open spec fn span_text(colour: Seq<char>, body: Seq<char>) -> Seq<char> {
    "<span foreground=\""@ + colour + "\">"@ + body + "</span>"@
}

/// `body` between grey brackets.
pub open spec fn framed_text(body: Seq<char>) -> Seq<char> {
    span_text("#808080"@, "["@) + body + span_text("#808080"@, "]"@)
}

/// A gauge that shows an icon and a figure in the colour of its state.
pub open spec fn figure_gauge_text(icon: Seq<char>, colour: Seq<char>, figure: Seq<char>) -> Seq<
    char,
> {
    framed_text(icon + span_text(colour, figure))
}

/// A gauge that shows an icon, what is used in the colour of its state, and
/// the total after a stroke.
pub open spec fn usage_gauge_text(
    icon: Seq<char>,
    colour: Seq<char>,
    used: Seq<char>,
    total: Seq<char>,
) -> Seq<char> {
    framed_text(icon + span_text(colour, used) + "/"@ + total)
}

/// Appends `body`, in the colour `colour`, to `out`.
fn push_span(out: &mut String, colour: &str, body: &str)
    ensures
        final(out)@ == old(out)@ + span_text(colour@, body@),
{
    out.append("<span foreground=\"");
    out.append(colour);
    out.append("\">");
    out.append(body);
    out.append("</span>");
    assert(final(out)@ == old(out)@ + span_text(colour@, body@));
}

/// Puts `body` between grey brackets.
fn framed(body: &str) -> (text: String)
    ensures
        text@ == framed_text(body@),
{
    let mut text = String::new();
    push_span(&mut text, "#808080", "[");
    text.append(body);
    push_span(&mut text, "#808080", "]");
    assert(text@ == framed_text(body@));
    text
}

/// Renders a gauge of an icon and a coloured figure.
pub fn figure_gauge(icon: &str, colour: &str, figure: &str) -> (text: String)
    ensures
        text@ == figure_gauge_text(icon@, colour@, figure@),
{
    let mut body = String::from_str(icon);
    push_span(&mut body, colour, figure);
    framed(body.as_str())
}

/// Renders a gauge of an icon, a coloured used figure and a total.
pub fn usage_gauge(icon: &str, colour: &str, used: &str, total: &str) -> (text: String)
    ensures
        text@ == usage_gauge_text(icon@, colour@, used@, total@),
{
    let mut body = String::from_str(icon);
    push_span(&mut body, colour, used);
    body.append("/");
    body.append(total);
    framed(body.as_str())
}

/// The icon of a battery: a plug while it charges, a cell otherwise.
pub open spec fn battery_icon_of(status: ChargeStatus) -> Seq<char> {
    if status == ChargeStatus::Charging {
        "\u{1f50c}"@
    } else {
        "\u{1f50b}"@
    }
}

/// The coloured rendering of a battery reading: the icon of its status and
/// the charge in percent, in the colour of the charge's state.
pub open spec fn battery_markup_text(info: BatteryInfo, palette: Palette) -> Seq<char> {
    figure_gauge_text(
        battery_icon_of(info.status),
        palette.colour_of(charge_level_of(info.capacity as nat)),
        decimal(info.capacity as nat) + "%"@,
    )
}

/// Renders a battery reading in colour.
pub fn battery_markup(info: &BatteryInfo, palette: &Palette) -> (text: String)
    ensures
        text@ == battery_markup_text(*info, *palette),
{
    let icon = match info.status {
        ChargeStatus::Charging => "\u{1f50c}",
        _ => "\u{1f50b}",
    };
    let mut figure = String::new();
    push_decimal(&mut figure, info.capacity as u128);
    figure.append("%");
    assert(figure@ == decimal(info.capacity as nat) + "%"@);
    figure_gauge(icon, palette.colour(charge_level(info.capacity)), figure.as_str())
}

/// The coloured rendering of a processor load in percent.
pub open spec fn load_markup_text(load: u64, palette: Palette) -> Seq<char> {
    figure_gauge_text(
        "\u{26a1}"@,
        palette.colour_of(load_level_of(load as nat)),
        decimal(load as nat) + "%"@,
    )
}

/// Renders a processor load in colour.
pub fn load_markup(load: u64, palette: &Palette) -> (text: String)
    ensures
        text@ == load_markup_text(load, *palette),
{
    let mut figure = String::new();
    push_decimal(&mut figure, load as u128);
    figure.append("%");
    assert(figure@ == decimal(load as nat) + "%"@);
    figure_gauge("\u{26a1}", palette.colour(load_level(load)), figure.as_str())
}

/// The coloured rendering of a memory sample: a gauge for main memory, a
/// space, and a gauge for swap. Each shows what is used in gigabytes, in the
/// colour of its state, over the total.
pub open spec fn memory_markup_text(sample: MemorySample, palette: Palette) -> Seq<char> {
    usage_gauge_text(
        "\u{1f9e0} "@,
        palette.colour_of(Level::of(sample.used as nat, sample.total as nat)),
        gigabyte_figure_text(sample.used, GIGABYTE_PLACES),
        gigabyte_unit_text(sample.total, GIGABYTE_PLACES),
    ) + " "@ + usage_gauge_text(
        "\u{1f4be} "@,
        palette.colour_of(Level::of(sample.used_swap as nat, sample.total_swap as nat)),
        gigabyte_figure_text(sample.used_swap, GIGABYTE_PLACES),
        gigabyte_unit_text(sample.total_swap, GIGABYTE_PLACES),
    )
}

/// Renders a memory sample in colour.
pub fn memory_markup(sample: &MemorySample, palette: &Palette) -> (text: String)
    ensures
        text@ == memory_markup_text(*sample, *palette),
{
    let used = gigabyte_figure(sample.used, GIGABYTE_PLACES);
    let total = gigabyte_unit(sample.total, GIGABYTE_PLACES);
    let mut text = usage_gauge(
        "\u{1f9e0} ",
        palette.colour(classify(sample.used, sample.total)),
        used.as_str(),
        total.as_str(),
    );
    let used_swap = gigabyte_figure(sample.used_swap, GIGABYTE_PLACES);
    let total_swap = gigabyte_unit(sample.total_swap, GIGABYTE_PLACES);
    let swap = usage_gauge(
        "\u{1f4be} ",
        palette.colour(classify(sample.used_swap, sample.total_swap)),
        used_swap.as_str(),
        total_swap.as_str(),
    );
    text.append(" ");
    text.append(swap.as_str());
    text
}

} // verus!
