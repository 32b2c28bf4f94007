//! The memory widget: main memory and swap, each as a used and a total
//! number of bytes.

use crate::chars::{is_plain, lemma_plain_concat};
use crate::fragment::Text;
use crate::schedule::{Interval, Schedule};
use crate::units::{binary_unit, binary_unit_text};
use vstd::prelude::*;

verus! {

/// Alert state of a bounded quantity, ordered from calm to urgent.
#[derive(Clone, Copy, Debug, PartialEq, Eq, Structural)]
pub enum Level {
    Normal,
    Warning,
    Critical,
}

impl Level {
    /// Position of the state in the order `Normal < Warning < Critical`.
    pub open spec fn severity(self) -> nat {
        match self {
            Level::Normal => 0,
            Level::Warning => 1,
            Level::Critical => 2,
        }
    }

    /// The alert state of `used` out of `total`: critical from four fifths of
    /// the total upwards, warning from one half, normal below that.
    pub open spec fn of(used: nat, total: nat) -> Level {
        if 5 * used >= 4 * total {
            Level::Critical
        } else if 2 * used >= total {
            Level::Warning
        } else {
            Level::Normal
        }
    }
}

/// Classifies a usage figure against its total.
pub fn classify(used: u64, total: u64) -> (level: Level)
    ensures
        level == Level::of(used as nat, total as nat),
{
    let u: u128 = used as u128;
    let t: u128 = total as u128;
    if 5 * u >= 4 * t {
        Level::Critical
    } else if 2 * u >= t {
        Level::Warning
    } else {
        Level::Normal
    }
}

/// Against a fixed total, more use never gives a calmer state.
pub proof fn lemma_level_monotonic(used: nat, more: nat, total: nat)
    requires
        used <= more,
    ensures
        Level::of(used, total).severity() <= Level::of(more, total).severity(),
{
}

/// The four counters of one tick, in bytes.
#[derive(Clone, Copy, Debug, PartialEq, Eq, Structural)]
pub struct MemorySample {
    pub used: u64,
    pub total: u64,
    pub used_swap: u64,
    pub total_swap: u64,
}

/// The plain rendering of four figures: memory and swap, each as used over
/// total.
pub open spec fn default_text(
    used: Seq<char>,
    total: Seq<char>,
    used_swap: Seq<char>,
    total_swap: Seq<char>,
) -> Seq<char> {
    "("@ + used + "/"@ + total + ") ("@ + used_swap + "/"@ + total_swap + ")"@
}

/// Puts four figures together as plain text.
pub fn default_format(used: &str, total: &str, used_swap: &str, total_swap: &str) -> (text: String)
    ensures
        text@ == default_text(used@, total@, used_swap@, total_swap@),
{
    let mut text = String::from_str("(");
    text.append(used);
    text.append("/");
    text.append(total);
    text.append(") (");
    text.append(used_swap);
    text.append("/");
    text.append(total_swap);
    text.append(")");
    text
}

/// Figures that hold no character reserved by inline markup give a rendering
/// that holds none.
pub proof fn lemma_default_text_plain(
    used: Seq<char>,
    total: Seq<char>,
    used_swap: Seq<char>,
    total_swap: Seq<char>,
)
    requires
        is_plain(used),
        is_plain(total),
        is_plain(used_swap),
        is_plain(total_swap),
    ensures
        is_plain(default_text(used, total, used_swap, total_swap)),
{
    reveal_strlit("(");
    reveal_strlit("/");
    reveal_strlit(") (");
    reveal_strlit(")");
    let a = "("@ + used;
    lemma_plain_concat("("@, used);
    let b = a + "/"@;
    lemma_plain_concat(a, "/"@);
    let c = b + total;
    lemma_plain_concat(b, total);
    let d = c + ") ("@;
    lemma_plain_concat(c, ") ("@);
    let e = d + used_swap;
    lemma_plain_concat(d, used_swap);
    let f = e + "/"@;
    lemma_plain_concat(e, "/"@);
    let g = f + total_swap;
    lemma_plain_concat(f, total_swap);
    lemma_plain_concat(g, ")"@);
}

/// The text shown for a sample when no render hook is set: each figure in
/// the largest binary unit that it fills.
pub open spec fn default_text_of(sample: MemorySample) -> Seq<char> {
    default_text(
        binary_unit_text(sample.used),
        binary_unit_text(sample.total),
        binary_unit_text(sample.used_swap),
        binary_unit_text(sample.total_swap),
    )
}

/// The memory widget: a style, an optional render hook and a polling
/// interval of one second.
pub struct MemoryUsage<A: Clone, F: Fn((u64, u64), (u64, u64)) -> String> {
    attrs: A,
    render: Option<F>,
    update_interval: Interval,
}

impl<A: Clone, F: Fn((u64, u64), (u64, u64)) -> String> MemoryUsage<A, F> {
    #[verifier::type_invariant]
    spec fn hook_accepts_every_sample(self) -> bool {
        self.render matches Some(hook) ==> forall|memory: (u64, u64), swap: (u64, u64)|
            hook.requires((memory, swap))
    }

    /// The style that every piece of output carries.
    pub closed spec fn attrs(self) -> A {
        self.attrs
    }

    /// The render hook, if one was set.
    pub closed spec fn hook(self) -> Option<F> {
        self.render
    }

    /// The polling interval.
    pub closed spec fn interval(self) -> Interval {
        self.update_interval
    }

    /// `piece` is what this widget shows for `sample`: the text of the hook
    /// where one is set, called with the pair for memory and the pair for
    /// swap, and then marked as markup whatever it holds; else the default
    /// text, not marked and free of reserved characters.
    pub open spec fn shows(self, sample: MemorySample, piece: Text<A>) -> bool {
        &&& cloned(self.attrs(), piece.attr)
        &&& !piece.stretch
        &&& piece.markup == self.hook().is_some()
        &&& match self.hook() {
            Some(hook) => hook.ensures(
                ((sample.used, sample.total), (sample.used_swap, sample.total_swap)),
                piece.text,
            ),
            None => piece.text@ == default_text_of(sample) && is_plain(piece.text@),
        }
    }

    /// Creates the widget. The hook, if there is one, must take every sample.
    #[must_use]
    pub fn new(attrs: A, render: Option<F>) -> (widget: Self)
        requires
            render matches Some(hook) ==> forall|memory: (u64, u64), swap: (u64, u64)|
                hook.requires((memory, swap)),
        ensures
            widget.attrs() == attrs,
            widget.hook() == render,
            widget.interval().nanos() == 1_000_000_000,
    {
        let second = Interval::from_secs(1);
        MemoryUsage { attrs, render, update_interval: second.unwrap() }
    }

    /// The polling interval.
    pub fn update_interval(&self) -> (interval: Interval)
        ensures
            interval == self.interval(),
    {
        self.update_interval
    }

    /// The timetable of a stream of this widget, at its start.
    pub fn schedule(&self) -> (s: Schedule)
        ensures
            s.period() == self.interval().nanos(),
            s.fired() == 0,
            !s.stopped(),
    {
        Schedule::new(self.update_interval)
    }

    /// One tick: renders the counters as a batch of one piece.
    pub fn tick(&self, sample: MemorySample) -> (batch: Vec<Text<A>>)
        ensures
            batch.len() == 1,
            self.shows(sample, batch[0]),
    {
        proof {
            use_type_invariant(self);
        }
        let text = match &self.render {
            Some(hook) => hook((sample.used, sample.total), (sample.used_swap, sample.total_swap)),
            None => {
                let used = binary_unit(sample.used);
                let total = binary_unit(sample.total);
                let used_swap = binary_unit(sample.used_swap);
                let total_swap = binary_unit(sample.total_swap);
                proof {
                    lemma_default_text_plain(used@, total@, used_swap@, total_swap@);
                }
                default_format(
                    used.as_str(),
                    total.as_str(),
                    used_swap.as_str(),
                    total_swap.as_str(),
                )
            },
        };
        let mut batch: Vec<Text<A>> = Vec::new();
        batch.push(
            Text { attr: self.attrs.clone(), text, stretch: false, markup: self.render.is_some() },
        );
        batch
    }
}

} // verus!
