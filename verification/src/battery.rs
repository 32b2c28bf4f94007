//! The battery widget: reading the files of a power-supply directory and
//! rendering what they say.

use crate::chars::{
    decimal, is_plain, lemma_decimal_plain, lemma_plain_concat, parse_number, parse_unsigned,
    push_decimal, spells, trimmed, trimmed_chars, ParseError,
};
use crate::fragment::Text;
use crate::schedule::{Interval, Schedule};
use vstd::prelude::*;

verus! {

pub const NANOS_PER_SECOND: u128 = 1_000_000_000;

pub const NANOS_PER_HOUR: u128 = 3_600_000_000_000;

/// Battery statuses as the kernel's power-supply class writes them.
#[derive(Clone, Copy, Debug, PartialEq, Eq, Structural)]
pub enum ChargeStatus {
    Unknown,
    Charging,
    Discharging,
    NotCharging,
    Full,
}

impl ChargeStatus {
    /// The status that `word` names: one of the four words the kernel writes,
    /// letter for letter, and `Unknown` for anything else.
    pub open spec fn of(word: Seq<char>) -> ChargeStatus {
        if word == "Charging"@ {
            ChargeStatus::Charging
        } else if word == "Discharging"@ {
            ChargeStatus::Discharging
        } else if word == "Full"@ {
            ChargeStatus::Full
        } else if word == "Not Charging"@ {
            ChargeStatus::NotCharging
        } else {
            ChargeStatus::Unknown
        }
    }

    /// Reads the status from the content of the `status` file. Whitespace
    /// around the word does not count; case does.
    pub fn from_text(text: &str) -> (status: ChargeStatus)
        ensures
            status == ChargeStatus::of(trimmed(text@)),
    {
        let word = trimmed_chars(text);
        if spells(&word, "Charging") {
            ChargeStatus::Charging
        } else if spells(&word, "Discharging") {
            ChargeStatus::Discharging
        } else if spells(&word, "Full") {
            ChargeStatus::Full
        } else if spells(&word, "Not Charging") {
            ChargeStatus::NotCharging
        } else {
            ChargeStatus::Unknown
        }
    }

    /// The name of the status as it is displayed.
    pub open spec fn label_of(self) -> Seq<char> {
        match self {
            ChargeStatus::Unknown => "Unknown"@,
            ChargeStatus::Charging => "Charging"@,
            ChargeStatus::Discharging => "Discharging"@,
            ChargeStatus::NotCharging => "NotCharging"@,
            ChargeStatus::Full => "Full"@,
        }
    }

    /// The name of the status as it is displayed.
    pub fn label(self) -> (name: &'static str)
        ensures
            name@ == self.label_of(),
    {
        match self {
            ChargeStatus::Unknown => "Unknown",
            ChargeStatus::Charging => "Charging",
            ChargeStatus::Discharging => "Discharging",
            ChargeStatus::NotCharging => "NotCharging",
            ChargeStatus::Full => "Full",
        }
    }
}

/// Each status other than `Unknown` is named by exactly one word, and every
/// other word names `Unknown`.
pub proof fn lemma_status_mapping(word: Seq<char>)
    ensures
        ChargeStatus::of(word) == ChargeStatus::Charging <==> word == "Charging"@,
        ChargeStatus::of(word) == ChargeStatus::Discharging <==> word == "Discharging"@,
        ChargeStatus::of(word) == ChargeStatus::Full <==> word == "Full"@,
        ChargeStatus::of(word) == ChargeStatus::NotCharging <==> word == "Not Charging"@,
        ChargeStatus::of(word) == ChargeStatus::Unknown <==> word != "Charging"@ && word
            != "Discharging"@ && word != "Full"@ && word != "Not Charging"@,
{
    reveal_strlit("Charging");
    reveal_strlit("Discharging");
    reveal_strlit("Full");
    reveal_strlit("Not Charging");
    assert("Charging"@.len() == 8);
    assert("Discharging"@.len() == 11);
    assert("Full"@.len() == 4);
    assert("Not Charging"@.len() == 12);
}

/// How long the battery lasts at the present draw.
#[derive(Clone, Copy, Debug, PartialEq, Eq, Structural)]
pub enum TimeTillEmpty {
    /// Nothing is drawn at the moment, so no estimate can be made.
    Unknown,
    /// The estimate, in whole nanoseconds.
    Known { nanos: u128 },
}

impl TimeTillEmpty {
    /// The estimate for a charge in micro-ampere-hours and a draw in
    /// micro-amperes: their quotient in hours, cut to whole nanoseconds.
    pub open spec fn of(charge: nat, current: nat) -> TimeTillEmpty {
        if current == 0 {
            TimeTillEmpty::Unknown
        } else {
            TimeTillEmpty::Known { nanos: (NANOS_PER_HOUR * charge / (current as int)) as u128 }
        }
    }

    /// Estimates the time left from the remaining charge, in
    /// micro-ampere-hours, and the present draw, in micro-amperes.
    pub fn estimate(charge: u64, current: u64) -> (t: TimeTillEmpty)
        ensures
            t == TimeTillEmpty::of(charge as nat, current as nat),
            current == 0 <==> t == TimeTillEmpty::Unknown,
    {
        if current == 0 {
            TimeTillEmpty::Unknown
        } else {
            TimeTillEmpty::Known { nanos: NANOS_PER_HOUR * (charge as u128) / (current as u128) }
        }
    }

    /// The whole seconds of the estimate, if there is one.
    pub fn whole_seconds(&self) -> (secs: Option<u128>)
        ensures
            secs == match *self {
                TimeTillEmpty::Unknown => None::<u128>,
                TimeTillEmpty::Known { nanos } => Some(nanos / NANOS_PER_SECOND),
            },
    {
        match *self {
            TimeTillEmpty::Unknown => None,
            TimeTillEmpty::Known { nanos } => Some(nanos / NANOS_PER_SECOND),
        }
    }
}

/// With a positive draw the estimate is the charge divided by the draw, taken
/// in hours: it is exact to the nanosecond, and its whole seconds are those of
/// `3600 * charge / current`.
pub proof fn lemma_estimate_exact(charge: u64, current: u64)
    requires
        current > 0,
    ensures
        TimeTillEmpty::of(charge as nat, current as nat) matches TimeTillEmpty::Known { nanos }
            && nanos * current <= NANOS_PER_HOUR * charge < (nanos + 1) * current && nanos
            / NANOS_PER_SECOND == 3600 * charge / (current as int),
{
    let x: int = NANOS_PER_HOUR * charge;
    let c: int = current as int;
    let q: int = x / c;
    assert(0 <= q <= x && q * c <= x < (q + 1) * c) by (nonlinear_arith)
        requires
            q == x / c,
            c > 0,
            x >= 0,
    ;
    vstd::arithmetic::div_mod::lemma_div_denominator(x, c, NANOS_PER_SECOND as int);
    vstd::arithmetic::div_mod::lemma_div_multiples_vanish_quotient(
        NANOS_PER_SECOND as int,
        3600 * charge,
        c,
    );
    assert(x == NANOS_PER_SECOND * (3600 * charge));
    assert(c * NANOS_PER_SECOND == NANOS_PER_SECOND * c);
}

/// `amount` in units of `unit`, rounded to the nearest whole number; a half
/// goes to the even neighbour.
pub open spec fn rounded(amount: nat, unit: nat) -> nat {
    let whole = amount / unit;
    let rest = amount % unit;
    if 2 * rest > unit || (2 * rest == unit && whole % 2 == 1) {
        whole + 1
    } else {
        whole
    }
}

/// A time span as a whole number of the largest unit that it fills: seconds,
/// milliseconds, microseconds or nanoseconds.
pub open spec fn span_text(nanos: nat) -> Seq<char> {
    if nanos >= 1_000_000_000 {
        decimal(rounded(nanos, 1_000_000_000)) + "s"@
    } else if nanos >= 1_000_000 {
        decimal(rounded(nanos, 1_000_000)) + "ms"@
    } else if nanos >= 1_000 {
        decimal(rounded(nanos, 1_000)) + "\u{b5}s"@
    } else {
        decimal(nanos) + "ns"@
    }
}

impl TimeTillEmpty {
    /// The estimate as it is displayed.
    pub open spec fn text_of(self) -> Seq<char> {
        match self {
            TimeTillEmpty::Unknown => "unknown"@,
            TimeTillEmpty::Known { nanos } => span_text(nanos as nat),
        }
    }

    /// Appends the estimate, as it is displayed, to `out`.
    pub fn push_text(&self, out: &mut String)
        ensures
            final(out)@ == old(out)@ + self.text_of(),
    {
        match *self {
            TimeTillEmpty::Unknown => {
                out.append("unknown");
            },
            TimeTillEmpty::Known { nanos } => {
                if nanos >= 1_000_000_000 {
                    push_decimal(out, round(nanos, 1_000_000_000));
                    out.append("s");
                } else if nanos >= 1_000_000 {
                    push_decimal(out, round(nanos, 1_000_000));
                    out.append("ms");
                } else if nanos >= 1_000 {
                    push_decimal(out, round(nanos, 1_000));
                    out.append("\u{b5}s");
                } else {
                    push_decimal(out, nanos);
                    out.append("ns");
                }
                assert(final(out)@ == old(out)@ + span_text(nanos as nat));
            },
        }
    }
}

fn round(amount: u128, unit: u128) -> (r: u128)
    requires
        2 <= unit <= 1_000_000_000,
    ensures
        r == rounded(amount as nat, unit as nat),
{
    let whole = amount / unit;
    let rest = amount % unit;
    assert(2 * whole <= amount) by (nonlinear_arith)
        requires
            whole == amount / unit,
            unit >= 2,
    ;
    if 2 * rest > unit || (2 * rest == unit && whole % 2 == 1) {
        whole + 1
    } else {
        whole
    }
}

/// A reading of the battery.
#[derive(Clone, Copy, Debug, PartialEq, Eq, Structural)]
pub struct BatteryInfo {
    pub status: ChargeStatus,
    /// The charge in percent of a full battery, as the kernel reports it.
    pub capacity: u64,
    pub time_till_empty: TimeTillEmpty,
}

/// The text shown for a reading when no render hook is set: status, capacity
/// and time left.
pub open spec fn default_text(info: BatteryInfo) -> Seq<char> {
    info.status.label_of() + " : "@ + decimal(info.capacity as nat) + "%, : "@
        + info.time_till_empty.text_of()
}

/// Renders a reading as plain text.
pub fn default_format(info: &BatteryInfo) -> (text: String)
    ensures
        text@ == default_text(*info),
{
    let mut text = String::from_str(info.status.label());
    text.append(" : ");
    push_decimal(&mut text, info.capacity as u128);
    text.append("%, : ");
    info.time_till_empty.push_text(&mut text);
    text
}

/// The default rendering holds no character that inline markup reserves.
pub proof fn lemma_default_text_plain(info: BatteryInfo)
    ensures
        is_plain(default_text(info)),
{
    let label = info.status.label_of();
    let number = decimal(info.capacity as nat);
    let time = info.time_till_empty.text_of();
    assert(is_plain(label)) by {
        reveal_strlit("Unknown");
        reveal_strlit("Charging");
        reveal_strlit("Discharging");
        reveal_strlit("NotCharging");
        reveal_strlit("Full");
    }
    assert(is_plain(" : "@)) by {
        reveal_strlit(" : ");
    }
    assert(is_plain("%, : "@)) by {
        reveal_strlit("%, : ");
    }
    lemma_decimal_plain(info.capacity as nat);
    lemma_time_text_plain(info.time_till_empty);
    lemma_plain_concat(label, " : "@);
    lemma_plain_concat(label + " : "@, number);
    lemma_plain_concat(label + " : "@ + number, "%, : "@);
    lemma_plain_concat(label + " : "@ + number + "%, : "@, time);
}

proof fn lemma_time_text_plain(time: TimeTillEmpty)
    ensures
        is_plain(time.text_of()),
{
    match time {
        TimeTillEmpty::Unknown => {
            reveal_strlit("unknown");
        },
        TimeTillEmpty::Known { nanos } => {
            let n = nanos as nat;
            reveal_strlit("s");
            reveal_strlit("ms");
            reveal_strlit("\u{b5}s");
            reveal_strlit("ns");
            lemma_decimal_plain(n);
            lemma_decimal_plain(rounded(n, 1_000_000_000));
            lemma_decimal_plain(rounded(n, 1_000_000));
            lemma_decimal_plain(rounded(n, 1_000));
            lemma_plain_concat(decimal(n), "ns"@);
            lemma_plain_concat(decimal(rounded(n, 1_000_000_000)), "s"@);
            lemma_plain_concat(decimal(rounded(n, 1_000_000)), "ms"@);
            lemma_plain_concat(decimal(rounded(n, 1_000)), "\u{b5}s"@);
        },
    }
}

/// The files of a power-supply directory that the widget reads.
#[derive(Clone, Copy, Debug, PartialEq, Eq, Structural)]
pub enum Field {
    /// The present draw, in micro-amperes.
    CurrentNow,
    /// The remaining charge, in micro-ampere-hours.
    ChargeNow,
    /// The charge in percent of a full battery.
    Capacity,
    /// The charging status, as a word.
    Status,
}

impl Field {
    /// The name of the file within the power-supply directory.
    pub open spec fn file_name_of(self) -> Seq<char> {
        match self {
            Field::CurrentNow => "current_now"@,
            Field::ChargeNow => "charge_now"@,
            Field::Capacity => "capacity"@,
            Field::Status => "status"@,
        }
    }

    /// The name of the file within the power-supply directory.
    pub fn file_name(self) -> (name: &'static str)
        ensures
            name@ == self.file_name_of(),
    {
        match self {
            Field::CurrentNow => "current_now",
            Field::ChargeNow => "charge_now",
            Field::Capacity => "capacity",
            Field::Status => "status",
        }
    }
}

/// What the four files held at one tick. `None` stands for a file that could
/// not be read.
#[derive(Clone, Debug, PartialEq, Eq)]
pub struct Readings {
    pub current_now: Option<String>,
    pub charge_now: Option<String>,
    pub capacity: Option<String>,
    pub status: Option<String>,
}

/// Why a tick gives no reading.
#[derive(Clone, Copy, Debug, PartialEq, Eq, Structural)]
pub enum SampleError {
    /// The file could not be read.
    Unreadable(Field),
    /// The file does not hold a number.
    Malformed(Field, ParseError),
}

/// The number that a file holds.
pub open spec fn number_in(text: Option<String>) -> Result<u64, ParseError> {
    parse_unsigned(trimmed(text.unwrap()@))
}

/// The reading that the four files give.
///
/// A file that could not be read fails the tick, the first of them in the
/// order draw, charge, capacity, status; then so does the first of the three
/// numbers that is malformed. A status word that is not known does not.
pub open spec fn sample_of(r: Readings) -> Result<BatteryInfo, SampleError> {
    if r.current_now is None {
        Err(SampleError::Unreadable(Field::CurrentNow))
    } else if r.charge_now is None {
        Err(SampleError::Unreadable(Field::ChargeNow))
    } else if r.capacity is None {
        Err(SampleError::Unreadable(Field::Capacity))
    } else if r.status is None {
        Err(SampleError::Unreadable(Field::Status))
    } else {
        match number_in(r.current_now) {
            Err(e) => Err(SampleError::Malformed(Field::CurrentNow, e)),
            Ok(current) => match number_in(r.charge_now) {
                Err(e) => Err(SampleError::Malformed(Field::ChargeNow, e)),
                Ok(charge) => match number_in(r.capacity) {
                    Err(e) => Err(SampleError::Malformed(Field::Capacity, e)),
                    Ok(capacity) => Ok(
                        BatteryInfo {
                            status: ChargeStatus::of(trimmed(r.status.unwrap()@)),
                            capacity,
                            time_till_empty: TimeTillEmpty::of(charge as nat, current as nat),
                        },
                    ),
                },
            },
        }
    }
}

/// Interprets what the four files held.
pub fn sample(readings: &Readings) -> (r: Result<BatteryInfo, SampleError>)
    ensures
        r == sample_of(*readings),
{
    let current_text = match &readings.current_now {
        None => {
            return Err(SampleError::Unreadable(Field::CurrentNow));
        },
        Some(text) => text,
    };
    let charge_text = match &readings.charge_now {
        None => {
            return Err(SampleError::Unreadable(Field::ChargeNow));
        },
        Some(text) => text,
    };
    let capacity_text = match &readings.capacity {
        None => {
            return Err(SampleError::Unreadable(Field::Capacity));
        },
        Some(text) => text,
    };
    let status_text = match &readings.status {
        None => {
            return Err(SampleError::Unreadable(Field::Status));
        },
        Some(text) => text,
    };
    let current = match parse_number(current_text.as_str()) {
        Err(e) => {
            return Err(SampleError::Malformed(Field::CurrentNow, e));
        },
        Ok(n) => n,
    };
    let charge = match parse_number(charge_text.as_str()) {
        Err(e) => {
            return Err(SampleError::Malformed(Field::ChargeNow, e));
        },
        Ok(n) => n,
    };
    let capacity = match parse_number(capacity_text.as_str()) {
        Err(e) => {
            return Err(SampleError::Malformed(Field::Capacity, e));
        },
        Ok(n) => n,
    };
    Ok(
        BatteryInfo {
            status: ChargeStatus::from_text(status_text.as_str()),
            capacity,
            time_till_empty: TimeTillEmpty::estimate(charge, current),
        },
    )
}

/// The battery widget: a style, an optional render hook, a polling interval
/// and the directory that holds the battery's files.
pub struct Battery<A: Clone, F: Fn(BatteryInfo) -> String> {
    attrs: A,
    render: Option<F>,
    update_interval: Interval,
    battery_path: String,
}

impl<A: Clone, F: Fn(BatteryInfo) -> String> Battery<A, F> {
    #[verifier::type_invariant]
    spec fn hook_accepts_every_reading(self) -> bool {
        self.render matches Some(hook) ==> forall|info: BatteryInfo| hook.requires((info,))
    }

    /// The style that every piece of output carries.
    pub closed spec fn attrs(self) -> A {
        self.attrs
    }

    /// The render hook, if one was set.
    pub closed spec fn hook(self) -> Option<F> {
        self.render
    }

    /// The polling interval.
    pub closed spec fn interval(self) -> Interval {
        self.update_interval
    }

    /// The directory that holds the battery's files.
    pub closed spec fn path(self) -> Seq<char> {
        self.battery_path@
    }

    /// `piece` is what this widget shows for the reading `info`: the text of
    /// the hook where one is set, and then marked as markup whatever it holds;
    /// else the default text, not marked and free of reserved characters.
    pub open spec fn shows(self, info: BatteryInfo, piece: Text<A>) -> bool {
        &&& cloned(self.attrs(), piece.attr)
        &&& !piece.stretch
        &&& piece.markup == self.hook().is_some()
        &&& match self.hook() {
            Some(hook) => hook.ensures((info,), piece.text),
            None => piece.text@ == default_text(info) && is_plain(piece.text@),
        }
    }

    /// Creates the widget. The hook, if there is one, must take every reading.
    pub fn new(
        attrs: A,
        render: Option<F>,
        update_interval: Interval,
        battery_path: String,
    ) -> (battery: Self)
        requires
            render matches Some(hook) ==> forall|info: BatteryInfo| hook.requires((info,)),
        ensures
            battery.attrs() == attrs,
            battery.hook() == render,
            battery.interval() == update_interval,
            battery.path() == battery_path@,
    {
        Battery { attrs, render, update_interval, battery_path }
    }

    /// The directory that holds the battery's files.
    pub fn battery_path(&self) -> (path: &str)
        ensures
            path@ == self.path(),
    {
        self.battery_path.as_str()
    }

    /// The polling interval.
    pub fn update_interval(&self) -> (interval: Interval)
        ensures
            interval == self.interval(),
    {
        self.update_interval
    }

    /// The timetable of a stream of this widget, at its start.
    pub fn schedule(&self) -> (s: Schedule)
        ensures
            s.period() == self.interval().nanos(),
            s.fired() == 0,
            !s.stopped(),
    {
        Schedule::new(self.update_interval)
    }

    /// Renders one reading.
    pub fn render(&self, info: BatteryInfo) -> (piece: Text<A>)
        ensures
            self.shows(info, piece),
    {
        proof {
            use_type_invariant(self);
            lemma_default_text_plain(info);
        }
        let text = match &self.render {
            Some(hook) => hook(info),
            None => default_format(&info),
        };
        Text { attr: self.attrs.clone(), text, stretch: false, markup: self.render.is_some() }
    }

    /// One tick: interprets what the files held and renders it as a batch of
    /// one piece. A tick that gives no reading fails with the reason, and
    /// leaves the widget as it was.
    pub fn tick(&self, readings: &Readings) -> (r: Result<Vec<Text<A>>, SampleError>)
        ensures
            match sample_of(*readings) {
                Err(e) => r == Err::<Vec<Text<A>>, SampleError>(e),
                Ok(info) => r matches Ok(batch) && batch.len() == 1 && self.shows(info, batch[0]),
            },
    {
        match sample(readings) {
            Err(e) => Err(e),
            Ok(info) => {
                let mut batch: Vec<Text<A>> = Vec::new();
                batch.push(self.render(info));
                Ok(batch)
            },
        }
    }
}

} // verus!
