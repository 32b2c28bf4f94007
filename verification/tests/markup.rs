use byte_unit::{Byte, Unit};
use status_bar::battery::{BatteryInfo, ChargeStatus, TimeTillEmpty};
use status_bar::markup::{
    battery_markup, charge_level, figure_gauge, load_level, load_markup, memory_markup,
    usage_gauge, Palette,
};
use status_bar::memory::{Level, MemorySample};

fn traffic_lights() -> Palette {
    Palette {
        normal: "#00FF00".to_string(),
        warning: "#FFFF00".to_string(),
        critical: "#FF0000".to_string(),
    }
}

fn white_to_red() -> Palette {
    Palette {
        normal: "#FFFFFF".to_string(),
        warning: "#FFFF00".to_string(),
        critical: "#FF0000".to_string(),
    }
}

fn info(status: ChargeStatus, capacity: u64) -> BatteryInfo {
    BatteryInfo { status, capacity, time_till_empty: TimeTillEmpty::Unknown }
}

#[test]
fn palette_gives_the_colour_of_each_state() {
    let palette = white_to_red();
    assert_eq!(palette.colour(Level::Normal), "#FFFFFF");
    assert_eq!(palette.colour(Level::Warning), "#FFFF00");
    assert_eq!(palette.colour(Level::Critical), "#FF0000");
}

#[test]
fn charge_states() {
    assert_eq!(charge_level(0), Level::Critical);
    assert_eq!(charge_level(19), Level::Critical);
    assert_eq!(charge_level(20), Level::Warning);
    assert_eq!(charge_level(49), Level::Warning);
    assert_eq!(charge_level(50), Level::Normal);
    assert_eq!(charge_level(100), Level::Normal);
    assert_eq!(charge_level(u64::MAX), Level::Normal);
}

#[test]
fn load_states() {
    assert_eq!(load_level(0), Level::Normal);
    assert_eq!(load_level(4), Level::Normal);
    assert_eq!(load_level(5), Level::Warning);
    assert_eq!(load_level(50), Level::Warning);
    assert_eq!(load_level(51), Level::Critical);
    assert_eq!(load_level(100), Level::Critical);
}

#[test]
fn gauges_are_framed_in_grey() {
    assert_eq!(
        figure_gauge("i", "#123456", "7"),
        "<span foreground=\"#808080\">[</span>i<span foreground=\"#123456\">7</span><span foreground=\"#808080\">]</span>"
    );
    assert_eq!(
        usage_gauge("i ", "#123456", "1", "2"),
        "<span foreground=\"#808080\">[</span>i <span foreground=\"#123456\">1</span>/2<span foreground=\"#808080\">]</span>"
    );
}

#[test]
fn battery_in_colour() {
    let palette = traffic_lights();
    assert_eq!(
        battery_markup(&info(ChargeStatus::Discharging, 73), &palette),
        "<span foreground=\"#808080\">[</span>🔋<span foreground=\"#00FF00\">73%</span><span foreground=\"#808080\">]</span>"
    );
    assert_eq!(
        battery_markup(&info(ChargeStatus::Charging, 20), &palette),
        "<span foreground=\"#808080\">[</span>🔌<span foreground=\"#FFFF00\">20%</span><span foreground=\"#808080\">]</span>"
    );
    assert_eq!(
        battery_markup(&info(ChargeStatus::Full, 100), &palette),
        "<span foreground=\"#808080\">[</span>🔋<span foreground=\"#00FF00\">100%</span><span foreground=\"#808080\">]</span>"
    );
    assert_eq!(
        battery_markup(&info(ChargeStatus::Unknown, 5), &palette),
        "<span foreground=\"#808080\">[</span>🔋<span foreground=\"#FF0000\">5%</span><span foreground=\"#808080\">]</span>"
    );
}

#[test]
fn battery_in_colour_for_every_status_and_charge() {
    let palette = traffic_lights();
    for status in [
        ChargeStatus::Unknown,
        ChargeStatus::Charging,
        ChargeStatus::Discharging,
        ChargeStatus::NotCharging,
        ChargeStatus::Full,
    ] {
        for charge in [0u64, 19, 20, 49, 50, 100, 250] {
            let colour = match charge {
                50.. => "#00FF00",
                20..50 => "#FFFF00",
                _ => "#FF0000",
            };
            let emoji = match status {
                ChargeStatus::Charging => "🔌",
                _ => "🔋",
            };
            let expected = format!(
                "<span foreground=\"#808080\">[</span>{emoji}<span foreground=\"{colour}\">{charge}%</span><span foreground=\"#808080\">]</span>"
            );
            assert_eq!(battery_markup(&info(status, charge), &palette), expected);
        }
    }
}

#[test]
fn load_in_colour() {
    let palette = traffic_lights();
    for load in [0u64, 4, 5, 37, 50, 51, 100] {
        let mut color = "#FFFF00";
        if load < 5 {
            color = "#00FF00";
        }
        if load > 50 {
            color = "#FF0000";
        }
        let expected = format!(
            "<span foreground=\"#808080\">[</span>⚡<span foreground=\"{color}\">{load}%</span><span foreground=\"#808080\">]</span>"
        );
        assert_eq!(load_markup(load, &palette), expected);
    }
}

#[test]
fn memory_in_colour() {
    let sample = MemorySample {
        used: 4 << 30,
        total: 16 << 30,
        used_swap: 0,
        total_swap: 2 << 30,
    };
    assert_eq!(
        memory_markup(&sample, &white_to_red()),
        "<span foreground=\"#808080\">[</span>🧠 <span foreground=\"#FFFFFF\">4.3</span>/17.2 GB<span foreground=\"#808080\">]</span> <span foreground=\"#808080\">[</span>💾 <span foreground=\"#FFFFFF\">0.0</span>/2.1 GB<span foreground=\"#808080\">]</span>"
    );
}

#[test]
fn memory_in_colour_by_state() {
    let sample = MemorySample {
        used: 13_000_000_000,
        total: 16_000_000_000,
        used_swap: 1_500_000_000,
        total_swap: 2_000_000_000,
    };
    assert_eq!(
        memory_markup(&sample, &white_to_red()),
        "<span foreground=\"#808080\">[</span>🧠 <span foreground=\"#FF0000\">13.0</span>/16.0 GB<span foreground=\"#808080\">]</span> <span foreground=\"#808080\">[</span>💾 <span foreground=\"#FFFF00\">1.5</span>/2.0 GB<span foreground=\"#808080\">]</span>"
    );
}

#[test]
fn memory_figures_are_those_of_the_unit_crate() {
    let palette = white_to_red();
    let samples = [
        MemorySample { used: 0, total: 0, used_swap: 0, total_swap: 0 },
        MemorySample {
            used: 3_141_592_653,
            total: 16_623_546_368,
            used_swap: 123_456_789,
            total_swap: 8_589_930_496,
        },
        MemorySample { used: u64::MAX, total: u64::MAX, used_swap: 49_999_999, total_swap: 1 },
        MemorySample { used: 5, total: 10, used_swap: 79, total_swap: 100 },
    ];
    for sample in samples {
        let colour = |used: u64, total: u64| {
            if 5 * (used as u128) >= 4 * (total as u128) {
                "#FF0000"
            } else if 2 * (used as u128) >= total as u128 {
                "#FFFF00"
            } else {
                "#FFFFFF"
            }
        };
        let figure = |bytes: u64| Byte::from_u64(bytes).get_adjusted_unit(Unit::GB).get_value();
        let whole = |bytes: u64| Byte::from_u64(bytes).get_adjusted_unit(Unit::GB);
        let expected = format!(
            "<span foreground=\"#808080\">[</span>🧠 <span foreground=\"{}\">{:.1}</span>/{:.1}<span foreground=\"#808080\">]</span> <span foreground=\"#808080\">[</span>💾 <span foreground=\"{}\">{:.1}</span>/{:.1}<span foreground=\"#808080\">]</span>",
            colour(sample.used, sample.total),
            figure(sample.used),
            whole(sample.total),
            colour(sample.used_swap, sample.total_swap),
            figure(sample.used_swap),
            whole(sample.total_swap)
        );
        assert_eq!(memory_markup(&sample, &palette), expected);
    }
}
