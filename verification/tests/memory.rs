use byte_unit::{Byte, UnitType};
use status_bar::fragment::Text;
use status_bar::memory::{classify, default_format, Level, MemorySample, MemoryUsage};

const GIB: u64 = 1 << 30;

type Hook = fn((u64, u64), (u64, u64)) -> String;

fn severity(level: Level) -> u8 {
    match level {
        Level::Normal => 0,
        Level::Warning => 1,
        Level::Critical => 2,
    }
}

#[test]
fn quarter_used_memory_and_unused_swap_are_normal() {
    assert_eq!(classify(4 * GIB, 16 * GIB), Level::Normal);
    assert_eq!(classify(0, 2 * GIB), Level::Normal);
}

#[test]
fn thirteen_of_sixteen_is_critical() {
    assert_eq!(classify(13 * GIB, 16 * GIB), Level::Critical);
}

#[test]
fn thresholds_are_half_and_four_fifths() {
    assert_eq!(classify(49, 100), Level::Normal);
    assert_eq!(classify(50, 100), Level::Warning);
    assert_eq!(classify(79, 100), Level::Warning);
    assert_eq!(classify(80, 100), Level::Critical);
    assert_eq!(classify(100, 100), Level::Critical);
    assert_eq!(classify(200, 100), Level::Critical);
    assert_eq!(classify(1, 3), Level::Normal);
    assert_eq!(classify(2, 3), Level::Warning);
    assert_eq!(classify(3, 4), Level::Warning);
    assert_eq!(classify(4, 5), Level::Critical);
    assert_eq!(classify(7, 9), Level::Warning);
    assert_eq!(classify(8, 9), Level::Critical);
}

#[test]
fn classification_at_the_ends_of_the_range() {
    assert_eq!(classify(0, 0), Level::Critical);
    assert_eq!(classify(0, 1), Level::Normal);
    assert_eq!(classify(0, u64::MAX), Level::Normal);
    assert_eq!(classify(u64::MAX, u64::MAX), Level::Critical);
    assert_eq!(classify(u64::MAX / 2, u64::MAX), Level::Normal);
    assert_eq!(classify(u64::MAX / 2 + 1, u64::MAX), Level::Warning);
    assert_eq!(classify(u64::MAX / 5 * 4, u64::MAX), Level::Critical);
    assert_eq!(classify(u64::MAX / 5 * 4 - 1, u64::MAX), Level::Warning);
}

#[test]
fn more_use_is_never_calmer() {
    for total in [0u64, 1, 2, 3, 4, 5, 7, 10, 99, 100, 101, 1000] {
        let mut last = severity(classify(0, total));
        for used in 1..=(total + 3) {
            let now = severity(classify(used, total));
            assert!(last <= now, "{used}/{total}");
            last = now;
        }
    }
}

#[test]
fn default_text_of_a_sample() {
    let widget = MemoryUsage::<u8, Hook>::new(3, None);
    let batch = widget.tick(MemorySample {
        used: 4 * GIB,
        total: 16 * GIB,
        used_swap: 0,
        total_swap: 2 * GIB,
    });
    assert_eq!(
        batch,
        vec![Text {
            attr: 3,
            text: "(4 GiB/16 GiB) (0 B/2 GiB)".to_string(),
            stretch: false,
            markup: false,
        }]
    );
}

#[test]
fn default_text_uses_the_largest_binary_unit() {
    let widget = MemoryUsage::<(), Hook>::new((), None);
    let batch = widget.tick(MemorySample {
        used: 10_000,
        total: 1023,
        used_swap: 1536 * 1024,
        total_swap: u64::MAX,
    });
    assert_eq!(batch[0].text, "(9.765625 KiB/1023 B) (1.5 MiB/16 EiB)");
}

#[test]
fn default_text_is_what_the_unit_crate_displays() {
    let widget = MemoryUsage::<(), Hook>::new((), None);
    let samples = [
        MemorySample { used: 0, total: 0, used_swap: 0, total_swap: 0 },
        MemorySample { used: 1, total: 1024, used_swap: 1025, total_swap: 1 << 20 },
        MemorySample {
            used: 3_141_592_653,
            total: 16_623_546_368,
            used_swap: 123_456_789,
            total_swap: 8_589_930_496,
        },
        MemorySample {
            used: u64::MAX,
            total: u64::MAX - 1,
            used_swap: 1 << 50,
            total_swap: (1 << 60) + 1,
        },
    ];
    for sample in samples {
        let show = |bytes: u64| Byte::from_u64(bytes).get_appropriate_unit(UnitType::Binary);
        let expected = format!(
            "({}/{}) ({}/{})",
            show(sample.used),
            show(sample.total),
            show(sample.used_swap),
            show(sample.total_swap)
        );
        let batch = widget.tick(sample);
        assert_eq!(batch.len(), 1);
        assert_eq!(batch[0].text, expected);
        assert!(!batch[0].markup);
        assert!(!batch[0].text.contains(['<', '>', '&', '\'', '"']));
    }
}

#[test]
fn default_format_joins_four_figures() {
    assert_eq!(default_format("a", "b", "c", "d"), "(a/b) (c/d)");
    assert_eq!(default_format("", "", "", ""), "(/) (/)");
    assert_eq!(default_format("1 B", "2 KiB", "3 MiB", "4 GiB"), "(1 B/2 KiB) (3 MiB/4 GiB)");
}

#[test]
fn hook_gets_memory_and_swap_and_makes_markup() {
    let widget = MemoryUsage::new(
        'x',
        Some(|memory: (u64, u64), swap: (u64, u64)| format!("{memory:?} {swap:?}")),
    );
    let batch = widget.tick(MemorySample { used: 1, total: 2, used_swap: 3, total_swap: 4 });
    assert_eq!(
        batch,
        vec![Text {
            attr: 'x',
            text: "(1, 2) (3, 4)".to_string(),
            stretch: false,
            markup: true,
        }]
    );
}

#[test]
fn memory_is_polled_every_second() {
    let widget = MemoryUsage::<(), Hook>::new((), None);
    assert_eq!(widget.update_interval().as_nanos(), 1_000_000_000);
    assert_eq!(widget.schedule().ticks(), 0);
}
