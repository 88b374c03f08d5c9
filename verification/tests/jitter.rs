use pvp_macro::jittered_micros;
use pvp_macro::MacroService;
use pvp_macro::Settings;

#[test]
fn jittered_exact_values() {
    // A zero draw keeps the base exactly.
    assert_eq!(jittered_micros(100_000, 0), 100_000);
    assert_eq!(jittered_micros(66_666, 0), 66_666);
    // Extreme draws stretch by the factor, rounded to nearest.
    assert_eq!(jittered_micros(100_000, 200), 120_000);
    assert_eq!(jittered_micros(100_000, -200), 80_000);
    assert_eq!(jittered_micros(100, 999), 200); // 199.9 rounds up
    assert_eq!(jittered_micros(100, -999), 0); // 0.1 rounds down
    assert_eq!(jittered_micros(3, 167), 4); // 3.501 rounds up
    assert_eq!(jittered_micros(3, 166), 3); // 3.498 rounds down
    assert_eq!(jittered_micros(0, 999), 0);
}

#[test]
fn sampled_sleeps_stay_within_jitter_bounds() {
    let mut s = MacroService::new();
    s.init().unwrap();
    s.load_settings(Settings {
        sleep_micros: [100_000, 100_000],
        count: [1_000_000, 1_000_000],
        jitter_permille: 200,
    });
    s.start().unwrap();
    let mut seen_low = false;
    let mut seen_high = false;
    for _ in 0..2_000 {
        let d = s.begin_repeat().unwrap();
        assert!(
            (80_000..=120_000).contains(&d),
            "sampled duration {} outside [80000, 120000]",
            d
        );
        if d < 90_000 {
            seen_low = true;
        }
        if d > 110_000 {
            seen_high = true;
        }
        s.on_timeout();
    }
    // The draw really varies over the range; a constant (or echoed-back)
    // draw would never show both tails.
    assert!(seen_low && seen_high);
}

#[test]
fn zero_jitter_sleeps_are_exact() {
    let mut s = MacroService::new();
    s.init().unwrap();
    s.load_settings(Settings {
        sleep_micros: [66_666, 50_000],
        count: [1_000_000, 1],
        jitter_permille: 0,
    });
    s.start().unwrap();
    for _ in 0..100 {
        assert_eq!(s.begin_repeat(), Some(66_666));
        s.on_timeout();
    }
}
