use blair_png::config::{LoggingConfig, OptimizationConfig};
use blair_png::outcome::{outcome_is_logged, process_outcome, Attempt};
use blair_png::present::{
    config_summary, describe_outcome, format_file_size, format_report, format_time, size_change,
    size_unit, time_unit, ReportFigures, SizeChange, SizeUnit, TimeUnit,
};
use blair_png::report::summarize;
use blair_png::text::push_decimal;

const SECOND: u128 = 1_000_000_000;

fn shown_size(bytes: u128) -> String {
    let scaled = format!("{:.1}", bytes as f64 / size_unit(bytes).bytes() as f64);
    format_file_size(bytes, &scaled)
}

fn shown_time(seconds: f64) -> String {
    let nanos = (seconds * 1e9) as u128;
    let scaled = format!("{:.1}", seconds / time_unit(nanos).seconds() as f64);
    format_time(nanos, &scaled)
}

fn shown_percent(original: u128, new: u128) -> String {
    let change = size_change(original, new);
    let signed = if change.grew { -(change.amount as f64) } else { change.amount as f64 };
    let percent = match change.share_of {
        Some(whole) => signed / whole as f64 * 100.0,
        None => 0.0,
    };
    format!("{:.1}", percent)
}

#[test]
fn byte_sizes_change_unit_at_powers_of_1024() {
    assert_eq!(shown_size(0), "0 B");
    assert_eq!(shown_size(1023), "1023 B");
    assert_eq!(shown_size(1024), "1.0 KB");
    assert_eq!(shown_size(1536), "1.5 KB");
    assert_eq!(shown_size(1048575), "1024.0 KB");
    assert_eq!(shown_size(1048576), "1.0 MB");
    assert_eq!(shown_size(1073741823), "1024.0 MB");
    assert_eq!(shown_size(1073741824), "1.0 GB");
    assert_eq!(shown_size(2029796043363922740), "1890394877.0 GB");
}

#[test]
fn size_units_and_their_bytes() {
    assert_eq!(size_unit(0), SizeUnit::Bytes);
    assert_eq!(size_unit(1023), SizeUnit::Bytes);
    assert_eq!(size_unit(1024), SizeUnit::Kilobytes);
    assert_eq!(size_unit(1024 * 1024 - 1), SizeUnit::Kilobytes);
    assert_eq!(size_unit(1024 * 1024), SizeUnit::Megabytes);
    assert_eq!(size_unit(1024 * 1024 * 1024 - 1), SizeUnit::Megabytes);
    assert_eq!(size_unit(1024 * 1024 * 1024), SizeUnit::Gigabytes);
    assert_eq!(size_unit(u128::MAX), SizeUnit::Gigabytes);
    assert_eq!(SizeUnit::Bytes.bytes(), 1);
    assert_eq!(SizeUnit::Kilobytes.bytes(), 1024);
    assert_eq!(SizeUnit::Megabytes.bytes(), 1024 * 1024);
    assert_eq!(SizeUnit::Gigabytes.bytes(), 1024 * 1024 * 1024);
}

#[test]
fn the_scaled_figure_is_taken_as_written() {
    assert_eq!(format_file_size(5, "ignored"), "5 B");
    assert_eq!(format_file_size(2048, "two"), "two KB");
    assert_eq!(format_file_size(3 * 1024 * 1024, ""), " MB");
    assert_eq!(format_file_size(1 << 40, "1024.0"), "1024.0 GB");
    assert_eq!(format_time(59 * SECOND, "59.0"), "59.0s");
    assert_eq!(format_time(60 * SECOND, "x"), "xm");
    assert_eq!(format_time(3600 * SECOND, "1.0"), "1.0h");
}

#[test]
fn durations_change_unit_at_minute_and_hour() {
    assert_eq!(shown_time(45.0), "45.0s");
    assert_eq!(shown_time(125.0), "2.1m");
    assert_eq!(shown_time(4000.0), "1.1h");
    assert_eq!(shown_time(0.0), "0.0s");
    assert_eq!(shown_time(0.05), "0.1s");
    assert_eq!(shown_time(63.0), "1.1m");
    assert_eq!(shown_time(60.0), "1.0m");
    assert_eq!(shown_time(3600.0), "1.0h");
}

#[test]
fn time_units_and_their_seconds() {
    assert_eq!(time_unit(0), TimeUnit::Seconds);
    assert_eq!(time_unit(60 * SECOND - 1), TimeUnit::Seconds);
    assert_eq!(time_unit(60 * SECOND), TimeUnit::Minutes);
    assert_eq!(time_unit(3600 * SECOND - 1), TimeUnit::Minutes);
    assert_eq!(time_unit(3600 * SECOND), TimeUnit::Hours);
    assert_eq!(time_unit(u128::MAX), TimeUnit::Hours);
    assert_eq!(TimeUnit::Seconds.seconds(), 1);
    assert_eq!(TimeUnit::Minutes.seconds(), 60);
    assert_eq!(TimeUnit::Hours.seconds(), 3600);
}

#[test]
fn percentage_of_nothing_is_zero() {
    assert_eq!(size_change(0, 0), SizeChange { grew: false, amount: 0, share_of: None });
    assert_eq!(size_change(0, 500), SizeChange { grew: true, amount: 500, share_of: None });
    assert_eq!(shown_percent(0, 0), "0.0");
    assert_eq!(shown_percent(0, 500), "0.0");
}

#[test]
fn size_change_has_a_direction_and_an_amount() {
    assert_eq!(size_change(1000, 600), SizeChange { grew: false, amount: 400, share_of: Some(1000) });
    assert_eq!(size_change(1000, 1250), SizeChange { grew: true, amount: 250, share_of: Some(1000) });
    assert_eq!(size_change(7, 7), SizeChange { grew: false, amount: 0, share_of: Some(7) });
    assert_eq!(
        size_change(u128::MAX, 0),
        SizeChange { grew: false, amount: u128::MAX, share_of: Some(u128::MAX) }
    );
    assert_eq!(shown_percent(1000, 600), "40.0");
    assert_eq!(shown_percent(1000, 1250), "-25.0");
    assert_eq!(shown_percent(2000, 1999), "0.1");
}

fn flags(show_summary: bool, show_file_sizes: bool) -> LoggingConfig {
    LoggingConfig { show_progress: false, show_file_sizes, show_summary, verbose_logging: false }
}

fn figures() -> ReportFigures {
    ReportFigures {
        elapsed: "2.0".to_string(),
        reduction_percent: "50.0".to_string(),
        saved_megabytes: "1.00".to_string(),
        final_size: "1.0".to_string(),
        original_size: "2.0".to_string(),
        speed: "2.0".to_string(),
    }
}

#[test]
fn report_shows_every_section() {
    let outcomes = vec![
        process_outcome(Attempt::Optimized { original_size: 2_097_152, new_size: 1_048_576 }),
        process_outcome(Attempt::Optimized { original_size: 1024, new_size: 1024 }),
        process_outcome(Attempt::Optimized { original_size: 100, new_size: 120 }),
        process_outcome(Attempt::CodecFailed { original_size: 5 }),
    ];
    let report = summarize(&outcomes, 2 * SECOND);
    let lines = format_report(&report, &flags(true, true), &figures());
    assert_eq!(
        lines,
        vec![
            "==================================================".to_string(),
            "\u{2705} Completed in 2.0s".to_string(),
            "\u{1F4CA} Processed: 4 files".to_string(),
            "\u{1F4C8} Results: 1 reduced, 1 unchanged, 1 increased, 1 failed".to_string(),
            "\u{1F4BE} Reduction: 50.0% (1.00 MB saved)".to_string(),
            "\u{1F4E6} Final size: 1.0 MB (was 2.0 MB)".to_string(),
            "\u{26A1} Speed: 2.0 files/sec".to_string(),
            "==================================================".to_string(),
        ]
    );
}

#[test]
fn report_sections_follow_their_flags() {
    let report = summarize(&Vec::new(), 90 * SECOND);
    assert_eq!(format_report(&report, &flags(false, false), &figures()), Vec::<String>::new());
    assert_eq!(
        format_report(&report, &flags(false, true), &figures()),
        vec!["\u{1F4E6} Final size: 0 B (was 0 B)".to_string()]
    );
    assert_eq!(
        format_report(&report, &flags(true, false), &figures()),
        vec![
            "==================================================".to_string(),
            "\u{2705} Completed in 2.0m".to_string(),
            "\u{1F4CA} Processed: 0 files".to_string(),
            "\u{1F4C8} Results: 0 reduced, 0 unchanged, 0 increased, 0 failed".to_string(),
            "\u{1F4BE} Reduction: 50.0% (1.00 MB saved)".to_string(),
            "\u{26A1} Speed: 2.0 files/sec".to_string(),
            "==================================================".to_string(),
        ]
    );
}

#[test]
fn each_outcome_has_its_line() {
    let improved = process_outcome(Attempt::Optimized { original_size: 1000, new_size: 875 });
    assert_eq!(
        describe_outcome("a.png", &improved, "12.5", ""),
        "a.png - reduced by 12.5% (125 bytes)"
    );
    let unchanged = process_outcome(Attempt::Optimized { original_size: 9, new_size: 9 });
    assert_eq!(describe_outcome("b.png", &unchanged, "0.0", "unused"), "b.png - no size change");
    let increased = process_outcome(Attempt::Optimized { original_size: 200, new_size: 260 });
    assert_eq!(
        describe_outcome("c.png", &increased, "30.0", ""),
        "c.png - increased by 30.0% (60 bytes)"
    );
    let failed = process_outcome(Attempt::CodecFailed { original_size: 4 });
    assert_eq!(describe_outcome("d.png", &failed, "0.0", "not a PNG"), "d.png: not a PNG");
}

#[test]
fn attempts_without_a_size_get_no_line() {
    assert!(!outcome_is_logged(Attempt::Unreadable));
    assert!(!outcome_is_logged(Attempt::ResultUnreadable { original_size: 3 }));
    assert!(outcome_is_logged(Attempt::CodecFailed { original_size: 3 }));
    assert!(outcome_is_logged(Attempt::Optimized { original_size: 3, new_size: 2 }));
}

#[test]
fn numbers_are_appended_in_decimal() {
    let mut out = String::from("n=");
    push_decimal(&mut out, 0);
    push_decimal(&mut out, 907);
    assert_eq!(out, "n=0907");
    let mut big = String::new();
    push_decimal(&mut big, u128::MAX);
    assert_eq!(big, "340282366920938463463374607431768211455");
}

#[test]
fn config_summary_shows_the_settings_in_use() {
    let mut config = OptimizationConfig::default();
    assert_eq!(
        config_summary(&config, Some(12)),
        vec![
            "compression level: 6".to_string(),
            "max workers: 12".to_string(),
            "strip metadata: true".to_string(),
            "deflate method: libdeflate".to_string(),
            "show progress: true".to_string(),
        ]
    );
    config.compression.level = 255;
    config.compression.max_workers = Some(3);
    config.compression.strip_metadata = false;
    config.advanced.deflate_method = "zopfli".to_string();
    config.logging.show_progress = false;
    assert_eq!(
        config_summary(&config, None),
        vec![
            "compression level: 255".to_string(),
            "max workers: 3".to_string(),
            "strip metadata: false".to_string(),
            "deflate method: zopfli".to_string(),
            "show progress: false".to_string(),
        ]
    );
}
