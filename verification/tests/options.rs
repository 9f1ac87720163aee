use blair_png::config::OptimizationConfig;
use blair_png::options::{
    create_optimization_options, lookup_filter, same_text, select_filters, Deflater,
    InterlaceChoice, RowFilter, StripMode,
};

fn names(list: &[&str]) -> Vec<String> {
    list.iter().map(|s| s.to_string()).collect()
}

#[test]
fn default_config_has_the_documented_values() {
    let config = OptimizationConfig::default();
    assert_eq!(config.compression.level, 6);
    assert_eq!(config.compression.max_workers, None);
    assert!(config.compression.strip_metadata);
    assert!(!config.compression.optimize_alpha);
    assert!(!config.compression.fast_evaluation);
    assert!(config.logging.show_progress);
    assert!(config.logging.show_file_sizes);
    assert!(config.logging.show_summary);
    assert!(!config.logging.verbose_logging);
    assert_eq!(config.advanced.custom_filters, names(&["None", "Sub", "Up", "Average", "Paeth"]));
    assert_eq!(config.advanced.deflate_method, "libdeflate");
    assert_eq!(config.advanced.deflate_level, 12);
    assert_eq!(config.advanced.interlace, None);
}

#[test]
fn default_config_translates() {
    let options = create_optimization_options(&OptimizationConfig::default());
    assert_eq!(options.preset, 6);
    assert_eq!(options.strip, StripMode::Safe);
    assert!(!options.optimize_alpha);
    assert!(!options.fast_evaluation);
    assert_eq!(
        options.filters,
        vec![RowFilter::NoFilter, RowFilter::Sub, RowFilter::Up, RowFilter::Average, RowFilter::Paeth]
    );
    assert_eq!(options.deflate, Deflater::Libdeflater { compression: 12 });
    assert_eq!(options.interlace, InterlaceChoice::FromPreset);
}

#[test]
fn flags_are_carried_over() {
    let mut config = OptimizationConfig::default();
    config.compression.level = 3;
    config.compression.strip_metadata = false;
    config.compression.optimize_alpha = true;
    config.compression.fast_evaluation = true;
    let options = create_optimization_options(&config);
    assert_eq!(options.preset, 3);
    assert_eq!(options.strip, StripMode::Keep);
    assert!(options.optimize_alpha);
    assert!(options.fast_evaluation);
}

#[test]
fn unknown_filters_are_dropped_and_repeats_count_once() {
    let filters = select_filters(&names(&["Brute", "bogus", "Sub", "Brute", "sub", "", "Entropy", "Sub"]));
    assert_eq!(filters, vec![RowFilter::Brute, RowFilter::Sub, RowFilter::Entropy]);
    assert_eq!(select_filters(&Vec::new()), Vec::<RowFilter>::new());
    assert_eq!(select_filters(&names(&["nothing", "known"])), Vec::<RowFilter>::new());
}

#[test]
fn every_filter_name_is_known() {
    let all = [
        ("None", RowFilter::NoFilter),
        ("Sub", RowFilter::Sub),
        ("Up", RowFilter::Up),
        ("Average", RowFilter::Average),
        ("Paeth", RowFilter::Paeth),
        ("MinSum", RowFilter::MinSum),
        ("Entropy", RowFilter::Entropy),
        ("Bigrams", RowFilter::Bigrams),
        ("BigEnt", RowFilter::BigEnt),
        ("Brute", RowFilter::Brute),
    ];
    for (code, (name, filter)) in all.iter().enumerate() {
        assert_eq!(lookup_filter(name), Some(*filter));
        assert_eq!(filter.code() as usize, code);
        assert_eq!(RowFilter::from_code(code as u8), Some(*filter));
    }
    assert_eq!(lookup_filter("none"), None);
    assert_eq!(lookup_filter("Paeth "), None);
    assert_eq!(RowFilter::from_code(10), None);
    assert_eq!(RowFilter::from_code(255), None);
    let listed: Vec<String> = all.iter().map(|(name, _)| name.to_string()).collect();
    let filters = select_filters(&listed);
    assert_eq!(filters, all.iter().map(|(_, f)| *f).collect::<Vec<RowFilter>>());
}

#[test]
fn backend_is_chosen_by_name() {
    let mut config = OptimizationConfig::default();
    config.advanced.deflate_method = "zopfli".to_string();
    config.advanced.deflate_level = 15;
    assert_eq!(create_optimization_options(&config).deflate, Deflater::Zopfli { iterations: 15 });
    config.advanced.deflate_level = 0;
    assert_eq!(create_optimization_options(&config).deflate, Deflater::Zopfli { iterations: 1 });
    config.advanced.deflate_method = "Zopfli".to_string();
    assert_eq!(create_optimization_options(&config).deflate, Deflater::Libdeflater { compression: 0 });
    config.advanced.deflate_method = "brotli".to_string();
    config.advanced.deflate_level = 9;
    assert_eq!(create_optimization_options(&config).deflate, Deflater::Libdeflater { compression: 9 });
}

#[test]
fn interlacing_is_chosen_by_name() {
    let mut config = OptimizationConfig::default();
    config.advanced.interlace = Some("Adam7".to_string());
    assert_eq!(create_optimization_options(&config).interlace, InterlaceChoice::Adam7);
    config.advanced.interlace = Some("None".to_string());
    assert_eq!(create_optimization_options(&config).interlace, InterlaceChoice::Off);
    config.advanced.interlace = Some("adam7".to_string());
    assert_eq!(create_optimization_options(&config).interlace, InterlaceChoice::NoPreference);
    config.advanced.interlace = None;
    assert_eq!(create_optimization_options(&config).interlace, InterlaceChoice::FromPreset);
}

#[test]
fn texts_are_compared_exactly() {
    assert!(same_text("zopfli", "zopfli"));
    assert!(!same_text("zopfli", "zopfl"));
    assert!(!same_text("", "x"));
    assert!(same_text("", ""));
}
