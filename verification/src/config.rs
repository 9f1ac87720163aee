use crate::text::texts;
use vstd::prelude::*;
use vstd::string::StringExecFns;

verus! {

/// Settings of the re-encoding itself.
#[derive(Clone, Debug)]
pub struct CompressionConfig {
    /// Compression intensity; higher searches more exhaustively.
    pub level: u8,
    /// Worker-count override; absent means the platform's parallelism.
    pub max_workers: Option<usize>,
    pub strip_metadata: bool,
    pub optimize_alpha: bool,
    pub fast_evaluation: bool,
}

/// Which sections of output are shown.
#[derive(Clone, Copy, Debug, PartialEq, Eq, Structural)]
pub struct LoggingConfig {
    pub show_progress: bool,
    pub show_file_sizes: bool,
    pub show_summary: bool,
    pub verbose_logging: bool,
}

/// Filter strategies, compression backend and interlacing, by name.
#[derive(Clone, Debug)]
pub struct AdvancedConfig {
    /// Filter names in trial priority; unknown names are ignored.
    pub custom_filters: Vec<String>,
    /// `"zopfli"` selects the exhaustive backend; anything else the fast one.
    pub deflate_method: String,
    pub deflate_level: u8,
    /// `"Adam7"` or `"None"`; any other text expresses no preference.
    pub interlace: Option<String>,
}

/// The whole configuration of one run. It is built once and only read
/// afterwards.
#[derive(Clone, Debug)]
pub struct OptimizationConfig {
    pub compression: CompressionConfig,
    pub logging: LoggingConfig,
    pub advanced: AdvancedConfig,
}

/// The filter names that apply where none are configured.
pub open spec fn default_filter_names() -> Seq<Seq<char>> {
    seq!["None"@, "Sub"@, "Up"@, "Average"@, "Paeth"@]
}

impl Default for OptimizationConfig {
    /// The settings that apply where no configuration source exists.
    fn default() -> (config: OptimizationConfig)
        ensures
            config.compression.level == 6,
            config.compression.max_workers == None::<usize>,
            config.compression.strip_metadata,
            !config.compression.optimize_alpha,
            !config.compression.fast_evaluation,
            config.logging == (LoggingConfig {
                show_progress: true,
                show_file_sizes: true,
                show_summary: true,
                verbose_logging: false,
            }),
            texts(config.advanced.custom_filters@) == default_filter_names(),
            config.advanced.deflate_method@ == "libdeflate"@,
            config.advanced.deflate_level == 12,
            config.advanced.interlace.is_none(),
    {
        let mut custom_filters: Vec<String> = Vec::new();
        custom_filters.push(String::from_str("None"));
        custom_filters.push(String::from_str("Sub"));
        custom_filters.push(String::from_str("Up"));
        custom_filters.push(String::from_str("Average"));
        custom_filters.push(String::from_str("Paeth"));
        proof {
            assert(texts(custom_filters@) =~= default_filter_names());
        }
        OptimizationConfig {
            compression: CompressionConfig {
                level: 6,
                max_workers: None,
                strip_metadata: true,
                optimize_alpha: false,
                fast_evaluation: false,
            },
            logging: LoggingConfig {
                show_progress: true,
                show_file_sizes: true,
                show_summary: true,
                verbose_logging: false,
            },
            advanced: AdvancedConfig {
                custom_filters,
                deflate_method: String::from_str("libdeflate"),
                deflate_level: 12,
                interlace: None,
            },
        }
    }
}

} // verus!
