use crate::config::OptimizationConfig;
use crate::text::texts;
use indexmap::IndexSet;
use vstd::prelude::*;
use vstd::string::StringExecFns;

verus! {

/// A row-filter strategy that the codec can try.
#[derive(Clone, Copy, Debug, PartialEq, Eq, Structural)]
pub enum RowFilter {
    NoFilter,
    Sub,
    Up,
    Average,
    Paeth,
    MinSum,
    Entropy,
    Bigrams,
    BigEnt,
    Brute,
}

/// Which metadata chunks the codec removes.
#[derive(Clone, Copy, Debug, PartialEq, Eq, Structural)]
pub enum StripMode {
    /// Remove the chunks that do not affect rendering.
    Safe,
    /// Remove nothing.
    Keep,
}

/// The compression backend and its intensity.
#[derive(Clone, Copy, Debug, PartialEq, Eq, Structural)]
pub enum Deflater {
    /// The fast backend.
    Libdeflater { compression: u8 },
    /// The exhaustive backend; `iterations` is never zero.
    Zopfli { iterations: u8 },
}

/// What the codec does about interlacing.
#[derive(Clone, Copy, Debug, PartialEq, Eq, Structural)]
pub enum InterlaceChoice {
    /// Nothing was configured: the preset decides.
    FromPreset,
    /// Something unknown was configured: each file keeps what it has.
    NoPreference,
    /// Write Adam7-interlaced files.
    Adam7,
    /// Write files without interlacing.
    Off,
}

/// The parameters handed to the codec, derived from a configuration.
#[derive(Clone, Debug)]
pub struct OptimizationOptions {
    /// The preset that the remaining codec parameters start from.
    pub preset: u8,
    pub strip: StripMode,
    pub optimize_alpha: bool,
    pub fast_evaluation: bool,
    /// The filters to try, in priority order, none twice.
    pub filters: Vec<RowFilter>,
    pub deflate: Deflater,
    pub interlace: InterlaceChoice,
}

impl OptimizationOptions {
    /// No filter is listed twice, and the exhaustive backend runs at least
    /// one iteration.
    pub open spec fn well_formed(&self) -> bool {
        &&& self.filters@.no_duplicates()
        &&& (self.deflate matches Deflater::Zopfli { iterations } ==> iterations >= 1)
    }
}

/// The filter that a name stands for, if any.
pub open spec fn filter_named(name: Seq<char>) -> Option<RowFilter> {
    if name == "None"@ {
        Some(RowFilter::NoFilter)
    } else if name == "Sub"@ {
        Some(RowFilter::Sub)
    } else if name == "Up"@ {
        Some(RowFilter::Up)
    } else if name == "Average"@ {
        Some(RowFilter::Average)
    } else if name == "Paeth"@ {
        Some(RowFilter::Paeth)
    } else if name == "MinSum"@ {
        Some(RowFilter::MinSum)
    } else if name == "Entropy"@ {
        Some(RowFilter::Entropy)
    } else if name == "Bigrams"@ {
        Some(RowFilter::Bigrams)
    } else if name == "BigEnt"@ {
        Some(RowFilter::BigEnt)
    } else if name == "Brute"@ {
        Some(RowFilter::Brute)
    } else {
        None
    }
}

/// The filters that a list of names asks for: the known names in the order
/// of their first occurrence.
pub open spec fn requested_filters(names: Seq<Seq<char>>) -> Seq<RowFilter>
    decreases names.len(),
{
    if names.len() == 0 {
        Seq::empty()
    } else {
        let earlier = requested_filters(names.drop_last());
        match filter_named(names.last()) {
            Some(filter) => if earlier.contains(filter) {
                earlier
            } else {
                earlier.push(filter)
            },
            None => earlier,
        }
    }
}

/// The backend that a method name and a level select.
pub open spec fn deflater_for(method: Seq<char>, level: u8) -> Deflater {
    if method == "zopfli"@ {
        Deflater::Zopfli { iterations: if level == 0 { 1u8 } else { level } }
    } else {
        Deflater::Libdeflater { compression: level }
    }
}

/// The interlacing choice that a configured text selects.
pub open spec fn interlace_for(text: Option<Seq<char>>) -> InterlaceChoice {
    match text {
        None => InterlaceChoice::FromPreset,
        Some(t) => if t == "Adam7"@ {
            InterlaceChoice::Adam7
        } else if t == "None"@ {
            InterlaceChoice::Off
        } else {
            InterlaceChoice::NoPreference
        },
    }
}

impl RowFilter {
    /// The number by which a filter is stored and found again.
    pub open spec fn spec_code(self) -> u8 {
        match self {
            RowFilter::NoFilter => 0,
            RowFilter::Sub => 1,
            RowFilter::Up => 2,
            RowFilter::Average => 3,
            RowFilter::Paeth => 4,
            RowFilter::MinSum => 5,
            RowFilter::Entropy => 6,
            RowFilter::Bigrams => 7,
            RowFilter::BigEnt => 8,
            RowFilter::Brute => 9,
        }
    }

    /// The filter with a given number, if there is one.
    pub open spec fn spec_from_code(code: u8) -> Option<RowFilter> {
        if code == 0 {
            Some(RowFilter::NoFilter)
        } else if code == 1 {
            Some(RowFilter::Sub)
        } else if code == 2 {
            Some(RowFilter::Up)
        } else if code == 3 {
            Some(RowFilter::Average)
        } else if code == 4 {
            Some(RowFilter::Paeth)
        } else if code == 5 {
            Some(RowFilter::MinSum)
        } else if code == 6 {
            Some(RowFilter::Entropy)
        } else if code == 7 {
            Some(RowFilter::Bigrams)
        } else if code == 8 {
            Some(RowFilter::BigEnt)
        } else if code == 9 {
            Some(RowFilter::Brute)
        } else {
            None
        }
    }

    /// The number by which a filter is stored and found again.
    pub fn code(self) -> (code: u8)
        ensures
            code == self.spec_code(),
            RowFilter::spec_from_code(code) == Some(self),
    {
        match self {
            RowFilter::NoFilter => 0,
            RowFilter::Sub => 1,
            RowFilter::Up => 2,
            RowFilter::Average => 3,
            RowFilter::Paeth => 4,
            RowFilter::MinSum => 5,
            RowFilter::Entropy => 6,
            RowFilter::Bigrams => 7,
            RowFilter::BigEnt => 8,
            RowFilter::Brute => 9,
        }
    }

    /// The filter with a given number; `None` for a number above nine.
    pub fn from_code(code: u8) -> (filter: Option<RowFilter>)
        ensures
            filter == RowFilter::spec_from_code(code),
            filter matches Some(f) ==> f.spec_code() == code,
            filter.is_some() <==> code <= 9,
    {
        match code {
            0 => Some(RowFilter::NoFilter),
            1 => Some(RowFilter::Sub),
            2 => Some(RowFilter::Up),
            3 => Some(RowFilter::Average),
            4 => Some(RowFilter::Paeth),
            5 => Some(RowFilter::MinSum),
            6 => Some(RowFilter::Entropy),
            7 => Some(RowFilter::Bigrams),
            8 => Some(RowFilter::BigEnt),
            9 => Some(RowFilter::Brute),
            _ => None,
        }
    }
}

/// The codes of a sequence of filters.
pub open spec fn codes_of(filters: Seq<RowFilter>) -> Seq<u8> {
    filters.map_values(|f: RowFilter| f.spec_code())
}

/// Whether two texts hold the same characters.
pub fn same_text(left: &str, right: &str) -> (same: bool)
    ensures
        same == (left@ == right@),
{
    let a = String::from_str(left);
    let b = String::from_str(right);
    a == b
}

/// Looks a filter up by its name. Names are matched exactly; an unknown name
/// gives `None`.
pub fn lookup_filter(name: &str) -> (filter: Option<RowFilter>)
    ensures
        filter == filter_named(name@),
{
    if same_text(name, "None") {
        Some(RowFilter::NoFilter)
    } else if same_text(name, "Sub") {
        Some(RowFilter::Sub)
    } else if same_text(name, "Up") {
        Some(RowFilter::Up)
    } else if same_text(name, "Average") {
        Some(RowFilter::Average)
    } else if same_text(name, "Paeth") {
        Some(RowFilter::Paeth)
    } else if same_text(name, "MinSum") {
        Some(RowFilter::MinSum)
    } else if same_text(name, "Entropy") {
        Some(RowFilter::Entropy)
    } else if same_text(name, "Bigrams") {
        Some(RowFilter::Bigrams)
    } else if same_text(name, "BigEnt") {
        Some(RowFilter::BigEnt)
    } else if same_text(name, "Brute") {
        Some(RowFilter::Brute)
    } else {
        None
    }
}

/// `indexmap::IndexSet`, a set that keeps its values in insertion order.
/// Nothing inside it is visible to the verifier.
#[verifier::external_type_specification]
#[verifier::external_body]
#[verifier::reject_recursive_types(T)]
#[verifier::reject_recursive_types(S)]
pub struct ExIndexSet<T, S>(IndexSet<T, S>);

/// The values that an `IndexSet` holds, in the order in which `IndexSet::iter`
/// hands them out, which is the order of insertion.
pub uninterp spec fn index_set_items(set: IndexSet<u8>) -> Seq<u8>;

/// `IndexSet::new`: a set that holds nothing.
#[verifier::external_body]
fn index_set_new() -> (set: IndexSet<u8>)
    ensures
        index_set_items(set) == Seq::<u8>::empty(),
{
    IndexSet::new()
}

/// `IndexSet::insert`: a value that the set already holds leaves the set and
/// its order as they were and gives `false`; any other value goes to the end
/// and gives `true`.
#[verifier::external_body]
fn index_set_insert(set: &mut IndexSet<u8>, value: u8) -> (fresh: bool)
    ensures
        fresh == !index_set_items(*old(set)).contains(value),
        fresh ==> index_set_items(*final(set)) == index_set_items(*old(set)).push(value),
        !fresh ==> index_set_items(*final(set)) == index_set_items(*old(set)),
{
    set.insert(value)
}

/// `IndexSet::iter`, copied into a vector: the values of the set in insertion
/// order.
#[verifier::external_body]
fn index_set_values(set: &IndexSet<u8>) -> (values: Vec<u8>)
    ensures
        values@ == index_set_items(*set),
{
    set.iter().copied().collect()
}

/// A filter is among some filters exactly where its code is among their
/// codes.
proof fn lemma_codes_contain(filters: Seq<RowFilter>, filter: RowFilter)
    ensures
        codes_of(filters).contains(filter.spec_code()) <==> filters.contains(filter),
{
    if filters.contains(filter) {
        let at = choose|at: int| 0 <= at < filters.len() && filters[at] == filter;
        assert(codes_of(filters)[at] == filter.spec_code());
    }
    if codes_of(filters).contains(filter.spec_code()) {
        let at = choose|at: int|
            0 <= at < codes_of(filters).len() && codes_of(filters)[at] == filter.spec_code();
        assert(RowFilter::spec_from_code(filters[at].spec_code()) == Some(filters[at]));
        assert(RowFilter::spec_from_code(filter.spec_code()) == Some(filter));
        assert(filters[at] == filter);
    }
}

/// The requested filters hold no filter twice.
pub proof fn lemma_requested_filters_distinct(names: Seq<Seq<char>>)
    ensures
        requested_filters(names).no_duplicates(),
    decreases names.len(),
{
    if names.len() > 0 {
        lemma_requested_filters_distinct(names.drop_last());
    }
}

/// Every requested filter is named in the list, and every known name in the
/// list has its filter among the requested ones.
pub proof fn lemma_requested_filters_members(names: Seq<Seq<char>>, filter: RowFilter)
    ensures
        requested_filters(names).contains(filter) <==> exists|i: int|
            0 <= i < names.len() && filter_named(#[trigger] names[i]) == Some(filter),
    decreases names.len(),
{
    if names.len() > 0 {
        let last = names.len() - 1;
        let earlier_names = names.drop_last();
        let earlier = requested_filters(earlier_names);
        let all = requested_filters(names);
        lemma_requested_filters_members(earlier_names, filter);
        if earlier.contains(filter) {
            let at = choose|at: int| 0 <= at < earlier.len() && earlier[at] == filter;
            assert(all[at] == filter);
            let i = choose|i: int|
                0 <= i < earlier_names.len() && filter_named(#[trigger] earlier_names[i]) == Some(
                    filter,
                );
            assert(names[i] == earlier_names[i]);
        } else {
            if all.contains(filter) {
                assert(filter_named(names[last]) == Some(filter));
            }
            if exists|i: int|
                0 <= i < names.len() && filter_named(#[trigger] names[i]) == Some(filter) {
                let i = choose|i: int|
                    0 <= i < names.len() && filter_named(#[trigger] names[i]) == Some(filter);
                assert(i < last ==> earlier_names[i] == names[i]);
                assert(all[earlier.len() as int] == filter);
            }
        }
    }
}

/// Selects the filters that a list of names asks for: unknown names are
/// dropped, a repeated name counts once, and the order of first occurrence is
/// kept.
pub fn select_filters(names: &Vec<String>) -> (filters: Vec<RowFilter>)
    ensures
        filters@ == requested_filters(texts(names@)),
        filters@.no_duplicates(),
{
    let mut set = index_set_new();
    let mut i: usize = 0;
    while i < names.len()
        invariant
            i <= names.len(),
            index_set_items(set) == codes_of(requested_filters(texts(names@).take(i as int))),
        decreases names.len() - i,
    {
        let ghost earlier = requested_filters(texts(names@).take(i as int));
        proof {
            assert(texts(names@).take(i + 1).drop_last() =~= texts(names@).take(i as int));
            assert(texts(names@).take(i + 1).last() == names@[i as int]@);
        }
        match lookup_filter(names[i].as_str()) {
            Some(filter) => {
                proof {
                    lemma_codes_contain(earlier, filter);
                }
                let fresh = index_set_insert(&mut set, filter.code());
                proof {
                    if fresh {
                        assert(codes_of(earlier.push(filter)) =~= codes_of(earlier).push(
                            filter.spec_code(),
                        ));
                    }
                }
            },
            None => {},
        }
        i += 1;
    }
    proof {
        assert(texts(names@).take(i as int) =~= texts(names@));
        lemma_requested_filters_distinct(texts(names@));
    }
    let ghost wanted = requested_filters(texts(names@));
    let codes = index_set_values(&set);
    let mut filters: Vec<RowFilter> = Vec::new();
    let mut j: usize = 0;
    while j < codes.len()
        invariant
            j <= codes.len(),
            codes@ == codes_of(wanted),
            filters@ == wanted.take(j as int),
        decreases codes.len() - j,
    {
        proof {
            assert(codes@[j as int] == wanted[j as int].spec_code());
            assert(RowFilter::spec_from_code(wanted[j as int].spec_code()) == Some(
                wanted[j as int],
            ));
        }
        match RowFilter::from_code(codes[j]) {
            Some(filter) => {
                filters.push(filter);
            },
            None => {},
        }
        proof {
            assert(wanted.take(j + 1) =~= wanted.take(j as int).push(wanted[j as int]));
        }
        j += 1;
    }
    proof {
        assert(wanted.take(j as int) =~= wanted);
    }
    filters
}

/// Derives the parameters of the codec from a configuration. Every
/// configuration is accepted: unknown filter names are dropped, an unknown
/// backend name selects the fast backend, and an unknown interlacing text
/// expresses no preference.
pub fn create_optimization_options(config: &OptimizationConfig) -> (options: OptimizationOptions)
    ensures
        options.well_formed(),
        options.preset == config.compression.level,
        options.strip == if config.compression.strip_metadata {
            StripMode::Safe
        } else {
            StripMode::Keep
        },
        options.optimize_alpha == config.compression.optimize_alpha,
        options.fast_evaluation == config.compression.fast_evaluation,
        options.filters@ == requested_filters(texts(config.advanced.custom_filters@)),
        options.filters@.no_duplicates(),
        options.deflate == deflater_for(
            config.advanced.deflate_method@,
            config.advanced.deflate_level,
        ),
        options.interlace == interlace_for(
            match config.advanced.interlace {
                Some(text) => Some(text@),
                None => None,
            },
        ),
{
    let filters = select_filters(&config.advanced.custom_filters);
    let strip = if config.compression.strip_metadata {
        StripMode::Safe
    } else {
        StripMode::Keep
    };
    let level = config.advanced.deflate_level;
    let deflate = if same_text(config.advanced.deflate_method.as_str(), "zopfli") {
        Deflater::Zopfli { iterations: if level == 0 { 1 } else { level } }
    } else {
        Deflater::Libdeflater { compression: level }
    };
    let interlace = match &config.advanced.interlace {
        None => InterlaceChoice::FromPreset,
        Some(text) => {
            if same_text(text.as_str(), "Adam7") {
                InterlaceChoice::Adam7
            } else if same_text(text.as_str(), "None") {
                InterlaceChoice::Off
            } else {
                InterlaceChoice::NoPreference
            }
        },
    };
    OptimizationOptions {
        preset: config.compression.level,
        strip,
        optimize_alpha: config.compression.optimize_alpha,
        fast_evaluation: config.compression.fast_evaluation,
        filters,
        deflate,
        interlace,
    }
}

} // verus!
