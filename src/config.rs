use vstd::prelude::*;

verus! {

/// The thread count handed to the engine always lies in this range.
pub const MIN_THREADS: i32 = 1;

pub const MAX_THREADS: i32 = 8;

/// What the caller asked for; every field is optional.
#[derive(Clone, Debug, PartialEq, Eq)]
pub struct RecognitionOptions {
    pub language: Option<String>,
    pub threads: Option<usize>,
}

/// How the engine picks the spoken language.
#[derive(Clone, Debug, PartialEq, Eq)]
pub enum LanguageMode {
    Detect,
    Fixed(String),
}

/// A fully resolved engine run configuration.  The two probability
/// thresholds are given in hundredths.
#[derive(Clone, Debug, PartialEq, Eq)]
pub struct RecognitionConfig {
    pub n_threads: i32,
    pub language: LanguageMode,
    pub best_of: i32,
    pub print_special: bool,
    pub print_progress: bool,
    pub print_realtime: bool,
    pub print_timestamps: bool,
    pub max_len: i32,
    pub max_initial_ts: i32,
    pub no_context: bool,
    pub single_segment: bool,
    pub offset_ms: i32,
    pub duration_ms: i32,
    pub translate: bool,
    pub no_timestamps: bool,
    pub thold_pt_hundredths: i32,
    pub thold_ptsum_hundredths: i32,
}

impl Default for RecognitionOptions {
    fn default() -> (r: RecognitionOptions)
        ensures
            r.language is None,
            r.threads is None,
    {
        RecognitionOptions { language: None, threads: None }
    }
}

impl RecognitionOptions {
    /// The options to use given the outcome of parsing the caller's text:
    /// a failed parse silently falls back to the defaults.
    pub fn from_parsed(parsed: Option<RecognitionOptions>) -> (r: RecognitionOptions)
        ensures
            parsed is Some ==> r == parsed->Some_0,
            parsed is None ==> r.language is None && r.threads is None,
    {
        match parsed {
            Some(o) => o,
            None => RecognitionOptions { language: None, threads: None },
        }
    }
}

pub open spec fn clamp_spec(t: int) -> int {
    if t < MIN_THREADS {
        MIN_THREADS as int
    } else if t > MAX_THREADS {
        MAX_THREADS as int
    } else {
        t
    }
}

pub open spec fn ascii_lower(c: char) -> char {
    if 'A' <= c && c <= 'Z' {
        (((c as u32) + 32) as u8) as char
    } else {
        c
    }
}

/// Equality of two texts when ASCII letters are compared without case.
pub open spec fn ascii_ci_eq(a: Seq<char>, b: Seq<char>) -> bool {
    a.len() == b.len() && forall|i: int| 0 <= i < a.len() ==> ascii_lower(#[trigger] a[i]) == ascii_lower(b[i])
}

pub open spec fn auto_word() -> Seq<char> {
    seq!['a', 'u', 't', 'o']
}

pub open spec fn language_mode_of(language: Option<String>) -> LanguageMode {
    match language {
        None => LanguageMode::Detect,
        Some(s) => if ascii_ci_eq(s@, auto_word()) {
            LanguageMode::Detect
        } else {
            LanguageMode::Fixed(s)
        },
    }
}

/// The configuration that options yield when the host has `cores` cores.
pub open spec fn config_of(options: RecognitionOptions, cores: usize) -> RecognitionConfig {
    RecognitionConfig {
        n_threads: clamp_spec(
            match options.threads {
                Some(t) => t as int,
                None => cores as int,
            },
        ) as i32,
        language: language_mode_of(options.language),
        best_of: 1,
        print_special: false,
        print_progress: false,
        print_realtime: false,
        print_timestamps: false,
        max_len: 0,
        max_initial_ts: 0,
        no_context: false,
        single_segment: false,
        offset_ms: 0,
        duration_ms: 0,
        translate: false,
        no_timestamps: false,
        thold_pt_hundredths: 1,
        thold_ptsum_hundredths: 1,
    }
}

fn ascii_lower_exec(c: char) -> (r: char)
    ensures
        r == ascii_lower(c),
{
    if 'A' <= c && c <= 'Z' {
        (((c as u32) + 32) as u8) as char
    } else {
        c
    }
}

/// Compares two texts, treating ASCII letters without regard to case.
pub fn eq_ignore_ascii_case(a: &str, b: &str) -> (r: bool)
    ensures
        r == ascii_ci_eq(a@, b@),
{
    let n = a.unicode_len();
    if n != b.unicode_len() {
        return false;
    }
    let mut i: usize = 0;
    while i < n
        invariant
            n == a@.len(),
            n == b@.len(),
            i <= n,
            forall|j: int| 0 <= j < i ==> ascii_lower(#[trigger] a@[j]) == ascii_lower(b@[j]),
        decreases n - i,
    {
        if ascii_lower_exec(a.get_char(i)) != ascii_lower_exec(b.get_char(i)) {
            return false;
        }
        i = i + 1;
    }
    true
}

/// Clamps a requested thread count into the allowed range.
pub fn clamp_threads(requested: usize) -> (r: i32)
    ensures
        r as int == clamp_spec(requested as int),
        MIN_THREADS <= r <= MAX_THREADS,
{
    if requested < 1 {
        MIN_THREADS
    } else if requested > 8 {
        MAX_THREADS
    } else {
        requested as i32
    }
}

/// Chooses automatic detection for an absent language or any spelling of
/// "auto", and otherwise passes the code through unchanged.
pub fn resolve_language(language: &Option<String>) -> (r: LanguageMode)
    ensures
        r == language_mode_of(*language),
        language is None ==> r is Detect,
{
    match language {
        None => LanguageMode::Detect,
        Some(s) => {
            let auto = "auto";
            proof {
                reveal_strlit("auto");
                assert(auto@ =~= auto_word());
            }
            if eq_ignore_ascii_case(s.as_str(), auto) {
                LanguageMode::Detect
            } else {
                LanguageMode::Fixed(s.clone())
            }
        },
    }
}

/// Builds the engine configuration from options, using `cores` when no
/// thread count was requested.
pub fn build_config(options: &RecognitionOptions, cores: usize) -> (r: RecognitionConfig)
    ensures
        r == config_of(*options, cores),
        MIN_THREADS <= r.n_threads <= MAX_THREADS,
{
    let requested = match options.threads {
        Some(t) => t,
        None => cores,
    };
    RecognitionConfig {
        n_threads: clamp_threads(requested),
        language: resolve_language(&options.language),
        best_of: 1,
        print_special: false,
        print_progress: false,
        print_realtime: false,
        print_timestamps: false,
        max_len: 0,
        max_initial_ts: 0,
        no_context: false,
        single_segment: false,
        offset_ms: 0,
        duration_ms: 0,
        translate: false,
        no_timestamps: false,
        thold_pt_hundredths: 1,
        thold_ptsum_hundredths: 1,
    }
}

/// Relies on num_cpus::get: the number of logical cores available to this
/// process, documented to be at least one.
#[verifier::external_body]
fn cpu_count() -> (r: usize)
    ensures
        r >= 1,
{
    num_cpus::get()
}

/// Builds the engine configuration, asking the host for its core count only
/// when no thread count was requested.
pub fn build_config_for_host(options: &RecognitionOptions) -> (r: RecognitionConfig)
    ensures
        options.threads is Some ==> r == config_of(*options, 1),
        exists|cores: usize| cores >= 1 && r == config_of(*options, cores),
        MIN_THREADS <= r.n_threads <= MAX_THREADS,
{
    let cores: usize = match options.threads {
        Some(_) => 1,
        None => cpu_count(),
    };
    let r = build_config(options, cores);
    assert(r == config_of(*options, cores));
    r
}

} // verus!
