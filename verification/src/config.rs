//! The run's configuration values.
//!
//! The caller supplies raw option texts; this module turns them into the
//! values the pipeline consumes: a positive concurrency limit, a per-capture
//! budget, viewport dimensions, the output directory and an optional explicit
//! driver path. A malformed dimension falls back to its default; a malformed
//! or non-positive concurrency is rejected before any work starts.

use vstd::prelude::*;

verus! {

/// Worker slots used when the caller names no limit.
pub const DEFAULT_CONCURRENCY: usize = 4;

/// Per-capture budget used for the liveness probe and the capture race.
pub const DEFAULT_BUDGET_MS: u64 = 10000;

/// Viewport width used when the caller names none or a malformed one.
pub const DEFAULT_WIDTH: u32 = 1400;

/// Viewport height used when the caller names none or a malformed one.
pub const DEFAULT_HEIGHT: u32 = 900;

/// Why a configuration was rejected.
#[derive(Clone, Copy, Debug, PartialEq, Eq)]
pub enum ConfigError {
    /// The concurrency limit was not a positive decimal number.
    InvalidConcurrency,
}

/// Everything the pipeline consumes, already validated: the parsing
/// mechanism that produced the raw texts stays outside the core.
pub struct RunConfig {
    /// How many captures may run at once. Always positive.
    pub concurrency: usize,
    /// The wall-clock budget for one target's probe and for its capture.
    pub budget_ms: u64,
    /// Viewport width handed to the engine.
    pub width: u32,
    /// Viewport height handed to the engine.
    pub height: u32,
    /// Directory the image files are stored under.
    pub output_dir: String,
    /// An explicitly supplied driver executable, if any.
    pub driver_path: Option<String>,
}

impl RunConfig {
    /// A usable configuration bounds its own concurrency away from zero.
    pub open spec fn wf(&self) -> bool {
        self.concurrency >= 1
    }
}

/// Whether the character is a decimal digit.
pub open spec fn is_digit(c: char) -> bool {
    48 <= c as u32 <= 57
}

/// Whether the whole string is made of decimal digits.
pub open spec fn all_digits(s: Seq<char>) -> bool {
    forall|i: int| 0 <= i < s.len() ==> is_digit(#[trigger] s[i])
}

/// The number a digit string denotes.
pub open spec fn dec_value(s: Seq<char>) -> int
    decreases s.len(),
{
    if s.len() == 0 {
        0
    } else {
        dec_value(s.drop_last()) * 10 + (s.last() as u32 - 48)
    }
}

/// A digit string denotes nothing negative.
proof fn lemma_dec_value_nonneg(s: Seq<char>)
    requires
        all_digits(s),
    ensures
        dec_value(s) >= 0,
    decreases s.len(),
{
    if s.len() > 0 {
        assert(all_digits(s.drop_last())) by {
            assert(forall|i: int| 0 <= i < s.len() - 1 ==> s.drop_last()[i] == s[i]);
        }
        lemma_dec_value_nonneg(s.drop_last());
    }
}

/// Extending a digit string never shrinks its value.
proof fn lemma_dec_value_prefix(s: Seq<char>, j: int)
    requires
        all_digits(s),
        0 <= j <= s.len(),
    ensures
        dec_value(s.take(j)) <= dec_value(s),
    decreases s.len() - j,
{
    if j < s.len() {
        assert(all_digits(s.take(j))) by {
            assert(forall|i: int| 0 <= i < j ==> s.take(j)[i] == s[i]);
        }
        lemma_dec_value_nonneg(s.take(j));
        assert(s.take(j + 1).drop_last() =~= s.take(j));
        assert(s.take(j + 1).last() == s[j]);
        lemma_dec_value_prefix(s, j + 1);
    } else {
        assert(s.take(j) =~= s);
    }
}

/// Parse a decimal number. Returns the value exactly when the text is one
/// or more digits denoting a number that fits. Deliberately plain: no sign
/// prefix, no whitespace — an option text is either a digit string or it is
/// treated as malformed.
pub fn parse_u32(s: &str) -> (r: Option<u32>)
    ensures
        r is Some <==> (s@.len() > 0 && all_digits(s@) && dec_value(s@) <= u32::MAX),
        r is Some ==> r->0 as int == dec_value(s@),
{
    let n = s.unicode_len();
    if n == 0 {
        return None;
    }
    let mut acc: u64 = 0;
    let mut i: usize = 0;
    while i < n
        invariant
            i <= n,
            n == s@.len(),
            all_digits(s@.take(i as int)),
            acc as int == dec_value(s@.take(i as int)),
            acc <= u32::MAX as u64,
        decreases n - i,
    {
        let c = s.get_char(i);
        let cv = c as u32;
        if cv < 48 || cv > 57 {
            proof {
                assert(!is_digit(s@[i as int]));
            }
            return None;
        }
        proof {
            assert(s@.take(i + 1).drop_last() =~= s@.take(i as int));
            assert(s@.take(i + 1).last() == s@[i as int]);
            assert(forall|k: int| 0 <= k < i + 1 ==> s@.take(i + 1)[k] == s@[k]);
        }
        acc = acc * 10 + ((cv - 48) as u64);
        if acc > u32::MAX as u64 {
            proof {
                if all_digits(s@) {
                    lemma_dec_value_prefix(s@, i + 1);
                    assert(dec_value(s@) > u32::MAX);
                }
            }
            return None;
        }
        i = i + 1;
    }
    proof {
        assert(s@.take(n as int) =~= s@);
    }
    Some(acc as u32)
}

/// A viewport dimension: the denoted number when the text is a well-formed
/// dimension, its default otherwise — a malformed dimension is tolerated,
/// never fatal.
pub fn dimension_or(s: Option<&str>, default: u32) -> (r: u32)
    ensures
        s is None ==> r == default,
        s is Some && (s->0@.len() > 0 && all_digits(s->0@) && dec_value(s->0@) <= u32::MAX)
            ==> r as int == dec_value(s->0@),
        s is Some && !(s->0@.len() > 0 && all_digits(s->0@) && dec_value(s->0@) <= u32::MAX)
            ==> r == default,
{
    match s {
        None => default,
        Some(txt) => match parse_u32(txt) {
            Some(v) => v,
            None => default,
        },
    }
}

/// The concurrency limit: its default when the caller names none, the
/// denoted number when the text denotes a positive number that fits, and
/// rejected otherwise — a run never starts with zero worker slots.
pub fn concurrency_from(s: Option<&str>) -> (r: Result<usize, ConfigError>)
    ensures
        s is None ==> r == Ok::<usize, ConfigError>(DEFAULT_CONCURRENCY),
        s is Some && (s->0@.len() > 0 && all_digits(s->0@) && 1 <= dec_value(s->0@)
            <= u32::MAX) ==> r is Ok && r->Ok_0 as int == dec_value(s->0@),
        s is Some && !(s->0@.len() > 0 && all_digits(s->0@) && 1 <= dec_value(s->0@)
            <= u32::MAX) ==> r == Err::<usize, ConfigError>(ConfigError::InvalidConcurrency),
        r is Ok ==> r->Ok_0 >= 1,
{
    match s {
        None => Ok(DEFAULT_CONCURRENCY),
        Some(txt) => match parse_u32(txt) {
            Some(v) => if v >= 1 {
                Ok(v as usize)
            } else {
                Err(ConfigError::InvalidConcurrency)
            },
            None => Err(ConfigError::InvalidConcurrency),
        },
    }
}

/// Assemble the run's configuration from the raw option texts. Succeeds for
/// every input except a malformed or non-positive concurrency limit, and
/// always yields a well-formed configuration.
pub fn build_config(
    max: Option<&str>,
    width: Option<&str>,
    height: Option<&str>,
    output_dir: Option<String>,
    driver_path: Option<String>,
) -> (r: Result<RunConfig, ConfigError>)
    ensures
        r is Ok <==> (max is None || (max->0@.len() > 0 && all_digits(max->0@) && 1 <= dec_value(
            max->0@,
        ) <= u32::MAX)),
        r is Err ==> r == Err::<RunConfig, ConfigError>(ConfigError::InvalidConcurrency),
        r is Ok ==> {
            let c = r->Ok_0;
            &&& c.wf()
            &&& (max is None ==> c.concurrency == DEFAULT_CONCURRENCY)
            &&& (max is Some ==> c.concurrency as int == dec_value(max->0@))
            &&& c.budget_ms == DEFAULT_BUDGET_MS
            &&& (width is None ==> c.width == DEFAULT_WIDTH)
            &&& (height is None ==> c.height == DEFAULT_HEIGHT)
            &&& (width is Some && (width->0@.len() > 0 && all_digits(width->0@) && dec_value(
                width->0@,
            ) <= u32::MAX) ==> c.width as int == dec_value(width->0@))
            &&& (width is Some && !(width->0@.len() > 0 && all_digits(width->0@) && dec_value(
                width->0@,
            ) <= u32::MAX) ==> c.width == DEFAULT_WIDTH)
            &&& (height is Some && (height->0@.len() > 0 && all_digits(height->0@) && dec_value(
                height->0@,
            ) <= u32::MAX) ==> c.height as int == dec_value(height->0@))
            &&& (height is Some && !(height->0@.len() > 0 && all_digits(height->0@) && dec_value(
                height->0@,
            ) <= u32::MAX) ==> c.height == DEFAULT_HEIGHT)
            &&& (output_dir is Some ==> c.output_dir@ == output_dir->0@)
            &&& (output_dir is None ==> c.output_dir@ == "screenshots"@)
            &&& c.driver_path == driver_path
        },
{
    let concurrency = match concurrency_from(max) {
        Ok(c) => c,
        Err(e) => {
            return Err(e);
        },
    };
    let width = dimension_or(width, DEFAULT_WIDTH);
    let height = dimension_or(height, DEFAULT_HEIGHT);
    let output_dir = match output_dir {
        Some(d) => d,
        None => "screenshots".to_owned(),
    };
    Ok(
        RunConfig {
            concurrency,
            budget_ms: DEFAULT_BUDGET_MS,
            width,
            height,
            output_dir,
            driver_path,
        },
    )
}

} // verus!
