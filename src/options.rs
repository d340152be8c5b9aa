//! Turns the caller's optional preferences into the configuration handed to
//! the recognition backend.

use vstd::prelude::*;

use crate::language::{from_language_code, language_for, lower_of, Language};

verus! {

/// What a caller may ask of a recognition run.
pub struct UniOcrOptions {
    /// Language codes, in order of preference; repeats are kept.
    pub languages: Vec<String>,
    /// Confidence threshold, on the caller's own scale.
    pub confidence_threshold: i32,
    /// Time budget in whole seconds.
    pub timeout: i64,
}

/// The backend configuration of one run. `None` in a field leaves the
/// backend's own default in force.
pub struct ResolvedOptions {
    pub languages: Option<Vec<Language>>,
    /// Passed on unchecked; the backend reads it as a floating value.
    pub confidence_threshold: Option<i32>,
    /// The time budget in seconds.
    pub timeout_secs: Option<u64>,
}

/// The languages that a list of codes resolves to, one for each code, in order.
pub open spec fn resolve_all(codes: Seq<String>) -> Seq<Language> {
    codes.map_values(|c: String| language_for(lower_of(c@)))
}

/// The time budget for a caller's timeout: the count itself when it is
/// positive, and zero for a zero or negative count, so that such a run fails
/// fast or ends at once rather than running unbounded.
pub open spec fn timeout_secs_for(t: i64) -> u64 {
    if t > 0 {
        t as u64
    } else {
        0
    }
}

impl ResolvedOptions {
    /// No field of the backend's defaults is overridden.
    pub open spec fn is_backend_default(&self) -> bool {
        &&& self.languages is None
        &&& self.confidence_threshold is None
        &&& self.timeout_secs is None
    }
}

/// Resolves each code of `codes` in turn.
pub fn resolve_languages(codes: &Vec<String>) -> (r: Vec<Language>)
    ensures
        r@ == resolve_all(codes@),
{
    let mut r: Vec<Language> = Vec::new();
    let mut i: usize = 0;
    while i < codes.len()
        invariant
            i <= codes@.len(),
            r@ == resolve_all(codes@.subrange(0, i as int)),
        decreases codes@.len() - i,
    {
        let l = match from_language_code(codes[i].as_str()) {
            Some(l) => l,
            None => Language::English,
        };
        proof {
            assert(codes@.subrange(0, i + 1) =~= codes@.subrange(0, i as int).push(codes@[i as int]));
        }
        r.push(l);
        i = i + 1;
    }
    assert(codes@.subrange(0, i as int) =~= codes@);
    r
}

/// The configuration for a run. Without options the backend keeps all its
/// defaults; with them, every code is resolved in order, the threshold is
/// passed on unchecked and the timeout becomes a count of seconds, zero for
/// a zero or negative timeout. This never fails.
pub fn normalize(options: Option<UniOcrOptions>) -> (r: ResolvedOptions)
    ensures
        options is None ==> r.is_backend_default(),
        options matches Some(o) ==> {
            &&& r.languages matches Some(v) && v@ == resolve_all(o.languages@)
            &&& r.confidence_threshold == Some(o.confidence_threshold)
            &&& r.timeout_secs == Some(timeout_secs_for(o.timeout))
            &&& (o.timeout > 0 ==> (r.timeout_secs matches Some(n) && n as int == o.timeout as int))
            &&& (o.timeout <= 0 ==> r.timeout_secs == Some(0u64))
        },
{
    match options {
        None => ResolvedOptions { languages: None, confidence_threshold: None, timeout_secs: None },
        Some(o) => {
            let langs = resolve_languages(&o.languages);
            ResolvedOptions {
                languages: Some(langs),
                confidence_threshold: Some(o.confidence_threshold),
                timeout_secs: Some(
                    if o.timeout > 0 {
                        o.timeout as u64
                    } else {
                        0
                    },
                ),
            }
        },
    }
}

} // verus!
