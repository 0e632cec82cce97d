//! Validated capture targets.
//!
//! A [`Target`] holds the normalized serialization of an absolute URL. Only
//! strings that the URL parser accepts become targets; a malformed input line
//! is dropped before any scheduling, never handed to a worker.

use vstd::prelude::*;

verus! {

/// The normalized serialization that URL parsing assigns to a string:
/// `Some` exactly when the string is a well-formed absolute URL. Parsing
/// depends on the input characters alone.
pub uninterp spec fn normalized_url(s: Seq<char>) -> Option<Seq<char>>;

/// Relies on `url::Url::parse` (with no base URL, parsing depends on the
/// input string alone) and `url::Url::as_str` (the parsed URL's normalized
/// serialization).
#[verifier::external_body]
fn parse_normalized(line: &str) -> (r: Option<String>)
    ensures
        r is Some <==> normalized_url(line@) is Some,
        r is Some ==> r->0@ == normalized_url(line@)->0,
{
    match url::Url::parse(line) {
        Ok(u) => Some(u.as_str().to_owned()),
        Err(_) => None,
    }
}

/// One validated capture target: a well-formed absolute URL in its
/// normalized form.
pub struct Target {
    url: String,
}

impl View for Target {
    type V = Seq<char>;

    closed spec fn view(&self) -> Seq<char> {
        self.url@
    }
}

impl Target {
    /// Validate one input line. Returns the target exactly when the line is
    /// a well-formed absolute URL; the target carries its normalized form.
    pub fn parse(line: &str) -> (r: Option<Target>)
        ensures
            r is Some <==> normalized_url(line@) is Some,
            r is Some ==> r->0@ == normalized_url(line@)->0,
    {
        match parse_normalized(line) {
            Some(url) => Some(Target { url }),
            None => None,
        }
    }

    /// The target's normalized URL.
    pub fn as_str(&self) -> (r: &str)
        ensures
            r@ == self@,
    {
        self.url.as_str()
    }
}

/// The normalized URLs of the well-formed lines, in input order.
pub open spec fn valid_urls_of(lines: Seq<String>) -> Seq<Seq<char>>
    decreases lines.len(),
{
    if lines.len() == 0 {
        Seq::empty()
    } else {
        let rest = valid_urls_of(lines.drop_last());
        match normalized_url(lines.last()@) {
            Some(u) => rest.push(u),
            None => rest,
        }
    }
}

/// Validate a whole input list: every well-formed line becomes one target,
/// in input order, and every malformed line is dropped.
pub fn validate_targets(lines: &Vec<String>) -> (r: Vec<Target>)
    ensures
        r@.map_values(|t: Target| t@) == valid_urls_of(lines@),
{
    let mut targets: Vec<Target> = Vec::new();
    let mut i: usize = 0;
    while i < lines.len()
        invariant
            i <= lines.len(),
            targets@.map_values(|t: Target| t@) == valid_urls_of(lines@.take(i as int)),
        decreases lines.len() - i,
    {
        proof {
            assert(lines@.take(i + 1).drop_last() =~= lines@.take(i as int));
            assert(lines@.take(i + 1).last() == lines@[i as int]);
        }
        match Target::parse(lines[i].as_str()) {
            Some(t) => targets.push(t),
            None => (),
        }
        proof {
            assert(targets@.map_values(|t: Target| t@) =~= valid_urls_of(lines@.take(i + 1)));
        }
        i = i + 1;
    }
    proof {
        assert(lines@.take(lines@.len() as int) =~= lines@);
    }
    targets
}

} // verus!
