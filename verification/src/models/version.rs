//! Semantic versions of datasets.

use vstd::prelude::*;

verus! {

/// A semantic version `MAJOR.MINOR.PATCH[-PRE][+BUILD]`; `pre` and `build` are empty when absent.
#[derive(Clone, Debug, PartialEq, Eq)]
pub struct Version {
    pub major: u64,
    pub minor: u64,
    pub patch: u64,
    pub pre: String,
    pub build: String,
}

impl Version {
    /// The five parts of the version as plain values.
    pub open spec fn parts(self) -> (u64, u64, u64, Seq<char>, Seq<char>) {
        (self.major, self.minor, self.patch, self.pre@, self.build@)
    }
}

/// What `semver::Version::parse` yields for `text`: its five parts, or `None` where it
/// reports an error.
pub uninterp spec fn semver_parse(text: Seq<char>) -> Option<(u64, u64, u64, Seq<char>, Seq<char>)>;

/// Calls `semver::Version::parse`. The contract names its outcome (`semver_parse`), taken
/// part by part; the SemVer grammar that decides it is not written out here.
#[verifier::external_body]
fn semver_parse_call(text: &str) -> (res: Option<Version>)
    ensures
        match semver_parse(text@) {
            None => res is None,
            Some(p) => res matches Some(v) && v.parts() == p,
        },
{
    match semver::Version::parse(text) {
        Ok(v) => Some(
            Version {
                major: v.major,
                minor: v.minor,
                patch: v.patch,
                pre: v.pre.as_str().to_string(),
                build: v.build.as_str().to_string(),
            },
        ),
        Err(_) => None,
    }
}

/// Parses `text` as a semantic version; `None` when it is not one.
pub fn parse_version(text: &str) -> (res: Option<Version>)
    ensures
        res is Some <==> semver_parse(text@) is Some,
        res matches Some(v) ==> Some(v.parts()) == semver_parse(text@),
{
    semver_parse_call(text)
}

/// The decimal digit for `d < 10`.
pub open spec fn digit_char(d: nat) -> char {
    if d == 0 { '0' }
    else if d == 1 { '1' }
    else if d == 2 { '2' }
    else if d == 3 { '3' }
    else if d == 4 { '4' }
    else if d == 5 { '5' }
    else if d == 6 { '6' }
    else if d == 7 { '7' }
    else if d == 8 { '8' }
    else { '9' }
}

/// The decimal notation of `n`, without sign or leading zeros.
pub open spec fn decimal(n: nat) -> Seq<char>
    decreases n,
{
    if n < 10 {
        seq![digit_char(n)]
    } else {
        decimal(n / 10).push(digit_char(n % 10))
    }
}

fn digit(d: u64) -> (c: char)
    requires
        d < 10,
    ensures
        c == digit_char(d as nat),
{
    if d == 0 { '0' }
    else if d == 1 { '1' }
    else if d == 2 { '2' }
    else if d == 3 { '3' }
    else if d == 4 { '4' }
    else if d == 5 { '5' }
    else if d == 6 { '6' }
    else if d == 7 { '7' }
    else if d == 8 { '8' }
    else { '9' }
}

fn decimal_chars(n: u64) -> (res: Vec<char>)
    ensures
        res@ == decimal(n as nat),
    decreases n,
{
    if n < 10 {
        let mut v = Vec::new();
        v.push(digit(n));
        v
    } else {
        let mut v = decimal_chars(n / 10);
        v.push(digit(n % 10));
        v
    }
}

/// The decimal text of `n`, as `u64`'s `Display` writes it.
pub fn decimal_text(n: u64) -> (res: String)
    ensures
        res@ == decimal(n as nat),
{
    let v = decimal_chars(n);
    crate::text::string_of(&v)
}

/// The text of a version as `semver` prints it: `MAJOR.MINOR.PATCH`, then `-PRE` when
/// there is a pre-release part and `+BUILD` when there is build metadata.
pub open spec fn version_text(major: u64, minor: u64, patch: u64, pre: Seq<char>, build: Seq<char>) -> Seq<char> {
    let core = decimal(major as nat) + seq!['.'] + decimal(minor as nat) + seq!['.'] + decimal(patch as nat);
    let with_pre = if pre.len() == 0 { core } else { core + seq!['-'] + pre };
    if build.len() == 0 { with_pre } else { with_pre + seq!['+'] + build }
}

impl Version {
    /// The printed form of this version.
    pub fn text(&self) -> (res: String)
        ensures
            res@ == version_text(self.major, self.minor, self.patch, self.pre@, self.build@),
    {
        let mut out = decimal_text(self.major);
        out.append(".");
        out.append(decimal_text(self.minor).as_str());
        out.append(".");
        out.append(decimal_text(self.patch).as_str());
        proof {
            reveal_strlit(".");
            reveal_strlit("-");
            reveal_strlit("+");
        }
        if !self.pre.as_str().is_empty() {
            out.append("-");
            out.append(self.pre.as_str());
        }
        if !self.build.as_str().is_empty() {
            out.append("+");
            out.append(self.build.as_str());
        }
        out
    }
}

} // verus!
