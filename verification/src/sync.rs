//! Keeping the installed binary in step with the application: the
//! decision sequence behind a sync run, with the version comparison
//! delegated to the semver crate.

use vstd::prelude::*;
use vstd::string::StrSliceExecFns;
use vstd::string::StringExecFns;

verus! {

/// What semver's precedence order says of two version texts: nothing
/// when either fails to parse as a semantic version, else whether the
/// first is at least the second.
pub uninterp spec fn semver_at_least(a: Seq<char>, b: Seq<char>) -> Option<bool>;

/// Relies on semver::Version::parse and semver's `Ord` for `Version`:
/// both depend on the two texts alone.
#[verifier::external_body]
fn version_at_least(candidate: &str, baseline: &str) -> (r: Option<bool>)
    ensures
        r == semver_at_least(candidate@, baseline@),
{
    match (semver::Version::parse(candidate), semver::Version::parse(baseline)) {
        (Ok(c), Ok(b)) => Some(c >= b),
        _ => None,
    }
}

pub open spec fn is_ws(c: char) -> bool {
    c == ' ' || c == '\t' || c == '\r' || c == '\n'
}

/// The text with leading whitespace removed.
pub open spec fn spec_trim_start(s: Seq<char>) -> Seq<char>
    decreases s.len(),
{
    if s.len() > 0 && is_ws(s[0]) {
        spec_trim_start(s.drop_first())
    } else {
        s
    }
}

/// The text with trailing whitespace removed.
pub open spec fn spec_trim_end(s: Seq<char>) -> Seq<char>
    decreases s.len(),
{
    if s.len() > 0 && is_ws(s.last()) {
        spec_trim_end(s.drop_last())
    } else {
        s
    }
}

/// The text with whitespace removed on both ends.
pub open spec fn spec_trim(s: Seq<char>) -> Seq<char> {
    spec_trim_end(spec_trim_start(s))
}

proof fn lemma_trim_start_at(s: Seq<char>, k: int)
    requires
        0 <= k <= s.len(),
        forall|j: int| 0 <= j < k ==> is_ws(#[trigger] s[j]),
        k == s.len() || !is_ws(s[k]),
    ensures
        spec_trim_start(s) == s.skip(k),
    decreases k,
{
    if k == 0 {
        assert(s.skip(0) =~= s);
    } else {
        lemma_trim_start_at(s.drop_first(), k - 1);
        assert(s.drop_first().skip(k - 1) =~= s.skip(k));
    }
}

proof fn lemma_trim_end_at(s: Seq<char>, k: int)
    requires
        0 <= k <= s.len(),
        forall|j: int| k <= j < s.len() ==> is_ws(#[trigger] s[j]),
        k == 0 || !is_ws(s[k - 1]),
    ensures
        spec_trim_end(s) == s.subrange(0, k),
    decreases s.len(),
{
    if s.len() == k {
        assert(s.subrange(0, k) =~= s);
    } else {
        assert(is_ws(s.last()));
        lemma_trim_end_at(s.drop_last(), k);
        assert(s.drop_last().subrange(0, k) =~= s.subrange(0, k));
    }
}

fn ws_char(c: char) -> (r: bool)
    ensures
        r == is_ws(c),
{
    c == ' ' || c == '\t' || c == '\r' || c == '\n'
}

/// Strips whitespace from both ends, as a probed version text carries a
/// trailing line break.
pub fn trim_ws<'a>(s: &'a str) -> (r: &'a str)
    ensures
        r@ == spec_trim(s@),
{
    let n = s.unicode_len();
    let mut a: usize = 0;
    while a < n && ws_char(s.get_char(a))
        invariant
            0 <= a <= n == s@.len(),
            forall|j: int| 0 <= j < a ==> is_ws(#[trigger] s@[j]),
        decreases n - a,
    {
        a += 1;
    }
    proof {
        lemma_trim_start_at(s@, a as int);
    }
    if a == n {
        let r = s.substring_char(n, n);
        proof {
            assert(s@.skip(n as int) =~= s@.subrange(n as int, n as int));
        }
        return r;
    }
    let mut b: usize = n;
    while b > a && ws_char(s.get_char(b - 1))
        invariant
            a <= b <= n == s@.len(),
            forall|j: int| b <= j < n ==> is_ws(#[trigger] s@[j]),
        decreases b,
    {
        b -= 1;
    }
    let r = s.substring_char(a, b);
    proof {
        let t = s@.skip(a as int);
        assert(forall|j: int|
            b - a <= j < t.len() ==> is_ws(#[trigger] t[j]) == is_ws(s@[a + j]) && is_ws(
                s@[a + j],
            ));
        if b > a {
            assert(!is_ws(t[b - a - 1]));
        }
        lemma_trim_end_at(t, b - a);
        assert(t.subrange(0, b - a) =~= s@.subrange(a as int, b as int));
    }
    r
}

/// The steps of a sync run, in the order their observations arrive.
#[derive(Clone, Copy, Debug, PartialEq, Eq, Structural)]
pub enum SyncPhase {
    /// Is this a debug build?
    Build,
    /// Is the binary installed at all?
    Installed,
    /// Is a home directory known to locate it?
    Home,
    /// What did running the installed binary with its version flag give?
    Probe,
    /// The run is decided.
    Done,
}

/// What probing the installed binary's version gave.
#[derive(Clone, Debug, PartialEq)]
pub enum VersionProbe {
    /// It could not be launched; the failure's description.
    LaunchFailed(String),
    /// It ran but exited unsuccessfully.
    Unsuccessful,
    /// Its reported version text, as printed.
    Output(String),
}

/// The observation for the current phase.
#[derive(Clone, Debug, PartialEq)]
pub enum SyncObs {
    Build(bool),
    Installed(bool),
    Home(bool),
    Probe(VersionProbe),
}

/// What the caller is told after each observation.
#[derive(Clone, Debug, PartialEq)]
pub enum SyncStep {
    /// Observe the next phase.
    Continue,
    /// Nothing to do: debug build, nothing installed, or up to date.
    Skip,
    /// The run failed with this message.
    Fail(String),
    /// The installed binary is older than the application: install.
    Install,
}

/// An observation fits exactly one phase.
pub open spec fn sync_phase_matches(phase: SyncPhase, obs: SyncObs) -> bool {
    match obs {
        SyncObs::Build(_) => phase is Build,
        SyncObs::Installed(_) => phase is Installed,
        SyncObs::Home(_) => phase is Home,
        SyncObs::Probe(_) => phase is Probe,
    }
}

/// The decision sequence of one sync run against a fixed application
/// version.
pub struct SyncFlow {
    pub phase: SyncPhase,
    pub app_version: String,
}

impl SyncFlow {
    pub fn new(app_version: String) -> (f: Self)
        ensures
            f.phase is Build,
            f.app_version == app_version,
    {
        SyncFlow { phase: SyncPhase::Build, app_version }
    }

    /// Advances the run by one observation.  Debug builds and missing
    /// installations are left alone; an unknown home directory or a
    /// failed probe fail the run; an up-to-date binary is kept; only a
    /// strictly older one leads to an installation.
    pub fn advance(&mut self, obs: SyncObs) -> (r: SyncStep)
        requires
            sync_phase_matches(old(self).phase, obs),
        ensures
            final(self).app_version == old(self).app_version,
            obs matches SyncObs::Build(debug) ==> r == (if debug {
                SyncStep::Skip
            } else {
                SyncStep::Continue
            }) && final(self).phase == (if debug {
                SyncPhase::Done
            } else {
                SyncPhase::Installed
            }),
            obs matches SyncObs::Installed(installed) ==> r == (if installed {
                SyncStep::Continue
            } else {
                SyncStep::Skip
            }) && final(self).phase == (if installed {
                SyncPhase::Home
            } else {
                SyncPhase::Done
            }),
            obs matches SyncObs::Home(found) ==> {
                &&& found ==> r == SyncStep::Continue && final(self).phase is Probe
                &&& !found ==> (r matches SyncStep::Fail(m) && m@
                    == "Could not determine CLI install path"@) && final(self).phase is Done
            },
            obs matches SyncObs::Probe(p) ==> final(self).phase is Done && match p {
                VersionProbe::LaunchFailed(e) => r matches SyncStep::Fail(m) && m@
                    == "Failed to get CLI version: "@ + e@,
                VersionProbe::Unsuccessful => r matches SyncStep::Fail(m) && m@
                    == "Failed to get CLI version"@,
                VersionProbe::Output(out) => {
                    let cmp = semver_at_least(spec_trim(out@), old(self).app_version@);
                    &&& cmp == Some(true) ==> r == SyncStep::Skip
                    &&& cmp == Some(false) ==> r == SyncStep::Install
                    &&& cmp is None ==> (r matches SyncStep::Fail(m) && m@
                        == "Failed to parse CLI version '"@ + spec_trim(out@) + "'"@)
                },
            },
    {
        match obs {
            SyncObs::Build(debug) => {
                if debug {
                    self.phase = SyncPhase::Done;
                    SyncStep::Skip
                } else {
                    self.phase = SyncPhase::Installed;
                    SyncStep::Continue
                }
            },
            SyncObs::Installed(installed) => {
                if installed {
                    self.phase = SyncPhase::Home;
                    SyncStep::Continue
                } else {
                    self.phase = SyncPhase::Done;
                    SyncStep::Skip
                }
            },
            SyncObs::Home(found) => {
                if found {
                    self.phase = SyncPhase::Probe;
                    SyncStep::Continue
                } else {
                    self.phase = SyncPhase::Done;
                    SyncStep::Fail(String::from_str("Could not determine CLI install path"))
                }
            },
            SyncObs::Probe(p) => {
                self.phase = SyncPhase::Done;
                match p {
                    VersionProbe::LaunchFailed(e) => {
                        let mut m = String::from_str("Failed to get CLI version: ");
                        m.append(e.as_str());
                        SyncStep::Fail(m)
                    },
                    VersionProbe::Unsuccessful => SyncStep::Fail(
                        String::from_str("Failed to get CLI version"),
                    ),
                    VersionProbe::Output(out) => {
                        let trimmed = trim_ws(out.as_str());
                        match version_at_least(trimmed, self.app_version.as_str()) {
                            Some(true) => SyncStep::Skip,
                            Some(false) => SyncStep::Install,
                            None => {
                                let mut m = String::from_str("Failed to parse CLI version '");
                                m.append(trimmed);
                                m.append("'");
                                SyncStep::Fail(m)
                            },
                        }
                    },
                }
            },
        }
    }
}

} // verus!
