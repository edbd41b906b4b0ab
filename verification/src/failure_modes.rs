//! The failure-mode configuration model: parsing the configuration text,
//! the default, and the two artifacts a mode induces — the boundary
//! interceptor strategy and the method-level failure flag.

use crate::rpc::RpcError;
use vstd::prelude::*;
use vstd::string::StrSliceExecFns;
use vstd::string::StringExecFns;

verus! {

/// Error for a configuration string that names no supported failure mode.
/// Fatal at startup: the process must not start serving on it.
#[derive(Debug)]
pub struct Error {
    text: String,
}

impl Error {
    /// The offending configuration text, exactly as it was given.
    pub closed spec fn spec_text(self) -> Seq<char> {
        self.text@
    }

    /// Returns the offending configuration text.
    pub fn text(&self) -> (t: &str)
        ensures
            t@ == self.spec_text(),
    {
        self.text.as_str()
    }

    /// Returns the full description: the offending text and the supported
    /// values.
    pub fn message(&self) -> (m: String)
        ensures
            m@ == "FAILURE_MODE of '"@ + self.spec_text()
                + "' not supported. Try 'INTERCEPTOR', 'METHOD', or 'NONE'"@,
    {
        let mut m = String::from_str("FAILURE_MODE of '");
        m.append(self.text.as_str());
        m.append("' not supported. Try 'INTERCEPTOR', 'METHOD', or 'NONE'");
        m
    }
}

/// The code point of `c` with an ASCII capital letter taken to its small
/// letter; every other character is left as it is.
pub open spec fn fold_char(c: char) -> int {
    let u = c as u32;
    if 65 <= u && u <= 90 {
        u + 32
    } else {
        u as int
    }
}

/// Two character sequences agree letter for letter up to ASCII case.
pub open spec fn folds_same(s: Seq<char>, t: Seq<char>) -> bool {
    s.len() == t.len() && forall|i: int|
        0 <= i < s.len() ==> #[trigger] fold_char(s[i]) == fold_char(t[i])
}

fn fold_char_exec(c: char) -> (r: u32)
    ensures
        r as int == fold_char(c),
{
    let u: u32 = c as u32;
    if 65 <= u && u <= 90 {
        u + 32
    } else {
        u
    }
}

fn chars_fold_same(a: char, b: char) -> (r: bool)
    ensures
        r == (fold_char(a) == fold_char(b)),
{
    fold_char_exec(a) == fold_char_exec(b)
}

fn matches_keyword(s: &str, kw: &str) -> (r: bool)
    ensures
        r == folds_same(s@, kw@),
{
    let n = s.unicode_len();
    if n != kw.unicode_len() {
        return false;
    }
    for i in 0..n
        invariant
            n == s@.len(),
            n == kw@.len(),
            forall|j: int| 0 <= j < i ==> #[trigger] fold_char(s@[j]) == fold_char(kw@[j]),
    {
        if !chars_fold_same(s.get_char(i), kw.get_char(i)) {
            return false;
        }
    }
    true
}

/// Configurable failure modes of the mock service.
#[derive(Clone, Copy, Debug, PartialEq, Eq, Structural)]
pub enum FailureMode {
    NoFailure,
    Interceptor,
    Method,
}

/// What a configuration string denotes: the matching mode, or nothing when
/// the text, compared without regard to ASCII case, is none of
/// `interceptor`, `method` and `none`.
pub open spec fn spec_parse(s: Seq<char>) -> Option<FailureMode> {
    if folds_same(s, "interceptor"@) {
        Some(FailureMode::Interceptor)
    } else if folds_same(s, "method"@) {
        Some(FailureMode::Method)
    } else if folds_same(s, "none"@) {
        Some(FailureMode::NoFailure)
    } else {
        None
    }
}

/// Per-request strategy the transport layer installs ahead of every service
/// method: approve every request, or reject every request at the boundary.
#[derive(Clone, Copy, Debug, PartialEq, Eq, Structural)]
pub enum InterceptPolicy {
    ApproveAll,
    RejectAll,
}

impl InterceptPolicy {
    /// The boundary decision this strategy takes on any one inbound request.
    pub open spec fn spec_intercept(self) -> Result<(), RpcError> {
        match self {
            InterceptPolicy::ApproveAll => Ok(()),
            InterceptPolicy::RejectAll => Err(RpcError::BoundaryRejected),
        }
    }

    /// Decides one inbound request at the boundary, before any service
    /// method runs. The decision reads only the strategy, so it is safe to
    /// take concurrently for any number of in-flight requests.
    pub fn intercept(&self) -> (r: Result<(), RpcError>)
        ensures
            r == self.spec_intercept(),
    {
        match self {
            InterceptPolicy::ApproveAll => Ok(()),
            InterceptPolicy::RejectAll => Err(RpcError::BoundaryRejected),
        }
    }
}

impl FailureMode {
    /// The method-level failure flag this mode induces in the service:
    /// only `Method` makes the method bodies fail.
    pub open spec fn spec_should_fail_in_method(self) -> bool {
        self is Method
    }

    /// Returns the method-level failure flag this mode induces.
    pub fn should_fail_in_method(&self) -> (b: bool)
        ensures
            b == self.spec_should_fail_in_method(),
    {
        matches!(self, FailureMode::Method)
    }

    /// The interceptor strategy this mode induces: only `Interceptor`
    /// rejects at the boundary.
    pub open spec fn spec_interceptor(self) -> InterceptPolicy {
        match self {
            FailureMode::Interceptor => InterceptPolicy::RejectAll,
            _ => InterceptPolicy::ApproveAll,
        }
    }

    /// Derives the interceptor strategy from the failure configuration.
    pub fn to_interceptor(&self) -> (p: InterceptPolicy)
        ensures
            p == self.spec_interceptor(),
    {
        match self {
            FailureMode::Interceptor => InterceptPolicy::RejectAll,
            _ => InterceptPolicy::ApproveAll,
        }
    }

    /// Parses configuration text, without regard to ASCII case, into a mode.
    /// Any other text — the empty string included — is rejected with an
    /// error carrying the text.
    pub fn from_str(input: &str) -> (r: Result<FailureMode, Error>)
        ensures
            match r {
                Ok(mode) => spec_parse(input@) == Some(mode),
                Err(e) => spec_parse(input@) is None && e.spec_text() == input@,
            },
    {
        if matches_keyword(input, "interceptor") {
            Ok(FailureMode::Interceptor)
        } else if matches_keyword(input, "method") {
            Ok(FailureMode::Method)
        } else if matches_keyword(input, "none") {
            Ok(FailureMode::NoFailure)
        } else {
            Err(Error { text: String::from_str(input) })
        }
    }

    /// Resolves optional configuration: absent configuration is a decision
    /// for the default mode `NoFailure`, not a parse attempt; present text is
    /// parsed as `from_str` does.
    pub fn from_config(config: Option<&str>) -> (r: Result<FailureMode, Error>)
        ensures
            match config {
                Option::None => r == Ok::<FailureMode, Error>(FailureMode::NoFailure),
                Option::Some(s) => match r {
                    Ok(mode) => spec_parse(s@) == Some(mode),
                    Err(e) => spec_parse(s@) is None && e.spec_text() == s@,
                },
            },
    {
        match config {
            Option::None => Ok(FailureMode::NoFailure),
            Option::Some(s) => FailureMode::from_str(s),
        }
    }
}

impl Default for FailureMode {
    /// The default mode, used when no configuration is supplied.
    fn default() -> (r: Self)
        ensures
            r == FailureMode::NoFailure,
    {
        FailureMode::NoFailure
    }
}

proof fn lemma_folds_same_switch(s: Seq<char>, t: Seq<char>, kw: Seq<char>)
    requires
        folds_same(s, t),
    ensures
        folds_same(s, kw) == folds_same(t, kw),
{
    if folds_same(s, kw) {
        assert forall|i: int| 0 <= i < t.len() implies #[trigger] fold_char(t[i])
            == fold_char(kw[i]) by {
            assert(fold_char(s[i]) == fold_char(t[i]));
            assert(fold_char(s[i]) == fold_char(kw[i]));
        }
    }
    if folds_same(t, kw) {
        assert forall|i: int| 0 <= i < s.len() implies #[trigger] fold_char(s[i])
            == fold_char(kw[i]) by {
            assert(fold_char(s[i]) == fold_char(t[i]));
            assert(fold_char(t[i]) == fold_char(kw[i]));
        }
    }
}

/// Parsing is insensitive to ASCII case: two configuration strings that
/// agree letter for letter up to case parse to the same outcome.
pub proof fn lemma_parse_case_insensitive(s: Seq<char>, t: Seq<char>)
    requires
        folds_same(s, t),
    ensures
        spec_parse(s) == spec_parse(t),
{
    lemma_folds_same_switch(s, t, "interceptor"@);
    lemma_folds_same_switch(s, t, "method"@);
    lemma_folds_same_switch(s, t, "none"@);
}

} // verus!
