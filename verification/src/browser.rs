//! The browser descriptor, the capability request, and the match predicate.
//!
//! A [`BrowserConfig`] describes one configured, launchable browser variant;
//! a [`Capabilities`] value holds one client's requested browser name,
//! version and platform. [`BrowserConfig::matches_capabilities`] decides
//! whether the configured browser satisfies the request.

use vstd::prelude::*;

use crate::fold::{lower_of, lowercase};

verus! {

/// Default maximum number of concurrent sessions one driver process serves.
pub fn default_sessions_per_driver() -> (r: u32)
    ensures
        r == 1u32,
{
    1
}

/// Default maximum number of concurrent sessions across all driver
/// processes of one configured browser.
pub fn default_max_sessions() -> (r: u32)
    ensures
        r == 5u32,
{
    5
}

/// Mathematical model of a configured browser.
pub ghost struct BrowserConfigView {
    pub name: Seq<char>,
    pub version: Option<Seq<char>>,
    pub os: Option<Seq<char>>,
    pub driver_path: Seq<char>,
    pub args: Option<Seq<Seq<char>>>,
    pub sessions_per_driver: u32,
    pub max_sessions: u32,
}

/// Mathematical model of a client's requested browser: the triple of
/// constraints that the matcher reads. `None` means "unspecified".
pub ghost struct RequestView {
    pub browser_name: Seq<char>,
    pub browser_version: Option<Seq<char>>,
    pub platform_name: Option<Seq<char>>,
}

/// One configured, launchable browser variant. Constructed once from
/// configuration, immutable thereafter; `None` in `version` or `os` means
/// that the attribute is unknown.
#[derive(Debug, Clone)]
pub struct BrowserConfig {
    name: String,
    version: Option<String>,
    os: Option<String>,
    driver_path: String,
    args: Option<Vec<String>>,
    sessions_per_driver: u32,
    max_sessions: u32,
}

impl View for BrowserConfig {
    type V = BrowserConfigView;

    closed spec fn view(&self) -> BrowserConfigView {
        BrowserConfigView {
            name: self.name@,
            version: self.version.deep_view(),
            os: self.os.deep_view(),
            driver_path: self.driver_path@,
            args: self.args.deep_view(),
            sessions_per_driver: self.sessions_per_driver,
            max_sessions: self.max_sessions,
        }
    }
}

/// The name check: both names fold to the same characters.
pub open spec fn name_ok(descriptor_name: Seq<char>, requested_name: Seq<char>) -> bool {
    lower_of(descriptor_name) == lower_of(requested_name)
}

/// The version check: an absent or empty requested version is satisfied by
/// anything; a non-empty one only by a known, identical descriptor version
/// (exact, case-sensitive equality).
pub open spec fn version_ok(
    descriptor_version: Option<Seq<char>>,
    requested_version: Option<Seq<char>>,
) -> bool {
    match requested_version {
        None => true,
        Some(rv) => rv.len() == 0 || descriptor_version == Some(rv),
    }
}

/// The platform check: an absent requested platform, or one that folds to
/// the wildcard "any", is satisfied by anything; any other requested
/// platform only by a known descriptor platform that folds to the same
/// characters.
pub open spec fn platform_ok(
    descriptor_os: Option<Seq<char>>,
    requested_platform: Option<Seq<char>>,
) -> bool {
    match requested_platform {
        None => true,
        Some(rp) => lower_of(rp) == "any"@ || (descriptor_os matches Some(os)
            && lower_of(os) == lower_of(rp)),
    }
}

/// The whole match predicate: name, version and platform checks together.
pub open spec fn spec_matches(d: BrowserConfigView, r: RequestView) -> bool {
    &&& name_ok(d.name, r.browser_name)
    &&& version_ok(d.version, r.browser_version)
    &&& platform_ok(d.os, r.platform_name)
}

impl BrowserConfig {
    /// Builds a descriptor from its fields.
    pub fn new(
        name: String,
        version: Option<String>,
        os: Option<String>,
        driver_path: String,
        args: Option<Vec<String>>,
        sessions_per_driver: u32,
        max_sessions: u32,
    ) -> (r: Self)
        ensures
            r@ == (BrowserConfigView {
                name: name@,
                version: version.deep_view(),
                os: os.deep_view(),
                driver_path: driver_path@,
                args: args.deep_view(),
                sessions_per_driver,
                max_sessions,
            }),
    {
        BrowserConfig { name, version, os, driver_path, args, sessions_per_driver, max_sessions }
    }

    /// The configured browser name.
    pub fn name(&self) -> (r: &str)
        ensures
            r@ == self@.name,
    {
        self.name.as_str()
    }

    /// Path of the driver executable.
    pub fn driver_path(&self) -> (r: &str)
        ensures
            r@ == self@.driver_path,
    {
        self.driver_path.as_str()
    }

    /// The launch arguments, if any were configured.
    pub fn args(&self) -> (r: &Option<Vec<String>>)
        ensures
            r.deep_view() == self@.args,
    {
        &self.args
    }

    /// Maximum concurrent sessions one driver process may serve.
    pub fn sessions_per_driver(&self) -> (r: u32)
        ensures
            r == self@.sessions_per_driver,
    {
        self.sessions_per_driver
    }

    /// Maximum concurrent sessions across all driver processes of this
    /// descriptor.
    pub fn max_sessions(&self) -> (r: u32)
        ensures
            r == self@.max_sessions,
    {
        self.max_sessions
    }

    /// Does this browser match the capabilities we are searching for?
    /// The browser name must match, case-insensitively. For version and
    /// platform: a requirement the request leaves unspecified is skipped
    /// (for the version, an empty string also counts as unspecified; for
    /// the platform, the wildcard "any", case-insensitively); a specified
    /// requirement is met only by a descriptor whose attribute is known
    /// and equal (exactly for the version, case-insensitively for the
    /// platform).
    pub fn matches_capabilities(&self, capabilities: &Capabilities) -> (r: bool)
        ensures
            r == spec_matches(self@, capabilities@),
    {
        let own_name = lowercase(self.name.as_str());
        let requested_name = lowercase(capabilities.browser_name());
        if !(own_name == requested_name) {
            return false;
        }

        match capabilities.browser_version() {
            Some(required_version) => {
                if !required_version.as_str().is_empty() {
                    match &self.version {
                        Some(v) => {
                            if !(*v == *required_version) {
                                return false;
                            }
                        },
                        None => {
                            return false;
                        },
                    }
                }
            },
            None => {},
        }

        match capabilities.platform_name() {
            Some(required_os) => {
                let requested = lowercase(required_os.as_str());
                let wildcard: String = "any".to_owned();
                if !(requested == wildcard) {
                    match &self.os {
                        Some(os) => {
                            let own_os = lowercase(os.as_str());
                            if !(own_os == requested) {
                                return false;
                            }
                        },
                        None => {
                            return false;
                        },
                    }
                }
            },
            None => {},
        }

        true
    }
}

/// The requested browser name, version and platform, as carried inside the
/// request's `alwaysMatch` object.
#[derive(Debug)]
pub struct BrowserMatch {
    browser_name: String,
    browser_version: Option<String>,
    platform_name: Option<String>,
}

impl View for BrowserMatch {
    type V = RequestView;

    closed spec fn view(&self) -> RequestView {
        RequestView {
            browser_name: self.browser_name@,
            browser_version: self.browser_version.deep_view(),
            platform_name: self.platform_name.deep_view(),
        }
    }
}

impl BrowserMatch {
    /// Builds the requested triple from its fields.
    pub fn new(
        browser_name: String,
        browser_version: Option<String>,
        platform_name: Option<String>,
    ) -> (r: Self)
        ensures
            r@ == (RequestView {
                browser_name: browser_name@,
                browser_version: browser_version.deep_view(),
                platform_name: platform_name.deep_view(),
            }),
    {
        BrowserMatch { browser_name, browser_version, platform_name }
    }
}

/// One incoming client request for a browser session: the capabilities
/// object, whose `alwaysMatch` member carries the requested triple.
#[derive(Debug)]
pub struct Capabilities {
    always_match: BrowserMatch,
}

impl View for Capabilities {
    type V = RequestView;

    closed spec fn view(&self) -> RequestView {
        self.always_match@
    }
}

impl Capabilities {
    /// Builds a request around its `alwaysMatch` triple.
    pub fn new(always_match: BrowserMatch) -> (r: Self)
        ensures
            r@ == always_match@,
    {
        Capabilities { always_match }
    }

    /// The requested browser name.
    pub fn browser_name(&self) -> (r: &str)
        ensures
            r@ == self@.browser_name,
    {
        self.always_match.browser_name.as_str()
    }

    /// The requested browser version, if one was given.
    pub fn browser_version(&self) -> (r: &Option<String>)
        ensures
            r.deep_view() == self@.browser_version,
    {
        &self.always_match.browser_version
    }

    /// The requested platform, if one was given.
    pub fn platform_name(&self) -> (r: &Option<String>)
        ensures
            r.deep_view() == self@.platform_name,
    {
        &self.always_match.platform_name
    }
}

/// Law: the matcher is pure. Its result is a function of the descriptor and
/// request views alone, so any two calls on unchanged values agree.
pub proof fn lemma_matches_deterministic(
    d: BrowserConfigView,
    r: RequestView,
    first: bool,
    second: bool,
)
    requires
        first == spec_matches(d, r),
        second == spec_matches(d, r),
    ensures
        first == second,
{
}

/// Law: name matching is case-insensitive. Two requests whose browser names
/// fold to the same characters, and that agree elsewhere, are matched alike
/// by every descriptor.
pub proof fn lemma_name_case_insensitive(d: BrowserConfigView, r1: RequestView, r2: RequestView)
    requires
        lower_of(r1.browser_name) == lower_of(r2.browser_name),
        r1.browser_version == r2.browser_version,
        r1.platform_name == r2.platform_name,
    ensures
        spec_matches(d, r1) == spec_matches(d, r2),
{
}

/// Law: an explicit, non-empty requested version is satisfied exactly by a
/// descriptor whose version is known and identical, while an absent or
/// empty requested version is satisfied by every descriptor version.
pub proof fn lemma_version_rules(dv: Option<Seq<char>>, rv: Seq<char>)
    ensures
        rv.len() > 0 ==> (version_ok(dv, Some(rv)) <==> dv == Some(rv)),
        rv.len() == 0 ==> version_ok(dv, Some(rv)),
        version_ok(dv, None),
{
}

/// Law: an unknown descriptor version rejects an explicit version request.
pub proof fn lemma_unknown_version_rejects(rv: Seq<char>)
    requires
        rv.len() > 0,
    ensures
        !version_ok(None, Some(rv)),
{
}

/// Law: a requested platform that folds to "any" is a wildcard: the
/// platform check passes for every descriptor platform, known or unknown.
pub proof fn lemma_platform_any_wildcard(dp: Option<Seq<char>>, rp: Seq<char>)
    requires
        lower_of(rp) == "any"@,
    ensures
        platform_ok(dp, Some(rp)),
{
}

/// Law: an unknown descriptor platform rejects an explicit (non-wildcard)
/// platform request.
pub proof fn lemma_unknown_platform_rejects(rp: Seq<char>)
    requires
        lower_of(rp) != "any"@,
    ensures
        !platform_ok(None, Some(rp)),
{
}

/// Law: platform matching is case-insensitive. An explicit (non-wildcard)
/// platform request is satisfied exactly by a known descriptor platform
/// that folds to the same characters.
pub proof fn lemma_platform_case_insensitive(dp: Seq<char>, rp: Seq<char>)
    requires
        lower_of(rp) != "any"@,
    ensures
        platform_ok(Some(dp), Some(rp)) <==> lower_of(dp) == lower_of(rp),
{
}

} // verus!
