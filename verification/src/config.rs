//! Launch options, the plan that they resolve to, and the browser
//! configuration that is built from the plan.

use vstd::prelude::*;
use chromiumoxide::browser::{BrowserConfig, BrowserConfigBuilder};
use crate::error::{SessionError, Stage};

verus! {

/// Window width where the options give none.
pub const DEFAULT_WIDTH: u32 = 1920;

/// Window height where the options give none.
pub const DEFAULT_HEIGHT: u32 = 1080;

/// The port reported for every session: the conventional remote-debugging
/// port. It is not read from the connection, so it may differ from the
/// port that the browser really listens on.
pub const REMOTE_DEBUGGING_PORT: u32 = 9222;

/// The options that a caller may give when launching a browser.
#[derive(Debug, Clone, Copy, PartialEq, Eq)]
pub struct ChromiumConfig {
    pub width: Option<u32>,
    pub height: Option<u32>,
    pub headless: Option<bool>,
    pub disable_default_args: Option<bool>,
}

/// What a caller is told about a launched session.
#[derive(Debug, Clone, PartialEq, Eq)]
pub struct ChromiumInstance {
    pub id: String,
    pub url: String,
    pub port: u32,
}

/// Launch options with every default filled in.
#[derive(Debug, Clone, Copy, PartialEq, Eq, Structural)]
pub struct LaunchPlan {
    pub width: u32,
    pub height: u32,
    /// Whether the browser runs without a window.
    pub headless: bool,
    /// Accepted and carried along; nothing acts on it yet.
    pub disable_default_args: bool,
}

/// The value of an option, or `fallback` where it is not given.
pub open spec fn or_default<T>(option: Option<T>, fallback: T) -> T {
    match option {
        Some(value) => value,
        None => fallback,
    }
}

/// The plan that launch options resolve to: the window is 1920 by 1080
/// unless a dimension is given, the browser shows a window unless
/// `headless` is set, and the extra flag is off unless given.
pub open spec fn plan_of(config: Option<ChromiumConfig>) -> LaunchPlan {
    match config {
        Some(options) => LaunchPlan {
            width: or_default(options.width, DEFAULT_WIDTH),
            height: or_default(options.height, DEFAULT_HEIGHT),
            headless: or_default(options.headless, false),
            disable_default_args: or_default(options.disable_default_args, false),
        },
        None => LaunchPlan {
            width: DEFAULT_WIDTH,
            height: DEFAULT_HEIGHT,
            headless: false,
            disable_default_args: false,
        },
    }
}

/// The plan runs the browser in the head mode that was asked for, and
/// with a window where nothing was asked.
pub proof fn lemma_head_mode_as_requested(config: Option<ChromiumConfig>)
    ensures
        match config {
            Some(options) => match options.headless {
                Some(headless) => plan_of(config).headless == headless,
                None => !plan_of(config).headless,
            },
            None => !plan_of(config).headless,
        },
{
}

/// Resolves launch options to a plan.
pub fn launch_plan(config: Option<ChromiumConfig>) -> (plan: LaunchPlan)
    ensures
        plan == plan_of(config),
{
    match config {
        Some(options) => LaunchPlan {
            width: match options.width {
                Some(width) => width,
                None => DEFAULT_WIDTH,
            },
            height: match options.height {
                Some(height) => height,
                None => DEFAULT_HEIGHT,
            },
            headless: match options.headless {
                Some(headless) => headless,
                None => false,
            },
            disable_default_args: match options.disable_default_args {
                Some(flag) => flag,
                None => false,
            },
        },
        None => LaunchPlan {
            width: DEFAULT_WIDTH,
            height: DEFAULT_HEIGHT,
            headless: false,
            disable_default_args: false,
        },
    }
}

/// chromiumoxide's finished browser configuration. Opaque here.
#[verifier::external_type_specification]
#[verifier::external_body]
pub struct ExBrowserConfig(BrowserConfig);

/// chromiumoxide's builder of a browser configuration. Opaque here.
#[verifier::external_type_specification]
#[verifier::external_body]
pub struct ExBrowserConfigBuilder(BrowserConfigBuilder);

/// The window size that a builder was asked for, if it was asked for one.
pub uninterp spec fn asked_window(builder: BrowserConfigBuilder) -> Option<(u32, u32)>;

/// Whether a builder asks for a browser that shows no window.
pub uninterp spec fn asked_headless(builder: BrowserConfigBuilder) -> bool;

/// The window size that a configuration names, if it names one.
pub uninterp spec fn config_window(config: BrowserConfig) -> Option<(u32, u32)>;

/// Whether a configuration is for a browser that shows no window.
pub uninterp spec fn config_headless(config: BrowserConfig) -> bool;

/// Trusted: `BrowserConfig::builder` of chromiumoxide returns a builder
/// with that crate's defaults: no window size, and a browser that shows
/// no window.
pub assume_specification[ BrowserConfig::builder ]() -> (builder: BrowserConfigBuilder)
    ensures
        asked_window(builder) is None,
        asked_headless(builder),
;

/// Trusted: `BrowserConfigBuilder::window_size` of chromiumoxide records
/// the window size in the builder and leaves the head mode as it was.
pub assume_specification[ BrowserConfigBuilder::window_size ](
    builder: BrowserConfigBuilder,
    width: u32,
    height: u32,
) -> (sized: BrowserConfigBuilder)
    ensures
        asked_window(sized) == Some((width, height)),
        asked_headless(sized) == asked_headless(builder),
;

/// Trusted: `BrowserConfigBuilder::with_head` of chromiumoxide makes the
/// builder ask for a browser with a window and leaves the window size as
/// it was.
pub assume_specification[ BrowserConfigBuilder::with_head ](builder: BrowserConfigBuilder) -> (headed:
    BrowserConfigBuilder)
    ensures
        !asked_headless(headed),
        asked_window(headed) == asked_window(builder),
;

/// Trusted: `BrowserConfigBuilder::build` of chromiumoxide looks for a
/// browser executable on this machine and returns a message where it
/// finds none. Nothing is claimed of which it is. A configuration that
/// comes back has the builder's window size and head mode.
pub assume_specification[ BrowserConfigBuilder::build ](builder: BrowserConfigBuilder) -> (built:
    Result<BrowserConfig, String>)
    ensures
        built matches Ok(config) ==> config_window(config) == asked_window(builder)
            && config_headless(config) == asked_headless(builder),
;

/// Turns what the builder returned into the outcome of configuring: the
/// configuration as it is, or a connection failure that quotes the
/// builder's message.
pub fn config_outcome(built: Result<BrowserConfig, String>) -> (outcome: Result<
    BrowserConfig,
    SessionError,
>)
    ensures
        match built {
            Ok(config) => outcome == Ok::<BrowserConfig, SessionError>(config),
            Err(detail) => outcome matches Err(error) && error@ == Stage::BuildConfig.failure(
                detail@,
            ),
        },
{
    match built {
        Ok(config) => Ok(config),
        Err(detail) => Err(Stage::BuildConfig.failed(detail.as_str())),
    }
}

/// Starts the browser's configuration for a plan: asks for the plan's
/// window size, and for a window exactly when the plan is not headless.
/// Everything else is left at chromiumoxide's defaults.
pub fn configured_builder(plan: &LaunchPlan) -> (builder: BrowserConfigBuilder)
    ensures
        asked_window(builder) == Some((plan.width, plan.height)),
        asked_headless(builder) == plan.headless,
{
    let sized = BrowserConfig::builder().window_size(plan.width, plan.height);
    if plan.headless {
        sized
    } else {
        sized.with_head()
    }
}

/// Builds the browser configuration for a plan, from the builder that
/// `configured_builder` gives.
///
/// Whether a configuration comes back depends on the machine (a browser
/// must be installed). One that comes back has the plan's window size and
/// head mode. A failure is always a connection failure whose message
/// starts with the build stage's prefix.
pub fn browser_config(plan: &LaunchPlan) -> (outcome: Result<BrowserConfig, SessionError>)
    ensures
        match outcome {
            Ok(config) => config_window(config) == Some((plan.width, plan.height))
                && config_headless(config) == plan.headless,
            Err(error) => exists|detail: Seq<char>| error@ == Stage::BuildConfig.failure(detail),
        },
{
    config_outcome(configured_builder(plan).build())
}

} // verus!
