//! Edge-triggered health monitoring of web endpoints.
//!
//! Each website has a watcher that takes in the outcome of one check after
//! the other and reports only when the kind of state changes: up, timed out,
//! or down.

use vstd::prelude::*;

pub mod arguments;
pub mod check;
pub mod config;
pub mod probe;
pub mod registry;
pub mod report;
pub mod span;
pub mod target;
pub mod website;

pub use arguments::Args;

use check::{started, StartError, WebsiteChecker};
use config::{Config, Global};
use target::effective;

verus! {

/// The global settings once the command line has had its say: an interval
/// given there replaces the default interval.
pub open spec fn overridden(global: Global, check_time_s: Option<u64>) -> Global {
    Global {
        default_interval: effective(check_time_s, global.default_interval),
        default_timeout: global.default_timeout,
    }
}

/// Prepares a run over the websites of `cfg`, with the interval of `args`,
/// where it names one, in place of the default interval: the checker with
/// their watchers, or the refusal to start where no website can be watched.
pub fn run(args: &Args, cfg: Config) -> (checker: Result<WebsiteChecker, StartError>)
    ensures
        started(cfg.websites@, overridden(cfg.global, args.check_time_s), checker),
{
    let mut cfg = cfg;
    cfg.override_default_interval(args.check_time_s);
    WebsiteChecker::new(&cfg)
}

} // verus!
