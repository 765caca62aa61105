//! What is to be watched, and how: the configuration as the program holds it.

use crate::registry::Registry;
use vstd::prelude::*;

verus! {

/// Seconds between two checks of a website, where nothing else is said.
pub const DEFAULT_INTERVAL: u64 = 60;

/// Milliseconds a website is given to answer, where nothing else is said.
pub const DEFAULT_TIMEOUT: u64 = 10_000;

/// The whole configuration: what holds for all websites, the websites by
/// name, and the notifiers by name.
#[derive(Debug, PartialEq, Eq)]
pub struct Config {
    pub global: Global,
    pub websites: Registry<Website>,
    pub notifiers: Registry<Notifier>,
}

impl Default for Config {
    /// What an empty configuration amounts to: the default settings, no
    /// website, no notifier.
    fn default() -> (cfg: Self)
        ensures
            cfg.global.default_interval == DEFAULT_INTERVAL,
            cfg.global.default_timeout == DEFAULT_TIMEOUT,
            cfg.websites@.len() == 0,
            cfg.notifiers@.len() == 0,
    {
        Config { global: Global::default(), websites: Registry::new(), notifiers: Registry::new() }
    }
}

impl Config {
    /// Sets the interval for websites that name none to `check_time_s`
    /// seconds, where one is given; everything else stays.
    pub fn override_default_interval(&mut self, check_time_s: Option<u64>)
        ensures
            final(self).global.default_interval == match check_time_s {
                Some(seconds) => seconds,
                None => old(self).global.default_interval,
            },
            final(self).global.default_timeout == old(self).global.default_timeout,
            final(self).websites == old(self).websites,
            final(self).notifiers == old(self).notifiers,
    {
        if let Some(default_interval) = check_time_s {
            self.global.default_interval = default_interval;
        }
    }
}

/// Settings for the websites that do not set their own.
#[derive(Clone, Copy, Debug, PartialEq, Eq, Structural)]
pub struct Global {
    /// Seconds between two checks of a website.
    pub default_interval: u64,
    /// Milliseconds a website is given to answer.
    pub default_timeout: u64,
}

impl Global {
    /// Seconds between two checks of a website, where nothing else is said.
    pub fn get_default_interval() -> (seconds: u64)
        ensures
            seconds == DEFAULT_INTERVAL,
    {
        DEFAULT_INTERVAL
    }

    /// Milliseconds a website is given to answer, where nothing else is said.
    pub fn get_default_timeout() -> (millis: u64)
        ensures
            millis == DEFAULT_TIMEOUT,
    {
        DEFAULT_TIMEOUT
    }
}

impl Default for Global {
    fn default() -> (global: Self)
        ensures
            global.default_interval == DEFAULT_INTERVAL,
            global.default_timeout == DEFAULT_TIMEOUT,
    {
        Self {
            default_interval: Self::get_default_interval(),
            default_timeout: Self::get_default_timeout(),
        }
    }
}

/// One website to watch.
#[derive(Debug, PartialEq, Eq)]
pub struct Website {
    pub url: String,
    pub method: Method,
    pub request: String,
    /// Seconds between two checks; the global default where absent.
    pub interval: Option<u64>,
    /// Milliseconds to wait for an answer; the global default where absent.
    pub timeout: Option<u64>,
}

/// A website's settings with its texts as sequences of characters.
pub struct WebsiteView {
    pub url: Seq<char>,
    pub method: Method,
    pub request: Seq<char>,
    pub interval: Option<u64>,
    pub timeout: Option<u64>,
}

impl View for Website {
    type V = WebsiteView;

    open spec fn view(&self) -> WebsiteView {
        WebsiteView {
            url: self.url@,
            method: self.method,
            request: self.request@,
            interval: self.interval,
            timeout: self.timeout,
        }
    }
}

/// The HTTP method of a check.
#[derive(Clone, Copy, Debug, PartialEq, Eq, Structural)]
pub enum Method {
    HEAD,
    GET,
    POST,
}

impl Default for Method {
    fn default() -> (method: Self)
        ensures
            method == Method::HEAD,
    {
        Self::HEAD
    }
}

/// A command to run when a website changes its state.
#[derive(Debug, PartialEq, Eq)]
pub struct Command {
    pub cmd: String,
    pub args: Vec<String>,
}

/// A Telegram chat to tell when a website changes its state.
#[derive(Debug, PartialEq, Eq)]
pub struct Telegram {
    pub token: String,
    pub chat: String,
}

/// A way to tell of a change.
#[derive(Debug, PartialEq, Eq)]
pub enum Notifier {
    Command(Command),
    Telegram(Telegram),
}

impl Notifier {
    /// The command, where the notifier is one.
    pub fn as_command(&self) -> (command: Option<&Command>)
        ensures
            command == match *self {
                Notifier::Command(cmd) => Some(&cmd),
                Notifier::Telegram(_) => None,
            },
    {
        match self {
            Self::Command(cmd) => Some(cmd),
            _ => None,
        }
    }

    /// The Telegram chat, where the notifier is one.
    pub fn as_telegram(&self) -> (telegram: Option<&Telegram>)
        ensures
            telegram == match *self {
                Notifier::Telegram(tb) => Some(&tb),
                Notifier::Command(_) => None,
            },
    {
        match self {
            Self::Telegram(tb) => Some(tb),
            _ => None,
        }
    }
}

} // verus!
