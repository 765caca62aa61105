//! What a watcher tells of a website that has changed its kind of state.

use crate::span::millis_text;
use crate::target::Descriptor;
use crate::website::{WebsiteInfo, WebsiteState};
use vstd::prelude::*;

verus! {

/// How loud a report is.
#[derive(Clone, Copy, Debug, PartialEq, Eq, Structural)]
pub enum Level {
    Info,
    Warn,
}

/// What is told when a website has changed its kind of state: which
/// website it is, the state it is in now, and the same in words.
#[derive(Debug, PartialEq, Eq)]
pub struct Report {
    pub info: WebsiteInfo,
    pub state: WebsiteState,
    pub level: Level,
    pub text: String,
}

/// A `Report` with its texts as sequences of characters.
pub struct ReportView {
    /// The name the website goes by.
    pub name: Seq<char>,
    /// The address of the website as its settings give it.
    pub address: Seq<char>,
    pub state: WebsiteState,
    pub level: Level,
    pub text: Seq<char>,
}

impl View for Report {
    type V = ReportView;

    open spec fn view(&self) -> ReportView {
        ReportView {
            name: self.info.name@,
            address: self.info.url@,
            state: self.state,
            level: self.level,
            text: self.text@,
        }
    }
}

/// The report on a website that is now in `state`: good news quietly, bad
/// news as a warning.
pub open spec fn report_of(descriptor: Descriptor, state: WebsiteState) -> ReportView {
    ReportView {
        name: descriptor.name,
        address: descriptor.address,
        state,
        level: level_of(state),
        text: text_of(descriptor, state),
    }
}

/// How loud the report on a state is: a warning unless the website is up.
pub open spec fn level_of(state: WebsiteState) -> Level {
    if state is Up {
        Level::Info
    } else {
        Level::Warn
    }
}

/// The words of the report on a website that is now in `state`.
pub open spec fn text_of(descriptor: Descriptor, state: WebsiteState) -> Seq<char> {
    match state {
        WebsiteState::Up(latency) => descriptor.url + " is up ("@ + latency.text() + ")"@,
        WebsiteState::Timeout => descriptor.url + " request timed out (timeout="@ + millis_text(
            descriptor.timeout,
        ) + ")"@,
        WebsiteState::Down => descriptor.url + " is down"@,
    }
}

} // verus!
