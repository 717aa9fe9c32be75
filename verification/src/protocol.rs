//! The exchange between the decision logic and whoever drives the browser:
//! the logic names an action, the driver performs it and reports an event.

use vstd::prelude::*;
use crate::models::{Link, LinkView, link_views};

verus! {

/// Milliseconds that a page load is given.
pub const NAVIGATION_TIMEOUT_MS: u64 = 30000;

/// What the driver is asked to do next.
#[derive(Debug)]
pub enum Action {
    /// Make the engine ready and open a fresh page for this call.
    OpenPage,
    /// Load `url` in the page, until its document is parsed or
    /// `timeout_millis` milliseconds have passed.
    Navigate { url: String, timeout_millis: u64 },
    /// Evaluate `script` in the page and report its value as text.
    Evaluate { script: String },
    /// Evaluate `script` in the page and report the links it lists.
    ReadLinks { script: String },
    /// Click the element that `selector` designates.
    Click { selector: String },
    /// Wait for `millis` milliseconds.
    Sleep { millis: u64 },
    /// Nothing more: the outcome is final.
    Done,
}

/// Mathematical value of an [`Action`].
pub enum ActionView {
    OpenPage,
    Navigate { url: Seq<char>, timeout_millis: nat },
    Evaluate { script: Seq<char> },
    ReadLinks { script: Seq<char> },
    Click { selector: Seq<char> },
    Sleep { millis: nat },
    Done,
}

impl View for Action {
    type V = ActionView;

    open spec fn view(&self) -> ActionView {
        match self {
            Action::OpenPage => ActionView::OpenPage,
            Action::Navigate { url, timeout_millis } => ActionView::Navigate {
                url: url@,
                timeout_millis: *timeout_millis as nat,
            },
            Action::Evaluate { script } => ActionView::Evaluate { script: script@ },
            Action::ReadLinks { script } => ActionView::ReadLinks { script: script@ },
            Action::Click { selector } => ActionView::Click { selector: selector@ },
            Action::Sleep { millis } => ActionView::Sleep { millis: *millis as nat },
            Action::Done => ActionView::Done,
        }
    }
}

/// What the driver reports back.
#[derive(Debug)]
pub enum Event {
    /// A page is open.
    PageOpened,
    /// The engine could not be constructed or reached.
    EngineFailed,
    /// The page was loaded; `status` is the HTTP status of the response, if
    /// the load produced one.
    Navigated { status: Option<u16> },
    /// A script was evaluated; `value` is its value as text, or nothing when
    /// the evaluation failed.
    Evaluated { value: Option<String> },
    /// A link-listing script was evaluated; `links` is what it listed
    /// (nothing when the evaluation failed or its value could not be read).
    LinksRead { links: Vec<Link> },
    /// A click was attempted; `ok` says whether it went through.
    Clicked { ok: bool },
    /// A wait is over.
    Slept,
}

/// Mathematical value of an [`Event`].
pub enum EventView {
    PageOpened,
    EngineFailed,
    Navigated { status: Option<u16> },
    Evaluated { value: Option<Seq<char>> },
    LinksRead { links: Seq<LinkView> },
    Clicked { ok: bool },
    Slept,
}

impl View for Event {
    type V = EventView;

    open spec fn view(&self) -> EventView {
        match self {
            Event::PageOpened => EventView::PageOpened,
            Event::EngineFailed => EventView::EngineFailed,
            Event::Navigated { status } => EventView::Navigated { status: *status },
            Event::Evaluated { value } => EventView::Evaluated {
                value: match value {
                    Some(v) => Some(v@),
                    None => None,
                },
            },
            Event::LinksRead { links } => EventView::LinksRead { links: link_views(links@) },
            Event::Clicked { ok } => EventView::Clicked { ok: *ok },
            Event::Slept => EventView::Slept,
        }
    }
}

/// Whether `event` is a report on `action`.
pub open spec fn answers(event: EventView, action: ActionView) -> bool {
    match action {
        ActionView::OpenPage => event is PageOpened || event is EngineFailed,
        ActionView::Navigate { .. } => event is Navigated,
        ActionView::Evaluate { .. } => event is Evaluated,
        ActionView::ReadLinks { .. } => event is LinksRead,
        ActionView::Click { .. } => event is Clicked,
        ActionView::Sleep { .. } => event is Slept,
        ActionView::Done => false,
    }
}

} // verus!
