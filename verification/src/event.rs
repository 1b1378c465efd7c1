//! The event model: the closed set of state-change notifications.
//!
//! Each variant tag determines the data carried. An event is an immutable
//! value at the moment of publication; the hub hands every subscriber its
//! own copy, made by `duplicate`, so no internal state is shared across
//! subscribers. No variant carries a remote error: publication is a local,
//! best-effort notification, not a request/response protocol.

use vstd::prelude::*;

verus! {

/// A progress snapshot: which step of how many is under way.
#[derive(Clone, Copy, PartialEq, Eq, Structural, Debug)]
pub struct Progress {
    pub current_step: u32,
    pub max_steps: u32,
}

/// A state-change notification. The set is closed: every consumer handles
/// each variant explicitly, so a new kind of event cannot be silently
/// ignored.
#[derive(PartialEq, Eq, Debug)]
pub enum Event {
    /// The selected locale changed.
    LocaleChanged { locale: String },
    /// A long-running operation advanced.
    Progress { progress: Progress },
    /// The selected product changed.
    ProductChanged { id: String },
    /// Pattern selection changed: each entry maps a pattern identifier to
    /// its new status.
    PatternsChanged { patterns: Vec<(String, String)> },
}

/// The mathematical shape of an `Event`.
pub enum EventView {
    LocaleChanged { locale: Seq<char> },
    Progress { progress: Progress },
    ProductChanged { id: Seq<char> },
    PatternsChanged { patterns: Seq<(Seq<char>, Seq<char>)> },
}

/// The shape of a pattern entry list: each entry as its pair of views.
pub open spec fn patterns_view(patterns: Seq<(String, String)>) -> Seq<(Seq<char>, Seq<char>)> {
    patterns.map_values(|p: (String, String)| (p.0@, p.1@))
}

impl View for Event {
    type V = EventView;

    open spec fn view(&self) -> EventView {
        match *self {
            Event::LocaleChanged { locale } => EventView::LocaleChanged { locale: locale@ },
            Event::Progress { progress } => EventView::Progress { progress },
            Event::ProductChanged { id } => EventView::ProductChanged { id: id@ },
            Event::PatternsChanged { patterns } => EventView::PatternsChanged {
                patterns: patterns_view(patterns@),
            },
        }
    }
}

impl Event {
    /// An independent copy of this event, sharing no state with the
    /// original: the copy a subscriber receives.
    pub fn duplicate(&self) -> (r: Event)
        ensures
            r@ == self@,
    {
        match self {
            Event::LocaleChanged { locale } => Event::LocaleChanged { locale: locale.clone() },
            Event::Progress { progress } => Event::Progress { progress: *progress },
            Event::ProductChanged { id } => Event::ProductChanged { id: id.clone() },
            Event::PatternsChanged { patterns } => {
                let mut copied: Vec<(String, String)> = Vec::new();
                let mut i: usize = 0;
                while i < patterns.len()
                    invariant
                        i <= patterns.len(),
                        copied@.len() == i,
                        forall|j: int| 0 <= j < i ==> copied@[j].0@ == patterns@[j].0@
                            && copied@[j].1@ == patterns@[j].1@,
                    decreases patterns.len() - i,
                {
                    let entry = &patterns[i];
                    copied.push((entry.0.clone(), entry.1.clone()));
                    i = i + 1;
                }
                proof {
                    assert(patterns_view(copied@) =~= patterns_view(patterns@));
                }
                Event::PatternsChanged { patterns: copied }
            },
        }
    }
}

} // verus!
