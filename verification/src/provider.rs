//! The layout provider: lifecycle and per-poll decision logic.
//!
//! A background task (outside this crate) wakes at a fixed interval, asks
//! the OS detector for the active layout, and hands the answer to
//! [`LayoutProvider::poll`]. Everything the provider then decides — what to
//! record, whether to publish, and which index goes on the wire — is
//! verified here.

use vstd::prelude::*;

use crate::bus::send_frame;
use crate::event::encode_layout_event;
use crate::registry::{is_first_index, position_of, registry_contains};

verus! {

/// The layout recorded after one observation: a successful detection
/// always replaces the recorded layout; a failed one leaves it alone.
pub open spec fn last_after(
    last: Option<Seq<char>>,
    detected: Option<Seq<char>>,
) -> Option<Seq<char>> {
    match detected {
        Option::None => last,
        Option::Some(tag) => Option::Some(tag),
    }
}

/// Whether observing `detected` publishes an event: only a tag that
/// differs from the layout already recorded and that the registry lists
/// goes out on the bus. The very first successful observation only
/// establishes the recorded layout.
pub open spec fn emits_event(
    last: Option<Seq<char>>,
    registry: Seq<Seq<char>>,
    detected: Seq<char>,
) -> bool {
    &&& last matches Option::Some(prev) && prev != detected
    &&& registry_contains(registry, detected)
}

/// What one polling step did.
#[derive(Clone, Copy, Debug, PartialEq, Eq)]
pub enum PollOutcome {
    /// The provider is stopped; the step did nothing.
    Inactive,
    /// Detection yielded no signal this tick; state is unchanged.
    NoSignal,
    /// The detected layout is the one already recorded.
    Unchanged,
    /// A different layout was recorded but no event was published: the tag
    /// is not in the registry, or no layout had been recorded before.
    Recorded,
    /// A change was published; the payload is the registry index sent.
    Published(u8),
    /// A change was due but the bus had no receivers; the payload is the
    /// registry index of the frame that could not be delivered.
    PublishFailed(u8),
}

/// The layout provider: a registry snapshot, a bus handle, the running
/// flag, and the last layout its polling task recorded.
pub struct LayoutProvider {
    data_sender: tokio::sync::broadcast::Sender<Vec<u8>>,
    registry: Vec<String>,
    running: bool,
    last_synced: Option<String>,
}

impl LayoutProvider {
    /// The registry snapshot, as the sequence of tag views.
    pub closed spec fn registry_view(&self) -> Seq<Seq<char>> {
        self.registry.deep_view()
    }

    /// Whether the provider is between `start()` and `stop()`.
    pub closed spec fn running_state(&self) -> bool {
        self.running
    }

    /// The layout last recorded, if any observation has succeeded yet.
    pub closed spec fn last_seen(&self) -> Option<Seq<char>> {
        self.last_synced.deep_view()
    }

    /// A registry of at most 256 layouts keeps every index within the one
    /// wire byte.
    pub open spec fn wf(&self) -> bool {
        self.registry_view().len() <= 256
    }

    /// Build a provider over a bus handle and a registry snapshot. It
    /// starts stopped, with no layout recorded.
    pub fn new(
        data_sender: tokio::sync::broadcast::Sender<Vec<u8>>,
        layouts: Vec<String>,
    ) -> (provider: LayoutProvider)
        requires
            layouts@.len() <= 256,
        ensures
            provider.wf(),
            !provider.running_state(),
            provider.last_seen() is None,
            provider.registry_view() == layouts.deep_view(),
    {
        LayoutProvider { data_sender, registry: layouts, running: false, last_synced: Option::None }
    }

    /// Begin polling. Guarded against double-start: when already running
    /// this is a no-op, and the result says whether this call started it.
    pub fn start(&mut self) -> (started: bool)
        ensures
            final(self).running_state(),
            started == !old(self).running_state(),
            final(self).registry_view() == old(self).registry_view(),
            final(self).last_seen() == old(self).last_seen(),
    {
        if self.running {
            false
        } else {
            self.running = true;
            true
        }
    }

    /// Request polling to cease. Non-blocking: the polling task observes
    /// the flag on its next wake.
    pub fn stop(&mut self)
        ensures
            !final(self).running_state(),
            final(self).registry_view() == old(self).registry_view(),
            final(self).last_seen() == old(self).last_seen(),
    {
        self.running = false;
    }

    /// Whether the provider is currently running.
    pub fn is_running(&self) -> (r: bool)
        ensures
            r == self.running_state(),
    {
        self.running
    }

    /// The layout last recorded, cloned out for observation.
    pub fn last_synced_layout(&self) -> (r: Option<String>)
        ensures
            r.deep_view() == self.last_seen(),
    {
        match &self.last_synced {
            Option::None => Option::None,
            Option::Some(tag) => Option::Some(tag.clone()),
        }
    }

    /// One polling step: hand the provider what the detector reported this
    /// tick. While running, a successful detection always becomes the
    /// recorded layout, and an event goes out exactly when the tag differs
    /// from the recorded one and the registry lists it; the event carries
    /// the tag's first registry index. A stopped provider does nothing.
    pub fn poll(&mut self, detected: Option<String>) -> (outcome: PollOutcome)
        requires
            old(self).wf(),
        ensures
            final(self).wf(),
            final(self).registry_view() == old(self).registry_view(),
            final(self).running_state() == old(self).running_state(),
            !old(self).running_state() ==> {
                &&& outcome == PollOutcome::Inactive
                &&& final(self).last_seen() == old(self).last_seen()
            },
            old(self).running_state() ==> final(self).last_seen() == last_after(
                old(self).last_seen(),
                detected.deep_view(),
            ),
            old(self).running_state() ==> match detected {
                Option::None => outcome == PollOutcome::NoSignal,
                Option::Some(tag) => {
                    &&& (emits_event(old(self).last_seen(), final(self).registry_view(), tag@) <==> (
                    outcome matches PollOutcome::Published(_) || outcome
                        matches PollOutcome::PublishFailed(_)))
                    &&& (outcome matches PollOutcome::Published(i) ==> is_first_index(
                        final(self).registry_view(),
                        tag@,
                        i as int,
                    ))
                    &&& (outcome matches PollOutcome::PublishFailed(i) ==> is_first_index(
                        final(self).registry_view(),
                        tag@,
                        i as int,
                    ))
                    &&& (outcome == PollOutcome::Unchanged <==> old(self).last_seen()
                        == Option::Some(tag@))
                    &&& (outcome == PollOutcome::Recorded <==> {
                        &&& old(self).last_seen() != Option::Some(tag@)
                        &&& !emits_event(old(self).last_seen(), final(self).registry_view(), tag@)
                    })
                },
            },
    {
        if !self.running {
            return PollOutcome::Inactive;
        }
        match detected {
            Option::None => PollOutcome::NoSignal,
            Option::Some(tag) => {
                let same = match &self.last_synced {
                    Option::Some(prev) => *prev == tag,
                    Option::None => false,
                };
                if same {
                    return PollOutcome::Unchanged;
                }
                let had_prev = self.last_synced.is_some();
                let found = position_of(&self.registry, &tag);
                self.last_synced = Option::Some(tag);
                if !had_prev {
                    return PollOutcome::Recorded;
                }
                match found {
                    Option::None => PollOutcome::Recorded,
                    Option::Some(index) => {
                        proof {
                            assert(index < 256);
                        }
                        let index_byte = index as u8;
                        let frame = encode_layout_event(index_byte);
                        match send_frame(&self.data_sender, frame) {
                            Result::Ok(_) => PollOutcome::Published(index_byte),
                            Result::Err(_) => PollOutcome::PublishFailed(index_byte),
                        }
                    },
                }
            },
        }
    }
}

} // verus!
