//! Laws of the publish decision, stated over the same model that
//! [`crate::provider::LayoutProvider::poll`] is specified with.

use vstd::prelude::*;

use crate::provider::{emits_event, last_after};
use crate::registry::registry_contains;

verus! {

/// Repeated detection of the same tag across consecutive polls publishes
/// at most one event for that transition: once a tag has been recorded,
/// observing it again emits nothing.
pub proof fn lemma_repeated_tag_emits_once(
    last: Option<Seq<char>>,
    registry: Seq<Seq<char>>,
    tag: Seq<char>,
)
    ensures
        !emits_event(last_after(last, Option::Some(tag)), registry, tag),
{
}

/// Detecting a tag the registry does not list publishes nothing but still
/// becomes the recorded layout, so a later detection of a different,
/// registry-known tag publishes as a change from the true last-seen
/// layout.
pub proof fn lemma_unknown_tag_then_known(
    last: Option<Seq<char>>,
    registry: Seq<Seq<char>>,
    unknown: Seq<char>,
    known: Seq<char>,
)
    requires
        !registry_contains(registry, unknown),
        registry_contains(registry, known),
        known != unknown,
    ensures
        !emits_event(last, registry, unknown),
        last_after(last, Option::Some(unknown)) == Option::Some(unknown),
        emits_event(last_after(last, Option::Some(unknown)), registry, known),
{
}

} // verus!
