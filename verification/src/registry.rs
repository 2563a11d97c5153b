//! Lookup of a layout tag within the configured registry.
//!
//! The registry is an ordered list of language tags fixed when the provider
//! is built; the position of a tag in it is the index that the wire
//! encoding carries.

use vstd::prelude::*;

verus! {

/// `i` is the position of the first occurrence of `tag` in `registry`.
pub open spec fn is_first_index(registry: Seq<Seq<char>>, tag: Seq<char>, i: int) -> bool {
    &&& 0 <= i < registry.len()
    &&& registry[i] == tag
    &&& forall|j: int| 0 <= j < i ==> registry[j] != tag
}

/// Whether `registry` lists `tag` at all.
pub open spec fn registry_contains(registry: Seq<Seq<char>>, tag: Seq<char>) -> bool {
    exists|i: int| 0 <= i < registry.len() && registry[i] == tag
}

/// Position of `tag` within the registry: the index that the wire encoding
/// uses. `None` exactly when the registry does not list the tag.
pub fn position_of(registry: &Vec<String>, tag: &String) -> (r: Option<usize>)
    ensures
        match r {
            Some(i) => is_first_index(registry.deep_view(), tag@, i as int),
            None => !registry_contains(registry.deep_view(), tag@),
        },
{
    let n = registry.len();
    let mut i: usize = 0;
    while i < n
        invariant
            n == registry@.len(),
            i <= n,
            forall|j: int| 0 <= j < i ==> registry.deep_view()[j] != tag@,
        decreases n - i,
    {
        if registry[i] == *tag {
            return Some(i);
        }
        i += 1;
    }
    None
}

} // verus!
