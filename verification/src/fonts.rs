//! What the core knows of the font cache, and when the cache is rebuilt.

use vstd::prelude::*;
use epaint::text::FontDefinitions;

verus! {

/// The pixel ratio may drift by this much, in thousandths, before the cache is rebuilt.
pub const PIXEL_RATIO_TOLERANCE: u32 = 1;

/// What the core knows of the font cache.
pub struct FontCache {
    /// The pixel ratio the cache was built for, in thousandths.
    pub pixels_per_point: u32,
    /// The definitions the cache was built from.
    pub definitions: FontDefinitions,
    /// Changes with every rebuild.
    pub generation: u64,
}

/// Whether two pixel ratios differ by more than the tolerance.
pub open spec fn ratio_changed(built_for: u32, wanted: u32) -> bool {
    built_for - wanted > PIXEL_RATIO_TOLERANCE || wanted - built_for > PIXEL_RATIO_TOLERANCE
}

/// Whether the cache has to be rebuilt: there is none, new definitions were
/// supplied, or the pixel ratio changed.
pub open spec fn must_rebuild(cache: Option<FontCache>, has_new: bool, wanted: u32) -> bool {
    match cache {
        None => true,
        Some(c) => has_new || ratio_changed(c.pixels_per_point, wanted),
    }
}

/// The generation that follows `g`.
pub open spec fn next_generation(g: u64) -> u64 {
    if g == u64::MAX { 0 } else { (g + 1) as u64 }
}

/// The built-in font definitions.
///
/// Calls `FontDefinitions::default` of epaint; nothing is claimed of what it returns.
#[verifier::external_body]
pub(crate) fn default_definitions() -> (definitions: FontDefinitions) {
    FontDefinitions::default()
}

/// What `==` of epaint's `FontDefinitions` answers for two sets of font
/// definitions. It compares font data, families and sizes, and depends on
/// nothing else.
pub uninterp spec fn definitions_same(a: FontDefinitions, b: FontDefinitions) -> bool;

/// Whether two sets of font definitions compare equal.
///
/// Calls `==` of epaint's `FontDefinitions`, a derived comparison of the
/// fields. The contract gives the answer a name and claims no more of it.
#[verifier::external_body]
pub(crate) fn definitions_equal(a: &FontDefinitions, b: &FontDefinitions) -> (equal: bool)
    ensures
        equal == definitions_same(*a, *b),
{
    a == b
}

/// Whether two pixel ratios differ by more than the tolerance.
pub fn has_ratio_changed(built_for: u32, wanted: u32) -> (changed: bool)
    ensures
        changed == ratio_changed(built_for, wanted),
{
    if built_for >= wanted {
        built_for - wanted > PIXEL_RATIO_TOLERANCE
    } else {
        wanted - built_for > PIXEL_RATIO_TOLERANCE
    }
}

/// Brings the font cache in line with the pixel ratio `wanted` and with
/// newly supplied definitions. A cache that need not be rebuilt is handed
/// back as it is. A rebuilt cache has the next generation and the new
/// definitions, or, where none were supplied, those of the old cache; only
/// where there was neither does it get the built-in ones.
pub fn reconcile(
    cache: Option<FontCache>,
    new_definitions: Option<FontDefinitions>,
    wanted: u32,
) -> (next: FontCache)
    ensures
        !must_rebuild(cache, new_definitions is Some, wanted) ==> Some(next) == cache,
        must_rebuild(cache, new_definitions is Some, wanted) ==> {
            &&& next.pixels_per_point == wanted
            &&& next.generation == (match cache {
                Some(c) => next_generation(c.generation),
                None => 0,
            })
            &&& new_definitions is Some ==> next.definitions == new_definitions->Some_0
            &&& (new_definitions is None && cache is Some) ==> next.definitions
                == cache->Some_0.definitions
        },
{
    match cache {
        None => {
            let definitions = match new_definitions {
                Some(d) => d,
                None => default_definitions(),
            };
            FontCache { pixels_per_point: wanted, definitions, generation: 0 }
        },
        Some(c) => {
            let changed = has_ratio_changed(c.pixels_per_point, wanted);
            let generation = if c.generation == u64::MAX {
                0
            } else {
                c.generation + 1
            };
            match new_definitions {
                Some(d) => FontCache { pixels_per_point: wanted, definitions: d, generation },
                None => {
                    if changed {
                        FontCache {
                            pixels_per_point: wanted,
                            definitions: c.definitions,
                            generation,
                        }
                    } else {
                        c
                    }
                },
            }
        },
    }
}

} // verus!
