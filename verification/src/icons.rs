use vstd::prelude::*;

verus! {

/// Neutral default glyph for a result.
pub const SHROOM: char = '\u{1F344}';

/// Glyph for results of the arithmetic provider.
pub const CALCULATOR: char = '\u{1F5A9}';

/// Glyph for results of the web-search provider.
pub const SPIDER_WEB: char = '\u{1F578}';

} // verus!
