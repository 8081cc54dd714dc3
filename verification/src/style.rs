//! The two rendering styles shared by suits, ranks and cards.

use vstd::prelude::*;

verus! {

/// How a value is rendered as text.
///
/// `Compact` gives the short form: the suit glyph, the rank's number or
/// single letter. `Verbose` gives the full English words.
#[derive(Clone, Copy, Debug, Eq, Hash, PartialEq, Structural)]
pub enum Style {
    Compact,
    Verbose,
}

} // verus!
