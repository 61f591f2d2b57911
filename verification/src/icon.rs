//! The icons the browser can show next to entries. Drawing them is the
//! renderer's business; the set of icons is the library's.

use vstd::prelude::*;

verus! {

/// An icon identifier, named after the glyphs the asset set provides.
#[derive(Debug, Clone, Copy, PartialEq, Eq, Structural)]
pub enum Icon {
    PhFile,
    PhFolder,
}

} // verus!
