//! The emulated hardware models and their family predicates.
use vstd::prelude::*;

verus! {

/// The Game Boy hardware revision being emulated.
#[derive(Clone, Copy, PartialEq, Eq, Structural, Debug)]
pub enum Model {
    Dmg0,
    Dmg,
    Mgb,
    Sgb,
    Sgb2,
    Cgb,
    Agb,
}

/// Whether a model belongs to the Color family (CGB and AGB run the CGB PPU).
pub open spec fn spec_is_cgb(m: Model) -> bool {
    m == Model::Cgb || m == Model::Agb
}

/// Whether a model is a Super Game Boy (the SNES-side colorization exists).
pub open spec fn spec_is_sgb(m: Model) -> bool {
    m == Model::Sgb || m == Model::Sgb2
}

impl Model {
    /// Color-family PPU (CGB, AGB).
    pub fn is_cgb(&self) -> (r: bool)
        ensures
            r == spec_is_cgb(*self),
    {
        match self {
            Model::Cgb | Model::Agb => true,
            _ => false,
        }
    }

    /// Super Game Boy models.
    pub fn is_sgb(&self) -> (r: bool)
        ensures
            r == spec_is_sgb(*self),
    {
        match self {
            Model::Sgb | Model::Sgb2 => true,
            _ => false,
        }
    }
}

} // verus!
