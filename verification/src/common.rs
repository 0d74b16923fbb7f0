//! Identifiers and build settings shared by every part of the scene layer.
use vstd::prelude::*;

verus! {

/// The id that stands for "no geometry": all 32 bits set.
pub const INVALID_ID: u32 = 0xffff_ffff;

/// Identifier of a geometry, a primitive or an instance inside a scene.
#[derive(Debug, Clone, Copy, PartialEq, Eq, Structural)]
pub struct GeomID {
    pub id: u32,
}

impl View for GeomID {
    type V = u32;

    /// The raw id.
    open spec fn view(&self) -> u32 {
        self.id
    }
}

impl GeomID {
    /// Wraps a raw id as the engine reports it.
    pub fn new(id: u32) -> (g: GeomID)
        ensures
            g == (GeomID { id }),
    {
        GeomID { id }
    }

    /// The sentinel that marks an unassigned id.
    pub fn invalid() -> (g: GeomID)
        ensures
            g@ == INVALID_ID,
    {
        GeomID { id: INVALID_ID }
    }

    pub open spec fn spec_is_invalid(&self) -> bool {
        self@ == INVALID_ID
    }

    /// Whether this is the sentinel.
    #[verifier::when_used_as_spec(spec_is_invalid)]
    pub fn is_invalid(&self) -> (b: bool)
        ensures
            b == self.spec_is_invalid(),
    {
        self.id == INVALID_ID
    }

    /// The raw id, sentinel or not.
    pub fn raw(&self) -> (id: u32)
        ensures
            id == self@,
    {
        self.id
    }

    /// The raw id behind an assigned identifier.
    pub fn unwrap(&self) -> (id: u32)
        requires
            self@ != INVALID_ID,
        ensures
            id == self@,
    {
        self.id
    }
}

impl From<u32> for GeomID {
    fn from(id: u32) -> (g: GeomID) {
        GeomID { id }
    }
}

impl vstd::std_specs::convert::FromSpecImpl<u32> for GeomID {
    open spec fn obeys_from_spec() -> bool {
        true
    }

    open spec fn from_spec(id: u32) -> GeomID {
        GeomID { id }
    }
}

/// How much effort the engine spends on an acceleration structure.
#[derive(Debug, Clone, Copy, PartialEq, Eq, Structural)]
pub enum BuildQuality {
    Low,
    Medium,
    High,
}

impl BuildQuality {
    /// The engine's code for this level.
    pub open spec fn code(self) -> i32 {
        match self {
            BuildQuality::Low => 0,
            BuildQuality::Medium => 1,
            BuildQuality::High => 2,
        }
    }
}

impl From<BuildQuality> for i32 {
    fn from(quality: BuildQuality) -> (code: i32) {
        match quality {
            BuildQuality::Low => 0,
            BuildQuality::Medium => 1,
            BuildQuality::High => 2,
        }
    }
}

impl vstd::std_specs::convert::FromSpecImpl<BuildQuality> for i32 {
    open spec fn obeys_from_spec() -> bool {
        true
    }

    open spec fn from_spec(quality: BuildQuality) -> i32 {
        quality.code()
    }
}

} // verus!
