use vstd::prelude::*;

verus! {

/// The device extensions that a physical device must offer.
pub struct DeviceExtension {
    pub names: [&'static str; 1],
}

/// Which queue family serves graphics work and which serves presentation.
pub struct QueueFamilyIndices {
    pub graphics_family: Option<u32>,
    pub present_family: Option<u32>,
}

impl QueueFamilyIndices {
    /// Neither family found yet.
    pub fn new() -> (r: QueueFamilyIndices)
        ensures
            r.graphics_family is None,
            r.present_family is None,
    {
        QueueFamilyIndices { graphics_family: None, present_family: None }
    }

    pub open spec fn complete(&self) -> bool {
        self.graphics_family is Some && self.present_family is Some
    }

    /// True when both a graphics and a present family are known.
    pub fn is_complete(&self) -> (r: bool)
        ensures
            r == self.complete(),
    {
        self.graphics_family.is_some() && self.present_family.is_some()
    }
}

} // verus!
