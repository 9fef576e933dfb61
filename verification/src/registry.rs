//! The device registry: the ordered list of output-device display names,
//! captured once at startup and fixed for the life of the process. The
//! opaque device handles stay with the embedding program; the core needs
//! only the count (for selection bounds) and the names (for display).

use vstd::prelude::*;

verus! {

/// An immutable, ordered list of output-device display names. Entry 0, when
/// present, is the reserved never-auto-connected slot; the selectable
/// devices are entries 1 and up.
pub struct DeviceRegistry {
    names: Vec<String>,
}

impl DeviceRegistry {
    /// The registered names, in enumeration order.
    pub closed spec fn spec_names(&self) -> Seq<String> {
        self.names@
    }

    /// Capture the device list enumerated at startup.
    pub fn new(names: Vec<String>) -> (r: Self)
        ensures
            r.spec_names() == names@,
    {
        DeviceRegistry { names }
    }

    /// How many devices were enumerated, the reserved entry included.
    pub fn device_count(&self) -> (n: usize)
        ensures
            n == self.spec_names().len(),
    {
        self.names.len()
    }

    /// The display name of the device at `index`.
    pub fn name(&self, index: usize) -> (r: &String)
        requires
            index < self.spec_names().len(),
        ensures
            *r == self.spec_names()[index as int],
    {
        &self.names[index]
    }
}

} // verus!
