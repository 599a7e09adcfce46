use vstd::prelude::*;

verus! {

/// The kind of device a benchmark ran on.
#[derive(Clone, Copy, Debug, PartialEq, Eq, Structural)]
pub enum DeviceName {
    CPU,
    GPU,
}

impl DeviceName {
    /// The display name of the device kind.
    pub fn name(&self) -> (r: &'static str)
        ensures
            r@ == match *self {
                DeviceName::CPU => "CPU"@,
                DeviceName::GPU => "GPU"@,
            },
    {
        match self {
            DeviceName::CPU => "CPU",
            DeviceName::GPU => "GPU",
        }
    }
}

} // verus!
