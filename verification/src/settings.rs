use vstd::prelude::*;

verus! {

/// Which settings panel is open.
#[derive(PartialEq, Eq, Structural, Clone, Copy, Debug)]
pub enum Settings {
    EditDistribution,
    Default,
}

impl Default for Settings {
    fn default() -> (r: Self)
        ensures
            r == Settings::Default,
    {
        Settings::Default
    }
}

} // verus!
