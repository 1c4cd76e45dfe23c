// PC-1500 models.
use vstd::prelude::*;

verus! {

#[derive(Debug, Clone, Copy, PartialEq, Eq, Structural)]
pub enum Pc1500Model {
    /// The original PC-1500.
    Pc1500,
    /// The PC-1500A.
    Pc1500A,
}

impl Pc1500Model {
    /// RAM of the model in bytes: 8 KB on the PC-1500, 16 KB on the
    /// PC-1500A, which has more RAM.
    pub fn ram_size(&self) -> (r: usize)
        ensures
            *self == Pc1500Model::Pc1500 ==> r == 0x2000,
            *self == Pc1500Model::Pc1500A ==> r == 0x4000,
    {
        match self {
            Pc1500Model::Pc1500 => 0x2000,
            Pc1500Model::Pc1500A => 0x4000,
        }
    }
}

impl Default for Pc1500Model {
    fn default() -> (r: Self)
        ensures
            r == Pc1500Model::Pc1500,
    {
        Pc1500Model::Pc1500
    }
}

} // verus!
