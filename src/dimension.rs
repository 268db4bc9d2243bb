use vstd::prelude::*;

verus! {

/// The number of coordinate axes a noise field is sampled in.
#[derive(Debug, Clone, Copy, PartialEq, Eq, Hash, Structural)]
pub enum Dimension {
    D2,
    D3,
    D4,
}

/// The label of a dimension, as shown in a selection list.
pub open spec fn dimension_label(d: Dimension) -> Seq<char> {
    match d {
        Dimension::D2 => "2D"@,
        Dimension::D3 => "3D"@,
        Dimension::D4 => "4D"@,
    }
}

impl Dimension {
    /// Every dimension, in the order a selection list shows them.
    pub fn variants() -> (r: [Dimension; 3])
        ensures
            r@ == seq![Dimension::D2, Dimension::D3, Dimension::D4],
    {
        let r = [Dimension::D2, Dimension::D3, Dimension::D4];
        assert(r@ =~= seq![Dimension::D2, Dimension::D3, Dimension::D4]);
        r
    }

    pub fn to_str(self) -> (r: &'static str)
        ensures
            r@ == dimension_label(self),
    {
        match self {
            Dimension::D2 => "2D",
            Dimension::D3 => "3D",
            Dimension::D4 => "4D",
        }
    }
}

} // verus!
