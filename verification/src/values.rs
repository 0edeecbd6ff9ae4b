//! The wrapper type giving different element kinds one interface.
use vstd::prelude::*;

use crate::DataAttribute;
use crate::xdmf_elements::data_item::NumberType;
use crate::xdmf_elements::dimensions::Dimensions;

verus! {

/// A flat array of values of one element kind.
///
/// 64-bit float arrays are carried as their rendered text tokens
/// (normalized scientific notation with 16 fractional digits, one token
/// per value): the pipeline only counts and prints float values, never
/// computes with them.
#[derive(Debug)]
pub enum Values {
    /// An array of 64-bit floats, one rendered token per value.
    F64(Vec<String>),
    /// An array of unsigned 64-bit integers.
    U64(Vec<u64>),
}

impl Values {
    /// The number of values in the array.
    pub open spec fn spec_len(&self) -> int {
        match self {
            Values::F64(v) => v@.len() as int,
            Values::U64(v) => v@.len() as int,
        }
    }

    /// The number of values in the array.
    pub fn len(&self) -> (r: usize)
        ensures
            r == self.spec_len(),
    {
        match self {
            Values::F64(v) => v.len(),
            Values::U64(v) => v.len(),
        }
    }

    /// The byte width written for this element kind.
    pub fn precision(&self) -> (r: u8)
        ensures
            r == 8,
    {
        match self {
            Values::F64(_) => 8,
            Values::U64(_) => 8,
        }
    }

    /// The element number-kind of this array.
    pub fn number_type(&self) -> (r: NumberType)
        ensures
            self matches Values::F64(_) ==> r == NumberType::Float,
            self matches Values::U64(_) ==> r == NumberType::UInt,
    {
        match self {
            Values::F64(_) => NumberType::Float,
            Values::U64(_) => NumberType::UInt,
        }
    }

    /// The dimensions of this array under the given semantic shape: the
    /// flat length for a scalar, otherwise entity count by shape size,
    /// with a zero-size shape recorded as an empty extent pair.
    pub fn dimensions(&self, attribute: DataAttribute) -> (r: Dimensions)
        requires
            attribute matches DataAttribute::Scalar || attribute.spec_size() <= usize::MAX,
        ensures
            attribute matches DataAttribute::Scalar ==> r.0@ == seq![self.spec_len() as usize],
            !(attribute matches DataAttribute::Scalar) && attribute.spec_size() == 0 ==> r.0@
                == seq![0usize, 0usize],
            !(attribute matches DataAttribute::Scalar) && attribute.spec_size() > 0 ==> r.0@
                == seq![
                (self.spec_len() / attribute.spec_size()) as usize,
                attribute.spec_size() as usize,
            ],
    {
        match attribute {
            DataAttribute::Scalar => {
                let mut d: Vec<usize> = Vec::new();
                d.push(self.len());
                proof {
                    assert(d@ =~= seq![self.spec_len() as usize]);
                }
                Dimensions(d)
            },
            _ => {
                let size = attribute.size();
                let mut d: Vec<usize> = Vec::new();
                if size == 0 {
                    d.push(0);
                    d.push(0);
                    proof {
                        assert(d@ =~= seq![0usize, 0usize]);
                    }
                } else {
                    d.push(self.len() / size);
                    d.push(size);
                    proof {
                        assert(d@ =~= seq![
                            (self.spec_len() / attribute.spec_size()) as usize,
                            attribute.spec_size() as usize,
                        ]);
                    }
                }
                Dimensions(d)
            },
        }
    }
}

} // verus!
