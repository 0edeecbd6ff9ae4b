//! The Geometry element: the coordinate semantics of the mesh points.
use vstd::prelude::*;

use crate::xdmf_elements::data_item::DataItem;
use crate::xdmf_elements::{append_attr, append_sep, attr_text, deeper, sep, step_text};

verus! {

/// The Geometry element wraps the data item holding or referencing the
/// point coordinates.
pub struct Geometry {
    pub geometry_type: GeometryType,
    pub data_item: DataItem,
}

/// The coordinate semantics of the points: three values per point or two.
#[derive(Clone, Copy, Debug, PartialEq, Eq, Structural)]
pub enum GeometryType {
    XYZ,
    XY,
}

impl Default for GeometryType {
    /// Three coordinates per point.
    fn default() -> (r: GeometryType)
        ensures
            r == GeometryType::XYZ,
    {
        GeometryType::XYZ
    }
}

impl GeometryType {
    /// The name of this geometry type in the document.
    pub open spec fn spec_name(&self) -> Seq<char> {
        match self {
            GeometryType::XYZ => "XYZ"@,
            GeometryType::XY => "XY"@,
        }
    }

    /// The name of this geometry type in the document.
    pub fn name(&self) -> (r: &str)
        ensures
            r@ == self.spec_name(),
    {
        match self {
            GeometryType::XYZ => "XYZ",
            GeometryType::XY => "XY",
        }
    }
}

impl Geometry {
    /// The compact XML text of this element.
    pub fn to_xml(&self) -> (r: String)
        ensures
            r@ == self.xml(false, Seq::empty()),
    {
        let mut s = String::new();
        self.append_xml(false, "", &mut s);
        proof {
            reveal_strlit("");
            assert(""@ =~= Seq::<char>::empty());
            assert(s@ =~= self.xml(false, Seq::empty()));
        }
        s
    }

    /// The XML text of this element at the given indentation.
    #[verifier::opaque]
    pub open spec fn xml(&self, pretty: bool, ind: Seq<char>) -> Seq<char> {
        "<Geometry"@ + attr_text(" GeometryType=\""@, self.geometry_type.spec_name()) + ">"@ + sep(
            pretty,
            ind + step_text(),
        ) + self.data_item.xml(pretty, ind + step_text()) + sep(pretty, ind) + "</Geometry>"@
    }

    /// Append the XML text of this element.
    pub fn append_xml(&self, pretty: bool, ind: &str, out: &mut String)
        ensures
            final(out)@ == old(out)@ + self.xml(pretty, ind@),
    {
        proof {
            reveal(Geometry::xml);
        }
        out.append("<Geometry");
        append_attr(out, " GeometryType=\"", self.geometry_type.name());
        out.append(">");
        let child = deeper(ind);
        append_sep(out, pretty, child.as_str());
        self.data_item.append_xml(pretty, child.as_str(), out);
        append_sep(out, pretty, ind);
        out.append("</Geometry>");
        proof {
            assert(final(out)@ =~= old(out)@ + self.xml(pretty, ind@));
        }
    }
}

} // verus!
