//! The Topology element: how points connect to form cells.
use vstd::prelude::*;

use crate::xdmf_elements::data_item::DataItem;
use crate::xdmf_elements::{append_attr, append_sep, attr_text, deeper, sep, step_text};

verus! {

/// The Topology element wraps the data item holding or referencing the
/// connectivity array, and carries the element count.
pub struct Topology {
    pub topology_type: TopologyType,
    pub number_of_elements: String,
    pub data_item: DataItem,
}

/// The connectivity encoding: one uniform cell type, or the mixed encoding
/// where each cell carries its own type tag.
#[derive(Clone, Copy, Debug, PartialEq, Eq, Structural)]
pub enum TopologyType {
    Mixed,
    Triangle,
    Quadrilateral,
}

impl TopologyType {
    /// The name of this topology type in the document.
    pub open spec fn spec_name(&self) -> Seq<char> {
        match self {
            TopologyType::Mixed => "Mixed"@,
            TopologyType::Triangle => "Triangle"@,
            TopologyType::Quadrilateral => "Quadrilateral"@,
        }
    }

    /// The name of this topology type in the document.
    pub fn name(&self) -> (r: &str)
        ensures
            r@ == self.spec_name(),
    {
        match self {
            TopologyType::Mixed => "Mixed",
            TopologyType::Triangle => "Triangle",
            TopologyType::Quadrilateral => "Quadrilateral",
        }
    }
}

impl Topology {
    /// The compact XML text of this element.
    pub fn to_xml(&self) -> (r: String)
        ensures
            r@ == self.xml(false, Seq::empty()),
    {
        let mut s = String::new();
        self.append_xml(false, "", &mut s);
        proof {
            reveal_strlit("");
            assert(""@ =~= Seq::<char>::empty());
            assert(s@ =~= self.xml(false, Seq::empty()));
        }
        s
    }

    /// The XML text of this element at the given indentation.
    #[verifier::opaque]
    pub open spec fn xml(&self, pretty: bool, ind: Seq<char>) -> Seq<char> {
        "<Topology"@ + attr_text(" TopologyType=\""@, self.topology_type.spec_name()) + attr_text(
            " NumberOfElements=\""@,
            self.number_of_elements@,
        ) + ">"@ + sep(pretty, ind + step_text()) + self.data_item.xml(pretty, ind + step_text())
            + sep(pretty, ind) + "</Topology>"@
    }

    /// Append the XML text of this element.
    pub fn append_xml(&self, pretty: bool, ind: &str, out: &mut String)
        ensures
            final(out)@ == old(out)@ + self.xml(pretty, ind@),
    {
        proof {
            reveal(Topology::xml);
        }
        out.append("<Topology");
        append_attr(out, " TopologyType=\"", self.topology_type.name());
        append_attr(out, " NumberOfElements=\"", self.number_of_elements.as_str());
        out.append(">");
        let child = deeper(ind);
        append_sep(out, pretty, child.as_str());
        self.data_item.append_xml(pretty, child.as_str(), out);
        append_sep(out, pretty, ind);
        out.append("</Topology>");
        proof {
            assert(final(out)@ =~= old(out)@ + self.xml(pretty, ind@));
        }
    }
}

} // verus!
