//! The Attribute element: one named field attached to the mesh.
use vstd::prelude::*;

use crate::xdmf_elements::data_item::DataItem;
use crate::xdmf_elements::{append_attr, append_sep, attr_text, deeper, sep, step_text};

verus! {

/// A named field result: its semantic shape, its placement on the mesh,
/// and the data items holding or referencing its values.
pub struct Attribute {
    pub name: String,
    pub attribute_type: AttributeType,
    pub center: Center,
    pub data_items: Vec<DataItem>,
}

/// The semantic shape of a field as recorded in the document.
#[derive(Clone, Copy, Debug, PartialEq, Eq, Structural)]
pub enum AttributeType {
    Scalar,
    Vector,
    Tensor,
    Tensor6,
    Matrix,
}

impl Default for AttributeType {
    fn default() -> (r: AttributeType)
        ensures
            r == AttributeType::Scalar,
    {
        AttributeType::Scalar
    }
}

impl AttributeType {
    /// The name of this shape in the document.
    pub open spec fn spec_name(&self) -> Seq<char> {
        match self {
            AttributeType::Scalar => "Scalar"@,
            AttributeType::Vector => "Vector"@,
            AttributeType::Tensor => "Tensor"@,
            AttributeType::Tensor6 => "Tensor6"@,
            AttributeType::Matrix => "Matrix"@,
        }
    }

    /// The name of this shape in the document.
    pub fn name(&self) -> (r: &str)
        ensures
            r@ == self.spec_name(),
    {
        match self {
            AttributeType::Scalar => "Scalar",
            AttributeType::Vector => "Vector",
            AttributeType::Tensor => "Tensor",
            AttributeType::Tensor6 => "Tensor6",
            AttributeType::Matrix => "Matrix",
        }
    }
}

/// The placement of a field on the mesh.
#[derive(Clone, Copy, Debug, PartialEq, Eq, Structural)]
pub enum Center {
    Node,
    Edge,
    Face,
    Cell,
    Grid,
    Other,
}

impl Default for Center {
    fn default() -> (r: Center)
        ensures
            r == Center::Node,
    {
        Center::Node
    }
}

impl Center {
    /// The name of this placement in the document.
    pub open spec fn spec_name(&self) -> Seq<char> {
        match self {
            Center::Node => "Node"@,
            Center::Edge => "Edge"@,
            Center::Face => "Face"@,
            Center::Cell => "Cell"@,
            Center::Grid => "Grid"@,
            Center::Other => "Other"@,
        }
    }

    /// The name of this placement in the document.
    pub fn name(&self) -> (r: &str)
        ensures
            r@ == self.spec_name(),
    {
        match self {
            Center::Node => "Node",
            Center::Edge => "Edge",
            Center::Face => "Face",
            Center::Cell => "Cell",
            Center::Grid => "Grid",
            Center::Other => "Other",
        }
    }
}

/// The tag naming a placement in side files and array-store groups.
pub open spec fn spec_center_data_tag(center: Center) -> Seq<char> {
    match center {
        Center::Node => "point_data"@,
        Center::Cell => "cell_data"@,
        Center::Edge => "edge_data"@,
        Center::Face => "face_data"@,
        Center::Grid => "grid_data"@,
        Center::Other => "other_data"@,
    }
}

/// The tag naming a placement in side files and array-store groups.
pub fn center_to_data_tag(center: Center) -> (r: &'static str)
    ensures
        r@ == spec_center_data_tag(center),
{
    match center {
        Center::Node => "point_data",
        Center::Cell => "cell_data",
        Center::Edge => "edge_data",
        Center::Face => "face_data",
        Center::Grid => "grid_data",
        Center::Other => "other_data",
    }
}

/// The XML text of the data items from index `i` on, each preceded by the
/// separator at the given indentation.
#[verifier::opaque]
pub open spec fn items_xml(items: Seq<DataItem>, i: int, pretty: bool, ind: Seq<char>) -> Seq<char>
    decreases items.len() - i,
{
    if i < 0 || i >= items.len() {
        Seq::empty()
    } else {
        sep(pretty, ind + step_text()) + items[i].xml(pretty, ind + step_text()) + items_xml(
            items,
            i + 1,
            pretty,
            ind,
        )
    }
}

/// Append the XML text of a data-item list.
pub fn append_items_xml(items: &Vec<DataItem>, pretty: bool, ind: &str, out: &mut String)
    ensures
        final(out)@ == old(out)@ + items_xml(items@, 0, pretty, ind@),
{
    let n = items.len();
    let child = deeper(ind);
    let mut i: usize = 0;
    while i < n
        invariant
            i <= n,
            n == items@.len(),
            child@ == ind@ + step_text(),
            out@ + items_xml(items@, i as int, pretty, ind@) == old(out)@ + items_xml(
                items@,
                0,
                pretty,
                ind@,
            ),
        decreases n - i,
    {
        append_sep(out, pretty, child.as_str());
        items[i].append_xml(pretty, child.as_str(), out);
        i += 1;
        proof {
            reveal(items_xml);
            assert(out@ + items_xml(items@, i as int, pretty, ind@) =~= old(out)@ + items_xml(
                items@,
                0,
                pretty,
                ind@,
            ));
        }
    }
    proof {
        reveal(items_xml);
        assert(out@ + Seq::<char>::empty() =~= out@);
    }
}

impl Attribute {
    /// The compact XML text of this element.
    pub fn to_xml(&self) -> (r: String)
        ensures
            r@ == self.xml(false, Seq::empty()),
    {
        let mut s = String::new();
        self.append_xml(false, "", &mut s);
        proof {
            reveal_strlit("");
            assert(""@ =~= Seq::<char>::empty());
            assert(s@ =~= self.xml(false, Seq::empty()));
        }
        s
    }

    /// The XML text of this element at the given indentation.
    #[verifier::opaque]
    pub open spec fn xml(&self, pretty: bool, ind: Seq<char>) -> Seq<char> {
        "<Attribute"@ + attr_text(" Name=\""@, self.name@) + attr_text(
            " AttributeType=\""@,
            self.attribute_type.spec_name(),
        ) + attr_text(" Center=\""@, self.center.spec_name()) + (if self.data_items@.len() == 0 {
            "/>"@
        } else {
            ">"@ + items_xml(self.data_items@, 0, pretty, ind) + sep(pretty, ind) + "</Attribute>"@
        })
    }

    /// Append the XML text of this element.
    pub fn append_xml(&self, pretty: bool, ind: &str, out: &mut String)
        ensures
            final(out)@ == old(out)@ + self.xml(pretty, ind@),
    {
        proof {
            reveal(Attribute::xml);
        }
        out.append("<Attribute");
        append_attr(out, " Name=\"", self.name.as_str());
        append_attr(out, " AttributeType=\"", self.attribute_type.name());
        append_attr(out, " Center=\"", self.center.name());
        if self.data_items.len() == 0 {
            out.append("/>");
        } else {
            out.append(">");
            append_items_xml(&self.data_items, pretty, ind, out);
            append_sep(out, pretty, ind);
            out.append("</Attribute>");
        }
        proof {
            assert(final(out)@ =~= old(out)@ + self.xml(pretty, ind@));
        }
    }
}

impl Default for Attribute {
    /// A scalar node-centered attribute with an empty name and no data
    /// items.
    fn default() -> (r: Attribute)
        ensures
            r.name@.len() == 0,
            r.attribute_type == AttributeType::Scalar,
            r.center == Center::Node,
            r.data_items@.len() == 0,
    {
        Attribute {
            name: String::new(),
            attribute_type: AttributeType::Scalar,
            center: Center::Node,
            data_items: Vec::new(),
        }
    }
}

} // verus!
