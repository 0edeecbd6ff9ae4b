//! The Grid element: a uniform grid, a collection, or a tree of grids.
use vstd::prelude::*;

use crate::xdmf_elements::attribute::Attribute;
use crate::xdmf_elements::geometry::Geometry;
use crate::xdmf_elements::topology::Topology;
use crate::xdmf_elements::{append_attr, append_sep, attr_text, deeper, sep, step_text};

verus! {

/// A grid of the document: a uniform grid owns a geometry and a topology,
/// a collection or tree owns child grids, and a per-time-step grid carries
/// a time stamp and attributes.
pub struct Grid {
    pub name: String,
    pub grid_type: GridType,
    pub collection_type: Option<CollectionType>,
    pub geometry: Option<Geometry>,
    pub topology: Option<Topology>,
    pub grids: Option<Vec<Grid>>,
    pub time: Option<Time>,
    pub attributes: Option<Vec<Attribute>>,
}

/// The time stamp of a per-time-step grid, kept as the caller's own token
/// so that the caller decides the formatting.
pub struct Time {
    pub value: String,
}

impl Time {
    /// The compact XML text of this element.
    pub fn to_xml(&self) -> (r: String)
        ensures
            r@ == self.xml(),
    {
        let mut s = String::new();
        self.append_xml(&mut s);
        proof {
            assert(s@ =~= self.xml());
        }
        s
    }

    /// Create a time stamp from its token.
    pub fn new(value: &str) -> (r: Time)
        ensures
            r.value@ == value@,
    {
        Time { value: value.to_owned() }
    }

    /// The XML text of this element.
    #[verifier::opaque]
    pub open spec fn xml(&self) -> Seq<char> {
        "<Time"@ + attr_text(" Value=\""@, self.value@) + "/>"@
    }

    /// Append the XML text of this element.
    pub fn append_xml(&self, out: &mut String)
        ensures
            final(out)@ == old(out)@ + self.xml(),
    {
        proof {
            reveal(Time::xml);
        }
        out.append("<Time");
        append_attr(out, " Value=\"", self.value.as_str());
        out.append("/>");
        proof {
            assert(final(out)@ =~= old(out)@ + self.xml());
        }
    }
}

/// The kind of a grid.
#[derive(Clone, Copy, Debug, PartialEq, Eq, Structural)]
pub enum GridType {
    Uniform,
    Collection,
    Tree,
    SubSet,
}

impl Default for GridType {
    fn default() -> (r: GridType)
        ensures
            r == GridType::Uniform,
    {
        GridType::Uniform
    }
}

impl GridType {
    /// The name of this grid kind in the document.
    pub open spec fn spec_name(&self) -> Seq<char> {
        match self {
            GridType::Uniform => "Uniform"@,
            GridType::Collection => "Collection"@,
            GridType::Tree => "Tree"@,
            GridType::SubSet => "SubSet"@,
        }
    }

    /// The name of this grid kind in the document.
    pub fn name(&self) -> (r: &str)
        ensures
            r@ == self.spec_name(),
    {
        match self {
            GridType::Uniform => "Uniform",
            GridType::Collection => "Collection",
            GridType::Tree => "Tree",
            GridType::SubSet => "SubSet",
        }
    }
}

/// How the children of a collection relate: side by side in space, or one
/// per time step.
#[derive(Clone, Copy, Debug, PartialEq, Eq, Structural)]
pub enum CollectionType {
    Spatial,
    Temporal,
}

impl Default for CollectionType {
    fn default() -> (r: CollectionType)
        ensures
            r == CollectionType::Spatial,
    {
        CollectionType::Spatial
    }
}

impl CollectionType {
    /// The name of this collection kind in the document.
    pub open spec fn spec_name(&self) -> Seq<char> {
        match self {
            CollectionType::Spatial => "Spatial"@,
            CollectionType::Temporal => "Temporal"@,
        }
    }

    /// The name of this collection kind in the document.
    pub fn name(&self) -> (r: &str)
        ensures
            r@ == self.spec_name(),
    {
        match self {
            CollectionType::Spatial => "Spatial",
            CollectionType::Temporal => "Temporal",
        }
    }
}

/// The XML text of the attributes from index `i` on, each preceded by the
/// separator one level deeper than `ind`.
#[verifier::opaque]
pub open spec fn attributes_xml(
    attrs: Seq<Attribute>,
    i: int,
    pretty: bool,
    ind: Seq<char>,
) -> Seq<char>
    decreases attrs.len() - i,
{
    if i < 0 || i >= attrs.len() {
        Seq::empty()
    } else {
        sep(pretty, ind + step_text()) + attrs[i].xml(pretty, ind + step_text()) + attributes_xml(
            attrs,
            i + 1,
            pretty,
            ind,
        )
    }
}

/// Append the XML text of an attribute list.
pub fn append_attributes_xml(attrs: &Vec<Attribute>, pretty: bool, ind: &str, out: &mut String)
    ensures
        final(out)@ == old(out)@ + attributes_xml(attrs@, 0, pretty, ind@),
{
    let n = attrs.len();
    let child = deeper(ind);
    let mut i: usize = 0;
    while i < n
        invariant
            i <= n,
            n == attrs@.len(),
            child@ == ind@ + step_text(),
            out@ + attributes_xml(attrs@, i as int, pretty, ind@) == old(out)@ + attributes_xml(
                attrs@,
                0,
                pretty,
                ind@,
            ),
        decreases n - i,
    {
        append_sep(out, pretty, child.as_str());
        attrs[i].append_xml(pretty, child.as_str(), out);
        i += 1;
        proof {
            reveal(attributes_xml);
            assert(out@ + attributes_xml(attrs@, i as int, pretty, ind@) =~= old(out)@
                + attributes_xml(attrs@, 0, pretty, ind@));
        }
    }
    proof {
        reveal(attributes_xml);
        assert(out@ + Seq::<char>::empty() =~= out@);
    }
}

impl Grid {
    /// The compact XML text of this element.
    pub fn to_xml(&self) -> (r: String)
        ensures
            r@ == self.xml(false, Seq::empty()),
    {
        let mut s = String::new();
        self.append_xml(false, "", &mut s);
        proof {
            reveal_strlit("");
            assert(""@ =~= Seq::<char>::empty());
            assert(s@ =~= self.xml(false, Seq::empty()));
        }
        s
    }

    /// Create a uniform grid owning the given geometry and topology.
    pub fn new_uniform(name: &str, geometry: Geometry, topology: Topology) -> (r: Grid)
        ensures
            r.name@ == name@,
            r.grid_type == GridType::Uniform,
            r.collection_type is None,
            r.geometry matches Some(g) && g == geometry,
            r.topology matches Some(t) && t == topology,
            r.grids is None,
            r.time is None,
            r.attributes is None,
    {
        Grid {
            name: name.to_owned(),
            grid_type: GridType::Uniform,
            collection_type: None,
            geometry: Some(geometry),
            topology: Some(topology),
            grids: None,
            time: None,
            attributes: None,
        }
    }

    /// Create a collection grid grouping the given children.
    pub fn new_collection(
        name: &str,
        collection_type: CollectionType,
        grids: Option<Vec<Grid>>,
    ) -> (r: Grid)
        ensures
            r.name@ == name@,
            r.grid_type == GridType::Collection,
            r.collection_type == Some(collection_type),
            r.geometry is None,
            r.topology is None,
            r.grids == grids,
            r.time is None,
            r.attributes is None,
    {
        Grid {
            name: name.to_owned(),
            grid_type: GridType::Collection,
            collection_type: Some(collection_type),
            geometry: None,
            topology: None,
            grids,
            time: None,
            attributes: None,
        }
    }

    /// Create a tree grid holding the given children.
    pub fn new_tree(name: &str, grids: Option<Vec<Grid>>) -> (r: Grid)
        ensures
            r.name@ == name@,
            r.grid_type == GridType::Tree,
            r.collection_type is None,
            r.geometry is None,
            r.topology is None,
            r.grids == grids,
            r.time is None,
            r.attributes is None,
    {
        Grid {
            name: name.to_owned(),
            grid_type: GridType::Tree,
            collection_type: None,
            geometry: None,
            topology: None,
            grids,
            time: None,
            attributes: None,
        }
    }

    /// Whether this grid renders with no content between its tags.
    pub open spec fn content_empty(&self) -> bool {
        &&& self.geometry is None
        &&& self.topology is None
        &&& (match self.grids {
            Some(gs) => gs@.len() == 0,
            None => true,
        })
        &&& self.time is None
        &&& (match self.attributes {
            Some(ats) => ats@.len() == 0,
            None => true,
        })
    }

    /// The opening-tag attributes of this grid: its name, kind, and
    /// collection kind.
    #[verifier::opaque]
    pub open spec fn head_xml(&self) -> Seq<char> {
        "<Grid"@ + attr_text(" Name=\""@, self.name@) + attr_text(
            " GridType=\""@,
            self.grid_type.spec_name(),
        ) + (match self.collection_type {
            Some(c) => attr_text(" CollectionType=\""@, c.spec_name()),
            None => Seq::empty(),
        })
    }

    /// The XML text of this grid's children, in order: geometry, topology,
    /// child grids, time stamp, attributes.
    /// The XML text of this grid's geometry and topology children.
    #[verifier::opaque]
    pub open spec fn geo_topo_xml(&self, pretty: bool, ind: Seq<char>) -> Seq<char> {
        (match self.geometry {
            Some(g) => sep(pretty, ind + step_text()) + g.xml(pretty, ind + step_text()),
            None => Seq::empty(),
        }) + (match self.topology {
            Some(t) => sep(pretty, ind + step_text()) + t.xml(pretty, ind + step_text()),
            None => Seq::empty(),
        })
    }

    /// The XML text of this grid's time stamp and attribute children.
    #[verifier::opaque]
    pub open spec fn time_attrs_xml(&self, pretty: bool, ind: Seq<char>) -> Seq<char> {
        (match self.time {
            Some(t) => sep(pretty, ind + step_text()) + t.xml(),
            None => Seq::empty(),
        }) + (match self.attributes {
            Some(ats) => attributes_xml(ats@, 0, pretty, ind),
            None => Seq::empty(),
        })
    }

    pub open spec fn content_xml(&self, pretty: bool, ind: Seq<char>) -> Seq<char>
        decreases *self, 0int,
    {
        self.geo_topo_xml(pretty, ind) + (match self.grids {
            Some(gs) => grids_xml(gs, 0, pretty, ind),
            None => Seq::empty(),
        }) + self.time_attrs_xml(pretty, ind)
    }

    /// The XML text of this element at the given indentation: its name and
    /// kind attributes, then in order its geometry, topology, child grids,
    /// time stamp, and attributes.
    pub open spec fn xml(&self, pretty: bool, ind: Seq<char>) -> Seq<char>
        decreases *self, 1int,
    {
        self.head_xml() + (if self.content_empty() {
            "/>"@
        } else {
            ">"@ + self.content_xml(pretty, ind) + sep(pretty, ind) + "</Grid>"@
        })
    }

    /// Append the opening-tag attributes of this grid.
    #[verifier::spinoff_prover]
    fn append_head(&self, out: &mut String)
        ensures
            final(out)@ == old(out)@ + self.head_xml(),
    {
        proof {
            reveal(Grid::head_xml);
        }
        out.append("<Grid");
        append_attr(out, " Name=\"", self.name.as_str());
        append_attr(out, " GridType=\"", self.grid_type.name());
        match &self.collection_type {
            Some(c) => append_attr(out, " CollectionType=\"", c.name()),
            None => (),
        }
        proof {
            assert(final(out)@ =~= old(out)@ + self.head_xml());
        }
    }

    /// Append the XML text of this grid's children.
    #[verifier::rlimit(100)]
    #[verifier::spinoff_prover]
    fn append_content(&self, pretty: bool, ind: &str, out: &mut String)
        ensures
            final(out)@ == old(out)@ + self.content_xml(pretty, ind@),
        decreases *self, 0int,
    {
        let child = deeper(ind);
        match &self.geometry {
            Some(g) => {
                append_sep(out, pretty, child.as_str());
                g.append_xml(pretty, child.as_str(), out);
            },
            None => (),
        }
        match &self.topology {
            Some(t) => {
                append_sep(out, pretty, child.as_str());
                t.append_xml(pretty, child.as_str(), out);
            },
            None => (),
        }
        proof {
            reveal(Grid::geo_topo_xml);
            assert(out@ =~= old(out)@ + self.geo_topo_xml(pretty, ind@));
        }
        let ghost snap1 = out@;
        match &self.grids {
            Some(gs) => {
                proof {
                    assert(decreases_to!(*self => self.grids));
                    assert(decreases_to!(self.grids => *gs));
                }
                append_grids_xml(gs, pretty, ind, out);
            },
            None => (),
        }
        proof {
            assert(out@ =~= snap1 + (match self.grids {
                Some(gs) => grids_xml(gs, 0, pretty, ind@),
                None => Seq::<char>::empty(),
            }));
        }
        let ghost snap2 = out@;
        match &self.time {
            Some(t) => {
                append_sep(out, pretty, child.as_str());
                t.append_xml(out);
            },
            None => (),
        }
        match &self.attributes {
            Some(ats) => {
                append_attributes_xml(ats, pretty, ind, out);
            },
            None => (),
        }
        proof {
            reveal(Grid::time_attrs_xml);
            assert(out@ =~= snap2 + self.time_attrs_xml(pretty, ind@));
            assert(final(out)@ =~= old(out)@ + self.content_xml(pretty, ind@));
        }
    }

    /// Append the XML text of this element.
    #[verifier::rlimit(100)]
    #[verifier::spinoff_prover]
    pub fn append_xml(&self, pretty: bool, ind: &str, out: &mut String)
        ensures
            final(out)@ == old(out)@ + self.xml(pretty, ind@),
        decreases *self, 1int,
    {
        proof {
            reveal(Grid::xml);
        }
        self.append_head(out);
        let empty = match (&self.geometry, &self.topology, &self.time) {
            (None, None, None) => {
                let no_grids = match &self.grids {
                    Some(gs) => gs.len() == 0,
                    None => true,
                };
                let no_attrs = match &self.attributes {
                    Some(ats) => ats.len() == 0,
                    None => true,
                };
                no_grids && no_attrs
            },
            _ => false,
        };
        if empty {
            out.append("/>");
            proof {
                assert(final(out)@ =~= old(out)@ + self.xml(pretty, ind@));
            }
            return ;
        }
        out.append(">");
        self.append_content(pretty, ind, out);
        append_sep(out, pretty, ind);
        out.append("</Grid>");
        proof {
            assert(final(out)@ =~= old(out)@ + self.xml(pretty, ind@));
        }
    }
}

/// The XML text of the child grids from index `i` on, each preceded by the
/// separator one level deeper than `ind`.
pub open spec fn grids_xml(gs: Vec<Grid>, i: int, pretty: bool, ind: Seq<char>) -> Seq<char>
    decreases gs, gs.len() - i,
    via grids_xml_decreases
{
    if i < 0 || i >= gs.len() {
        Seq::empty()
    } else {
        sep(pretty, ind + step_text()) + gs[i].xml(pretty, ind + step_text()) + grids_xml(
            gs,
            i + 1,
            pretty,
            ind,
        )
    }
}

#[via_fn]
proof fn grids_xml_decreases(gs: Vec<Grid>, i: int, pretty: bool, ind: Seq<char>) {
    broadcast use vstd::std_specs::vec::axiom_vec_index_decreases;

    if 0 <= i < gs.len() {
        assert(decreases_to!(gs => gs[i]));
    }
}

/// Append the XML text of a child-grid list.
pub fn append_grids_xml(gs: &Vec<Grid>, pretty: bool, ind: &str, out: &mut String)
    ensures
        final(out)@ == old(out)@ + grids_xml(*gs, 0, pretty, ind@),
    decreases *gs,
{
    let n = gs.len();
    let child = deeper(ind);
    let mut i: usize = 0;
    while i < n
        invariant
            i <= n,
            n == gs@.len(),
            child@ == ind@ + step_text(),
            out@ + grids_xml(*gs, i as int, pretty, ind@) == old(out)@ + grids_xml(
                *gs,
                0,
                pretty,
                ind@,
            ),
        decreases n - i,
    {
        let ghost pre = out@;
        append_sep(out, pretty, child.as_str());
        proof {
            broadcast use vstd::std_specs::vec::axiom_vec_index_decreases;

            assert(decreases_to!(*gs => gs@[i as int]));
        }
        gs[i].append_xml(pretty, child.as_str(), out);
        i += 1;
        proof {
            reveal(grids_xml);
            assert(grids_xml(*gs, i - 1, pretty, ind@) == sep(pretty, ind@ + step_text()) + gs@[i
                - 1].xml(pretty, ind@ + step_text()) + grids_xml(*gs, i as int, pretty, ind@));
            assert(out@ == pre + sep(pretty, child@) + gs@[i - 1].xml(pretty, child@));
            assert(out@ + grids_xml(*gs, i as int, pretty, ind@) =~= pre + grids_xml(
                *gs,
                i - 1,
                pretty,
                ind@,
            ));
            assert(out@ + grids_xml(*gs, i as int, pretty, ind@) =~= old(out)@ + grids_xml(
                *gs,
                0,
                pretty,
                ind@,
            ));
        }
    }
    proof {
        reveal(grids_xml);
        assert(out@ + Seq::<char>::empty() =~= out@);
    }
}

} // verus!
