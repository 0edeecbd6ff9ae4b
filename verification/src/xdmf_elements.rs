//! The XDMF element graph and its rendering as XML text.
//!
//! Every element renders itself through [`append_xml`]-style methods whose
//! output is pinned down exactly by a spec function. Rendering comes in a
//! compact form (no whitespace between elements) and a pretty form, where
//! each child element stands on its own line indented by four spaces.
use vstd::prelude::*;

pub mod attribute;
pub mod data_item;
pub mod dimensions;
pub mod geometry;
pub mod grid;
pub mod topology;

use crate::xdmf_elements::attribute::items_xml;
use crate::xdmf_elements::data_item::DataItem;
use crate::xdmf_elements::grid::{Grid, grids_xml};

verus! {

/// The separator written before a child at the given indentation: a line
/// break plus the indentation in the pretty form, nothing in the compact
/// form.
pub open spec fn sep(pretty: bool, ind: Seq<char>) -> Seq<char> {
    if pretty {
        seq!['\n'] + ind
    } else {
        Seq::empty()
    }
}

/// One indentation step: four spaces.
pub open spec fn step_text() -> Seq<char> {
    "    "@
}

/// Append a line break plus the indentation when rendering pretty.
pub fn append_sep(out: &mut String, pretty: bool, ind: &str)
    ensures
        final(out)@ == old(out)@ + sep(pretty, ind@),
{
    if pretty {
        out.append("\n");
        out.append(ind);
        proof {
            reveal_strlit("\n");
            assert(final(out)@ =~= old(out)@ + sep(pretty, ind@));
        }
    } else {
        proof {
            assert(final(out)@ =~= old(out)@ + sep(pretty, ind@));
        }
    }
}

/// The indentation one level deeper.
pub fn deeper(ind: &str) -> (r: String)
    ensures
        r@ == ind@ + step_text(),
{
    let mut r: String = ind.to_owned();
    r.append("    ");
    r
}

/// The text of one XML attribute: its leading key text (including the
/// space, the name, `=` and the opening quote), the verbatim value, and
/// the closing quote.
pub open spec fn attr_text(key: Seq<char>, val: Seq<char>) -> Seq<char> {
    key + val + seq!['"']
}

/// Append one XML attribute.
pub fn append_attr(out: &mut String, key: &str, val: &str)
    ensures
        final(out)@ == old(out)@ + attr_text(key@, val@),
{
    out.append(key);
    out.append(val);
    out.append("\"");
    proof {
        reveal_strlit("\"");
        assert(final(out)@ =~= old(out)@ + attr_text(key@, val@));
    }
}

/// Cell types of the VTK taxonomy, each mapping to a fixed tag and point
/// count; the single-point and two-point kinds are the "poly" kinds that
/// carry an explicit point count in the encoded connectivity.
#[derive(Clone, Copy, Debug, PartialEq, Eq, Structural)]
pub enum CellType {
    Vertex,
    Edge,
    Triangle,
    Quadrilateral,
    Tetrahedron,
    Pyramid,
    Wedge,
    Hexahedron,
    Edge3,
    Quadrilateral9,
    Triangle6,
    Quadrilateral8,
    Tetrahedron10,
    Pyramid13,
    Wedge15,
    Wedge18,
    Hexahedron20,
    Hexahedron24,
    Hexahedron27,
}

impl CellType {
    /// The numeric tag of this cell type in the VTK taxonomy.
    pub open spec fn spec_tag(&self) -> u64 {
        match self {
            CellType::Vertex => 1,
            CellType::Edge => 2,
            CellType::Triangle => 4,
            CellType::Quadrilateral => 5,
            CellType::Tetrahedron => 6,
            CellType::Pyramid => 7,
            CellType::Wedge => 8,
            CellType::Hexahedron => 9,
            CellType::Edge3 => 34,
            CellType::Quadrilateral9 => 35,
            CellType::Triangle6 => 36,
            CellType::Quadrilateral8 => 37,
            CellType::Tetrahedron10 => 38,
            CellType::Pyramid13 => 39,
            CellType::Wedge15 => 40,
            CellType::Wedge18 => 41,
            CellType::Hexahedron20 => 48,
            CellType::Hexahedron24 => 49,
            CellType::Hexahedron27 => 50,
        }
    }

    /// The numeric tag of this cell type in the VTK taxonomy.
    pub fn tag(&self) -> (r: u64)
        ensures
            r == self.spec_tag(),
    {
        match self {
            CellType::Vertex => 1,
            CellType::Edge => 2,
            CellType::Triangle => 4,
            CellType::Quadrilateral => 5,
            CellType::Tetrahedron => 6,
            CellType::Pyramid => 7,
            CellType::Wedge => 8,
            CellType::Hexahedron => 9,
            CellType::Edge3 => 34,
            CellType::Quadrilateral9 => 35,
            CellType::Triangle6 => 36,
            CellType::Quadrilateral8 => 37,
            CellType::Tetrahedron10 => 38,
            CellType::Pyramid13 => 39,
            CellType::Wedge15 => 40,
            CellType::Wedge18 => 41,
            CellType::Hexahedron20 => 48,
            CellType::Hexahedron24 => 49,
            CellType::Hexahedron27 => 50,
        }
    }

    /// The number of points a cell of this type connects.
    pub open spec fn spec_num_points(&self) -> int {
        match self {
            CellType::Vertex => 1,
            CellType::Edge => 2,
            CellType::Triangle => 3,
            CellType::Quadrilateral => 4,
            CellType::Tetrahedron => 4,
            CellType::Pyramid => 5,
            CellType::Wedge => 6,
            CellType::Hexahedron => 8,
            CellType::Edge3 => 3,
            CellType::Quadrilateral9 => 9,
            CellType::Triangle6 => 6,
            CellType::Quadrilateral8 => 8,
            CellType::Tetrahedron10 => 10,
            CellType::Pyramid13 => 13,
            CellType::Wedge15 => 15,
            CellType::Wedge18 => 18,
            CellType::Hexahedron20 => 20,
            CellType::Hexahedron24 => 24,
            CellType::Hexahedron27 => 27,
        }
    }

    /// The number of points a cell of this type connects.
    pub fn num_points(&self) -> (r: usize)
        ensures
            r == self.spec_num_points(),
            1 <= r <= 27,
    {
        match self {
            CellType::Vertex => 1,
            CellType::Edge => 2,
            CellType::Triangle => 3,
            CellType::Quadrilateral => 4,
            CellType::Tetrahedron => 4,
            CellType::Pyramid => 5,
            CellType::Wedge => 6,
            CellType::Hexahedron => 8,
            CellType::Edge3 => 3,
            CellType::Quadrilateral9 => 9,
            CellType::Triangle6 => 6,
            CellType::Quadrilateral8 => 8,
            CellType::Tetrahedron10 => 10,
            CellType::Pyramid13 => 13,
            CellType::Wedge15 => 15,
            CellType::Wedge18 => 18,
            CellType::Hexahedron20 => 20,
            CellType::Hexahedron24 => 24,
            CellType::Hexahedron27 => 27,
        }
    }
}

/// Application-specific metadata carried by the document root.
pub struct Information {
    pub name: String,
    pub value: String,
}

impl Information {
    /// Create a new information entry.
    pub fn new(name: &str, value: &str) -> (r: Information)
        ensures
            r.name@ == name@,
            r.value@ == value@,
    {
        Information { name: name.to_owned(), value: value.to_owned() }
    }

    /// The XML text of this element.
    #[verifier::opaque]
    pub open spec fn xml(&self) -> Seq<char> {
        "<Information"@ + attr_text(" Name=\""@, self.name@) + attr_text(" Value=\""@, self.value@)
            + "/>"@
    }

    /// Append the XML text of this element.
    pub fn append_xml(&self, out: &mut String)
        ensures
            final(out)@ == old(out)@ + self.xml(),
    {
        proof {
            reveal(Information::xml);
        }
        out.append("<Information");
        append_attr(out, " Name=\"", self.name.as_str());
        append_attr(out, " Value=\"", self.value.as_str());
        out.append("/>");
        proof {
            assert(final(out)@ =~= old(out)@ + self.xml());
        }
    }
}

/// The XML text of the information entries from index `i` on, each
/// preceded by the separator one level deeper than `ind`.
#[verifier::opaque]
pub open spec fn informations_xml(
    infos: Seq<Information>,
    i: int,
    pretty: bool,
    ind: Seq<char>,
) -> Seq<char>
    decreases infos.len() - i,
{
    if i < 0 || i >= infos.len() {
        Seq::empty()
    } else {
        sep(pretty, ind + step_text()) + infos[i].xml() + informations_xml(infos, i + 1, pretty, ind)
    }
}

/// Append the XML text of an information list.
pub fn append_informations_xml(infos: &Vec<Information>, pretty: bool, ind: &str, out: &mut String)
    ensures
        final(out)@ == old(out)@ + informations_xml(infos@, 0, pretty, ind@),
{
    let n = infos.len();
    let child = deeper(ind);
    let mut i: usize = 0;
    while i < n
        invariant
            i <= n,
            n == infos@.len(),
            child@ == ind@ + step_text(),
            out@ + informations_xml(infos@, i as int, pretty, ind@) == old(out)@
                + informations_xml(infos@, 0, pretty, ind@),
        decreases n - i,
    {
        append_sep(out, pretty, child.as_str());
        infos[i].append_xml(out);
        i += 1;
        proof {
            reveal(informations_xml);
            assert(out@ + informations_xml(infos@, i as int, pretty, ind@) =~= old(out)@
                + informations_xml(infos@, 0, pretty, ind@));
        }
    }
    proof {
        reveal(informations_xml);
        assert(out@ + Seq::<char>::empty() =~= out@);
    }
}

/// The XML text of the domains from index `i` on, each preceded by the
/// separator one level deeper than `ind`.
#[verifier::opaque]
pub open spec fn domains_xml(ds: Seq<Domain>, i: int, pretty: bool, ind: Seq<char>) -> Seq<char>
    decreases ds.len() - i,
{
    if i < 0 || i >= ds.len() {
        Seq::empty()
    } else {
        sep(pretty, ind + step_text()) + ds[i].xml(pretty, ind + step_text()) + domains_xml(
            ds,
            i + 1,
            pretty,
            ind,
        )
    }
}

/// Append the XML text of a domain list.
pub fn append_domains_xml(ds: &Vec<Domain>, pretty: bool, ind: &str, out: &mut String)
    ensures
        final(out)@ == old(out)@ + domains_xml(ds@, 0, pretty, ind@),
{
    let n = ds.len();
    let child = deeper(ind);
    let mut i: usize = 0;
    while i < n
        invariant
            i <= n,
            n == ds@.len(),
            child@ == ind@ + step_text(),
            out@ + domains_xml(ds@, i as int, pretty, ind@) == old(out)@ + domains_xml(
                ds@,
                0,
                pretty,
                ind@,
            ),
        decreases n - i,
    {
        append_sep(out, pretty, child.as_str());
        ds[i].append_xml(pretty, child.as_str(), out);
        i += 1;
        proof {
            reveal(domains_xml);
            assert(out@ + domains_xml(ds@, i as int, pretty, ind@) =~= old(out)@ + domains_xml(
                ds@,
                0,
                pretty,
                ind@,
            ));
        }
    }
    proof {
        reveal(domains_xml);
        assert(out@ + Seq::<char>::empty() =~= out@);
    }
}

/// The top-level container of grids and shared data items: one
/// computational domain.
pub struct Domain {
    pub grids: Vec<Grid>,
    pub data_items: Vec<DataItem>,
}

/// The root element of a document: format version, the XML-inclusion
/// namespace, the domains, and free-form metadata.
pub struct Xdmf {
    pub version: String,
    pub xinclude_url: String,
    pub domains: Vec<Domain>,
    pub information: Vec<Information>,
}

impl Xdmf {
    /// Create a document around one domain, at format version 2.0 with the
    /// XML-inclusion namespace declared.
    pub fn new(domain: Domain) -> (r: Xdmf)
        ensures
            r.version@ == "2.0"@,
            r.xinclude_url@ == "http://www.w3.org/2001/XInclude"@,
            r.domains@.len() == 1,
            r.domains@[0] == domain,
            r.information@.len() == 0,
    {
        let mut domains: Vec<Domain> = Vec::new();
        domains.push(domain);
        Xdmf {
            version: "2.0".to_owned(),
            xinclude_url: "http://www.w3.org/2001/XInclude".to_owned(),
            domains,
            information: Vec::new(),
        }
    }
}

impl Xdmf {
    /// The XML text of the document root at the given indentation: the
    /// format version and XML-inclusion namespace, then the domains, then
    /// the information entries.
    #[verifier::opaque]
    pub open spec fn xml(&self, pretty: bool, ind: Seq<char>) -> Seq<char> {
        "<Xdmf"@ + attr_text(" Version=\""@, self.version@) + attr_text(
            " xmlns:xi=\""@,
            self.xinclude_url@,
        ) + (if self.domains@.len() == 0 && self.information@.len() == 0 {
            "/>"@
        } else {
            ">"@ + domains_xml(self.domains@, 0, pretty, ind) + informations_xml(
                self.information@,
                0,
                pretty,
                ind,
            ) + sep(pretty, ind) + "</Xdmf>"@
        })
    }

    /// Append the XML text of the document root.
    pub fn append_xml(&self, pretty: bool, ind: &str, out: &mut String)
        ensures
            final(out)@ == old(out)@ + self.xml(pretty, ind@),
    {
        proof {
            reveal(Xdmf::xml);
        }
        out.append("<Xdmf");
        append_attr(out, " Version=\"", self.version.as_str());
        append_attr(out, " xmlns:xi=\"", self.xinclude_url.as_str());
        if self.domains.len() == 0 && self.information.len() == 0 {
            out.append("/>");
        } else {
            out.append(">");
            append_domains_xml(&self.domains, pretty, ind, out);
            append_informations_xml(&self.information, pretty, ind, out);
            append_sep(out, pretty, ind);
            out.append("</Xdmf>");
        }
        proof {
            assert(final(out)@ =~= old(out)@ + self.xml(pretty, ind@));
        }
    }

    /// The compact XML text of the document.
    pub fn to_xml(&self) -> (r: String)
        ensures
            r@ == self.xml(false, Seq::empty()),
    {
        let mut s = String::new();
        self.append_xml(false, "", &mut s);
        proof {
            reveal_strlit("");
            assert(""@ =~= Seq::<char>::empty());
            assert(s@ =~= self.xml(false, Seq::empty()));
        }
        s
    }

    /// The full document text: the root element rendered pretty, each
    /// child element on its own line indented by four spaces. The text
    /// begins directly at the root element's opening tag, without a
    /// leading line break.
    pub fn write_to(&self) -> (r: String)
        ensures
            r@ == self.xml(true, Seq::empty()),
    {
        let mut s = String::new();
        self.append_xml(true, "", &mut s);
        proof {
            reveal_strlit("");
            assert(""@ =~= Seq::<char>::empty());
            assert(s@ =~= self.xml(true, Seq::empty()));
        }
        s
    }
}

impl Default for Xdmf {
    /// A document holding one empty domain.
    fn default() -> (r: Xdmf)
        ensures
            r.version@ == "2.0"@,
            r.xinclude_url@ == "http://www.w3.org/2001/XInclude"@,
            r.domains@.len() == 1,
            r.domains@[0].grids@.len() == 0,
            r.domains@[0].data_items@.len() == 0,
            r.information@.len() == 0,
    {
        Xdmf::new(Domain::default())
    }
}

impl Domain {
    /// The XML text of this element at the given indentation: its grids,
    /// then its shared data items.
    #[verifier::opaque]
    pub open spec fn xml(&self, pretty: bool, ind: Seq<char>) -> Seq<char> {
        "<Domain"@ + (if self.grids@.len() == 0 && self.data_items@.len() == 0 {
            "/>"@
        } else {
            ">"@ + grids_xml(self.grids, 0, pretty, ind) + items_xml(
                self.data_items@,
                0,
                pretty,
                ind,
            ) + sep(pretty, ind) + "</Domain>"@
        })
    }

    /// Append the XML text of this element.
    pub fn append_xml(&self, pretty: bool, ind: &str, out: &mut String)
        ensures
            final(out)@ == old(out)@ + self.xml(pretty, ind@),
    {
        proof {
            reveal(Domain::xml);
        }
        out.append("<Domain");
        if self.grids.len() == 0 && self.data_items.len() == 0 {
            out.append("/>");
        } else {
            out.append(">");
            crate::xdmf_elements::grid::append_grids_xml(&self.grids, pretty, ind, out);
            crate::xdmf_elements::attribute::append_items_xml(&self.data_items, pretty, ind, out);
            append_sep(out, pretty, ind);
            out.append("</Domain>");
        }
        proof {
            assert(final(out)@ =~= old(out)@ + self.xml(pretty, ind@));
        }
    }

    /// The compact XML text of this element.
    pub fn to_xml(&self) -> (r: String)
        ensures
            r@ == self.xml(false, Seq::empty()),
    {
        let mut s = String::new();
        self.append_xml(false, "", &mut s);
        proof {
            reveal_strlit("");
            assert(""@ =~= Seq::<char>::empty());
            assert(s@ =~= self.xml(false, Seq::empty()));
        }
        s
    }

    /// Create a domain holding one grid and no shared data items.
    pub fn new(grid: Grid) -> (r: Domain)
        ensures
            r.grids@.len() == 1,
            r.grids@[0] == grid,
            r.data_items@.len() == 0,
    {
        let mut grids: Vec<Grid> = Vec::new();
        grids.push(grid);
        Domain { grids, data_items: Vec::new() }
    }
}

impl Default for Domain {
    /// A domain with no grids and no shared data items.
    fn default() -> (r: Domain)
        ensures
            r.grids@.len() == 0,
            r.data_items@.len() == 0,
    {
        Domain { grids: Vec::new(), data_items: Vec::new() }
    }
}

} // verus!
