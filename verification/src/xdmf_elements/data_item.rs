//! The DataItem element: where and how one numeric payload is stored.
use vstd::prelude::*;

use crate::ascii_writer::{dec_nat, dec_u64};
use crate::xdmf_elements::dimensions::{Dimensions, dims_text};
use crate::xdmf_elements::{append_attr, append_sep, attr_text, deeper, sep, step_text};

verus! {

/// The unit of payload placement: an optional name, the payload's shape,
/// element number-kind, storage format and byte width, the content itself,
/// and an optional reference mark.
///
/// A data item that references another one by path carries no shape,
/// number-kind, format or precision of its own: those are inherited from
/// the referenced source.
#[derive(Debug)]
pub struct DataItem {
    pub name: Option<String>,
    pub dimensions: Option<Dimensions>,
    pub number_type: Option<NumberType>,
    pub format: Option<Format>,
    pub precision: Option<u8>,
    pub data: DataContent,
    pub reference: Option<String>,
}

/// The content of a data item: literal text, or the inclusion of an
/// external file.
#[derive(Debug)]
pub enum DataContent {
    /// The payload as raw text.
    Raw(String),
    /// The payload in an external file, included by reference.
    Include(XInclude),
}

/// The inclusion of an external file, parsed as raw text or as markup.
#[derive(Debug)]
pub struct XInclude {
    pub file_path: String,
    pub parse: Option<String>,
}

/// The element number-kind of a payload.
#[derive(Clone, Copy, Debug, PartialEq, Eq, Structural)]
pub enum NumberType {
    Float,
    Int,
    UInt,
    Char,
    UChar,
}

impl Default for NumberType {
    fn default() -> (r: NumberType)
        ensures
            r == NumberType::Float,
    {
        NumberType::Float
    }
}

impl NumberType {
    /// The name of this number-kind in the document.
    pub open spec fn spec_name(&self) -> Seq<char> {
        match self {
            NumberType::Float => "Float"@,
            NumberType::Int => "Int"@,
            NumberType::UInt => "UInt"@,
            NumberType::Char => "Char"@,
            NumberType::UChar => "UChar"@,
        }
    }

    /// The name of this number-kind in the document.
    pub fn name(&self) -> (r: &str)
        ensures
            r@ == self.spec_name(),
    {
        match self {
            NumberType::Float => "Float",
            NumberType::Int => "Int",
            NumberType::UInt => "UInt",
            NumberType::Char => "Char",
            NumberType::UChar => "UChar",
        }
    }
}

/// The storage format of a payload: inline markup text, an external keyed
/// array store, or raw binary.
#[derive(Clone, Copy, Debug, PartialEq, Eq, Structural)]
pub enum Format {
    XML,
    HDF,
    Binary,
}

impl Default for Format {
    fn default() -> (r: Format)
        ensures
            r == Format::XML,
    {
        Format::XML
    }
}

impl Format {
    /// The name of this format in the document.
    pub open spec fn spec_name(&self) -> Seq<char> {
        match self {
            Format::XML => "XML"@,
            Format::HDF => "HDF"@,
            Format::Binary => "Binary"@,
        }
    }

    /// The name of this format in the document.
    pub fn name(&self) -> (r: &str)
        ensures
            r@ == self.spec_name(),
    {
        match self {
            Format::XML => "XML",
            Format::HDF => "HDF",
            Format::Binary => "Binary",
        }
    }
}

impl XInclude {
    /// The compact XML text of this element.
    pub fn to_xml(&self) -> (r: String)
        ensures
            r@ == self.xml(),
    {
        let mut s = String::new();
        self.append_xml(&mut s);
        proof {
            assert(s@ =~= self.xml());
        }
        s
    }

    /// Create an inclusion of the given file, parsed as raw text when
    /// `include_as_text` is set (markup is the default).
    pub fn new(file_path: &str, include_as_text: bool) -> (r: XInclude)
        ensures
            r.file_path@ == file_path@,
            include_as_text ==> (r.parse matches Some(p) && p@ == "text"@),
            !include_as_text ==> r.parse is None,
    {
        XInclude {
            file_path: file_path.to_owned(),
            parse: if include_as_text {
                Some("text".to_owned())
            } else {
                None
            },
        }
    }

    /// The XML text of this element.
    #[verifier::opaque]
    pub open spec fn xml(&self) -> Seq<char> {
        "<xi:include"@ + attr_text(" href=\""@, self.file_path@) + (match self.parse {
            Some(p) => attr_text(" parse=\""@, p@),
            None => Seq::empty(),
        }) + "/>"@
    }

    /// Append the XML text of this element.
    pub fn append_xml(&self, out: &mut String)
        ensures
            final(out)@ == old(out)@ + self.xml(),
    {
        out.append("<xi:include");
        append_attr(out, " href=\"", self.file_path.as_str());
        match &self.parse {
            Some(p) => append_attr(out, " parse=\"", p.as_str()),
            None => (),
        }
        out.append("/>");
        proof {
            reveal(XInclude::xml);
            assert(final(out)@ =~= old(out)@ + self.xml());
        }
    }
}

impl From<String> for DataContent {
    fn from(data: String) -> (r: DataContent) {
        DataContent::Raw(data)
    }
}

impl vstd::std_specs::convert::FromSpecImpl<String> for DataContent {
    open spec fn obeys_from_spec() -> bool {
        true
    }

    open spec fn from_spec(data: String) -> DataContent {
        DataContent::Raw(data)
    }
}

impl From<XInclude> for DataContent {
    fn from(inclusion: XInclude) -> (r: DataContent) {
        DataContent::Include(inclusion)
    }
}

impl vstd::std_specs::convert::FromSpecImpl<XInclude> for DataContent {
    open spec fn obeys_from_spec() -> bool {
        true
    }

    open spec fn from_spec(inclusion: XInclude) -> DataContent {
        DataContent::Include(inclusion)
    }
}

impl DataItem {
    /// The compact XML text of this element.
    pub fn to_xml(&self) -> (r: String)
        ensures
            r@ == self.xml(false, Seq::empty()),
    {
        let mut s = String::new();
        self.append_xml(false, "", &mut s);
        proof {
            reveal_strlit("");
            assert(""@ =~= Seq::<char>::empty());
            assert(s@ =~= self.xml(false, Seq::empty()));
        }
        s
    }

    /// Create a data item that references the `source` item, by the path
    /// where the source stands in the document and the source's name.
    /// A source without a name is cited as `MISSING`.
    pub fn new_reference(source: &DataItem, source_path: &str) -> (r: DataItem)
        ensures
            r.name is None,
            r.dimensions is None,
            r.number_type is None,
            r.format is None,
            r.precision is None,
            r.reference matches Some(m) && m@ == "XML"@,
            r.data matches DataContent::Raw(d) && d@ == source_path@ + "[@Name=\""@ + (
            match source.name {
                Some(n) => n@,
                None => "MISSING"@,
            }) + "\"]"@,
    {
        let mut text: String = source_path.to_owned();
        text.append("[@Name=\"");
        match &source.name {
            Some(n) => text.append(n.as_str()),
            None => text.append("MISSING"),
        }
        text.append("\"]");
        DataItem {
            name: None,
            dimensions: None,
            number_type: None,
            format: None,
            precision: None,
            data: DataContent::Raw(text),
            reference: Some("XML".to_owned()),
        }
    }

    /// The opening-tag attributes of this item.
    #[verifier::opaque]
    pub open spec fn attrs_xml(&self) -> Seq<char> {
        (match self.name {
            Some(n) => attr_text(" Name=\""@, n@),
            None => Seq::empty(),
        }) + (match self.dimensions {
            Some(d) => attr_text(" Dimensions=\""@, dims_text(d.0@)),
            None => Seq::empty(),
        }) + (match self.number_type {
            Some(t) => attr_text(" NumberType=\""@, t.spec_name()),
            None => Seq::empty(),
        }) + (match self.format {
            Some(f) => attr_text(" Format=\""@, f.spec_name()),
            None => Seq::empty(),
        }) + (match self.precision {
            Some(p) => attr_text(" Precision=\""@, dec_nat(p as nat)),
            None => Seq::empty(),
        }) + (match self.reference {
            Some(m) => attr_text(" Reference=\""@, m@),
            None => Seq::empty(),
        })
    }

    /// The XML text of this element at the given indentation: the
    /// attributes, then the content — self-closing for empty text, inline
    /// for raw text, and an inclusion child on its own line when pretty.
    #[verifier::opaque]
    pub open spec fn xml(&self, pretty: bool, ind: Seq<char>) -> Seq<char> {
        "<DataItem"@ + self.attrs_xml() + (match self.data {
            DataContent::Raw(s) => if s@.len() == 0 {
                "/>"@
            } else {
                ">"@ + s@ + "</DataItem>"@
            },
            DataContent::Include(x) => ">"@ + sep(pretty, ind + step_text()) + x.xml() + sep(
                pretty,
                ind,
            ) + "</DataItem>"@,
        })
    }

    /// Append the opening-tag attributes of this item.
    #[verifier::rlimit(100)]
    #[verifier::spinoff_prover]
    fn append_attrs(&self, out: &mut String)
        ensures
            final(out)@ == old(out)@ + self.attrs_xml(),
    {
        proof {
            reveal(DataItem::attrs_xml);
        }
        let ghost a1 = if self.name is Some {
            attr_text(" Name=\""@, self.name->0@)
        } else {
            Seq::<char>::empty()
        };
        let ghost a2 = if self.dimensions is Some {
            attr_text(" Dimensions=\""@, dims_text((self.dimensions->0).0@))
        } else {
            Seq::<char>::empty()
        };
        let ghost a3 = if self.number_type is Some {
            attr_text(" NumberType=\""@, self.number_type->0.spec_name())
        } else {
            Seq::<char>::empty()
        };
        let ghost a4 = if self.format is Some {
            attr_text(" Format=\""@, self.format->0.spec_name())
        } else {
            Seq::<char>::empty()
        };
        let ghost a5 = if self.precision is Some {
            attr_text(" Precision=\""@, dec_nat(self.precision->0 as nat))
        } else {
            Seq::<char>::empty()
        };
        let ghost a6 = if self.reference is Some {
            attr_text(" Reference=\""@, self.reference->0@)
        } else {
            Seq::<char>::empty()
        };
        proof {
            assert(self.attrs_xml() == a1 + a2 + a3 + a4 + a5 + a6);
        }
        match &self.name {
            Some(n) => append_attr(out, " Name=\"", n.as_str()),
            None => (),
        }
        proof {
            assert(out@ =~= old(out)@ + a1);
        }
        let ghost snap1 = out@;
        match &self.dimensions {
            Some(d) => {
                let t = d.to_text();
                append_attr(out, " Dimensions=\"", t.as_str());
            },
            None => (),
        }
        proof {
            assert(out@ =~= snap1 + a2);
        }
        let ghost snap2 = out@;
        match &self.number_type {
            Some(t) => append_attr(out, " NumberType=\"", t.name()),
            None => (),
        }
        proof {
            assert(out@ =~= snap2 + a3);
        }
        let ghost snap3 = out@;
        match &self.format {
            Some(f) => append_attr(out, " Format=\"", f.name()),
            None => (),
        }
        proof {
            assert(out@ =~= snap3 + a4);
        }
        let ghost snap4 = out@;
        match &self.precision {
            Some(p) => {
                let t = dec_u64(*p as u64);
                append_attr(out, " Precision=\"", t.as_str());
            },
            None => (),
        }
        proof {
            assert(out@ =~= snap4 + a5);
        }
        let ghost snap5 = out@;
        match &self.reference {
            Some(m) => append_attr(out, " Reference=\"", m.as_str()),
            None => (),
        }
        proof {
            assert(out@ =~= snap5 + a6);
            assert(out@ =~= old(out)@ + self.attrs_xml());
        }
    }

    /// Append the XML text of this element.
    #[verifier::spinoff_prover]
    pub fn append_xml(&self, pretty: bool, ind: &str, out: &mut String)
        ensures
            final(out)@ == old(out)@ + self.xml(pretty, ind@),
    {
        proof {
            reveal(DataItem::xml);
        }
        out.append("<DataItem");
        self.append_attrs(out);
        let ghost snap6 = out@;
        match &self.data {
            DataContent::Raw(s) => {
                if s.as_str().unicode_len() == 0 {
                    out.append("/>");
                    proof {
                        assert(out@ =~= snap6 + "/>"@);
                    }
                } else {
                    out.append(">");
                    out.append(s.as_str());
                    out.append("</DataItem>");
                    proof {
                        assert(out@ =~= snap6 + ">"@ + s@ + "</DataItem>"@);
                    }
                }
            },
            DataContent::Include(x) => {
                out.append(">");
                let child = deeper(ind);
                append_sep(out, pretty, child.as_str());
                x.append_xml(out);
                append_sep(out, pretty, ind);
                out.append("</DataItem>");
                proof {
                    assert(out@ =~= snap6 + ">"@ + sep(pretty, ind@ + step_text()) + x.xml() + sep(
                        pretty,
                        ind@,
                    ) + "</DataItem>"@);
                }
            },
        }
        proof {
            assert(final(out)@ =~= old(out)@ + self.xml(pretty, ind@));
        }
    }
}

impl Default for DataItem {
    /// A data item with empty inline text: shape `1`, float elements,
    /// inline markup format, byte width 4.
    fn default() -> (r: DataItem)
        ensures
            r.name is None,
            r.dimensions matches Some(d) && d.0@ == seq![1usize],
            r.number_type == Some(NumberType::Float),
            r.format == Some(Format::XML),
            r.precision == Some(4u8),
            r.data matches DataContent::Raw(s) && s@.len() == 0,
            r.reference is None,
    {
        let mut one: Vec<usize> = Vec::new();
        one.push(1);
        proof {
            assert(one@ =~= seq![1usize]);
        }
        DataItem {
            name: None,
            dimensions: Some(Dimensions(one)),
            number_type: Some(NumberType::Float),
            format: Some(Format::XML),
            precision: Some(4),
            data: DataContent::Raw(String::new()),
            reference: None,
        }
    }
}

} // verus!
