//! A minimal inline backend that renders arrays straight to text lines.
use vstd::prelude::*;

use crate::ascii_writer::{array_to_string_fmt, join_space, texts_of, values_line, values_to_string};
use crate::values::Values;
use crate::xdmf_elements::data_item::Format;

verus! {

/// A backend that renders every array as inline markup text.
pub struct XmlWriter {}

impl XmlWriter {
    /// Create the backend.
    pub fn new() -> XmlWriter {
        XmlWriter {  }
    }

    /// The storage format this backend records in the document.
    pub fn format(&self) -> (r: Format)
        ensures
            r == Format::XML,
    {
        Format::XML
    }

    /// Render the mesh as the point coordinate line and the encoded
    /// connectivity line.
    pub fn write_mesh(&mut self, points: &Vec<String>, cells: &Vec<u64>) -> (r: (String, String))
        ensures
            r.0@ == join_space(texts_of(points@)),
            r.1@ == join_space(texts_of(cells@)),
    {
        (array_to_string_fmt(points), array_to_string_fmt(cells))
    }

    /// Render one field array as its text line.
    pub fn write_data(&mut self, data: &Values) -> (r: String)
        ensures
            r@ == values_line(*data),
    {
        values_to_string(data)
    }
}

} // verus!
