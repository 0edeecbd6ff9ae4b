//! A verified library for writing XDMF documents: the XML metadata format
//! used by scientific visualization tools to describe simulation meshes and
//! time-varying field data, with the heavy numeric payloads stored inline,
//! in side files, or in an external keyed array store.
//!
//! The library is the pure core of the time-series writing pipeline: it
//! validates mesh and field input, encodes mixed-topology cell
//! connectivity, assembles and renders the document tree, and plans every
//! file-system and array-store operation as data ([`persist::FileOp`]). A
//! thin unverified shell executes those plans; nothing in this crate
//! touches the file system itself.
//!
//! Floating-point values are carried as their rendered text tokens (for
//! 64-bit floats, normalized scientific notation with 16 fractional
//! digits): the pipeline never computes with them, it only counts and
//! prints them, so the token is the faithful model of what the logic
//! reads.
use vstd::prelude::*;

pub mod ascii_writer;
pub mod hdf5_writer;
pub mod persist;
pub mod text;
pub mod time_series_writer;
pub mod values;
pub mod xdmf_elements;
pub mod xml_writer;

pub use crate::time_series_writer::{SubMesh, TimeSeriesDataWriter, TimeSeriesWriter};
pub use crate::values::Values;
pub use crate::xdmf_elements::CellType;

use crate::ascii_writer::{AsciiInlineWriter, AsciiWriter, join_space, texts_of, values_line};
use crate::hdf5_writer::{MultipleFilesHdf5Writer, SingleFileHdf5Writer};
use crate::persist::FileOp;
use crate::text::lower_match_seq;
use crate::xdmf_elements::attribute::Center;
use crate::xdmf_elements::data_item::{DataContent, Format};

verus! {

/// How the heavy numeric data of a document is persisted.
#[derive(Clone, Copy, Debug, PartialEq, Eq, Structural)]
pub enum DataStorage {
    /// Text files, one per data set, in a sibling directory.
    Ascii,
    /// Text embedded directly in the document; only for small data.
    AsciiInline,
    /// One array-store file holding every data set.
    Hdf5SingleFile,
    /// One array-store file per time step, in a sibling directory.
    Hdf5MultipleFiles,
}

/// The rejection message for a storage-mode name that matches no variant.
pub open spec fn storage_parse_error(s: Seq<char>) -> Seq<char> {
    "Invalid DataStorage variant: '"@ + s
        + "'. Valid options are: 'Ascii', 'AsciiInline', 'Hdf5SingleFile', 'Hdf5MultipleFiles'"@
}

/// Read a storage mode from its name, ASCII-case-insensitively, accepting
/// the plain, underscore and hyphen spellings of each variant.
pub fn parse_data_storage(s: &str) -> (r: Result<DataStorage, String>)
    ensures
        r matches Ok(v) ==> {
            ||| v == DataStorage::Ascii && lower_match_seq(s@, "ascii"@)
            ||| v == DataStorage::AsciiInline && (lower_match_seq(s@, "asciiinline"@)
                || lower_match_seq(s@, "ascii_inline"@) || lower_match_seq(s@, "ascii-inline"@))
            ||| v == DataStorage::Hdf5SingleFile && (lower_match_seq(s@, "hdf5singlefile"@)
                || lower_match_seq(s@, "hdf5_single_file"@) || lower_match_seq(
                s@,
                "hdf5-single-file"@,
            ))
            ||| v == DataStorage::Hdf5MultipleFiles && (lower_match_seq(s@, "hdf5multiplefiles"@)
                || lower_match_seq(s@, "hdf5_multiple_files"@) || lower_match_seq(
                s@,
                "hdf5-multiple-files"@,
            ))
        },
        r matches Err(m) ==> m@ == storage_parse_error(s@) && !lower_match_seq(s@, "ascii"@)
            && !lower_match_seq(s@, "asciiinline"@) && !lower_match_seq(s@, "ascii_inline"@)
            && !lower_match_seq(s@, "ascii-inline"@) && !lower_match_seq(s@, "hdf5singlefile"@)
            && !lower_match_seq(s@, "hdf5_single_file"@) && !lower_match_seq(
            s@,
            "hdf5-single-file"@,
        ) && !lower_match_seq(s@, "hdf5multiplefiles"@) && !lower_match_seq(
            s@,
            "hdf5_multiple_files"@,
        ) && !lower_match_seq(s@, "hdf5-multiple-files"@),
{
    if crate::text::eq_ignore_ascii_case(s, "ascii") {
        Ok(DataStorage::Ascii)
    } else if crate::text::eq_ignore_ascii_case(s, "asciiinline")
        || crate::text::eq_ignore_ascii_case(s, "ascii_inline")
        || crate::text::eq_ignore_ascii_case(s, "ascii-inline") {
        Ok(DataStorage::AsciiInline)
    } else if crate::text::eq_ignore_ascii_case(s, "hdf5singlefile")
        || crate::text::eq_ignore_ascii_case(s, "hdf5_single_file")
        || crate::text::eq_ignore_ascii_case(s, "hdf5-single-file") {
        Ok(DataStorage::Hdf5SingleFile)
    } else if crate::text::eq_ignore_ascii_case(s, "hdf5multiplefiles")
        || crate::text::eq_ignore_ascii_case(s, "hdf5_multiple_files")
        || crate::text::eq_ignore_ascii_case(s, "hdf5-multiple-files") {
        Ok(DataStorage::Hdf5MultipleFiles)
    } else {
        let mut m: String = "Invalid DataStorage variant: '".to_owned();
        m.append(s);
        m.append(
            "'. Valid options are: 'Ascii', 'AsciiInline', 'Hdf5SingleFile', 'Hdf5MultipleFiles'",
        );
        proof {
            assert(m@ =~= storage_parse_error(s@));
        }
        Err(m)
    }
}

impl core::str::FromStr for DataStorage {
    type Err = String;

    fn from_str(s: &str) -> Result<Self, String> {
        parse_data_storage(s)
    }
}

/// Whether this build carries the array-store capability.
pub open spec fn spec_hdf5_enabled() -> bool {
    false
}

/// Whether array-store output is available: the capability flag checked
/// once at backend construction. This build ships a shell without an
/// array-store backend, so the flag is off and [`create_writer`] refuses
/// the array-store modes.
pub fn is_hdf5_enabled() -> (r: bool)
    ensures
        r == spec_hdf5_enabled(),
{
    false
}

/// The rejection message for an array-store mode without the capability.
pub open spec fn msg_hdf5_unavailable(data_storage: DataStorage) -> Seq<char> {
    if data_storage == DataStorage::Hdf5MultipleFiles {
        "Using Hdf5MultipleFiles DataStorage requires the hdf5 feature."@
    } else {
        "Using Hdf5SingleFile DataStorage requires the hdf5 feature."@
    }
}

/// The semantic shape of one field: how many values each entity carries.
#[derive(Clone, Copy, Debug, PartialEq, Eq, Structural)]
pub enum DataAttribute {
    /// One value per entity.
    Scalar,
    /// A 3-component vector per entity.
    Vector,
    /// A full second-order tensor per entity (9 components).
    Tensor,
    /// A symmetric second-order tensor per entity (6 components).
    Tensor6,
    /// A matrix with the given rows and columns per entity.
    Matrix(usize, usize),
    /// A generic shape with the given component count per entity.
    Generic(usize),
}

impl DataAttribute {
    /// The number of values one entity carries under this shape.
    pub open spec fn spec_size(&self) -> int {
        match self {
            DataAttribute::Scalar => 1,
            DataAttribute::Vector => 3,
            DataAttribute::Tensor => 9,
            DataAttribute::Tensor6 => 6,
            DataAttribute::Matrix(n, m) => *n as int * *m as int,
            DataAttribute::Generic(k) => *k as int,
        }
    }

    /// The number of values one entity carries under this shape.
    pub fn size(&self) -> (r: usize)
        requires
            self.spec_size() <= usize::MAX,
        ensures
            r == self.spec_size(),
    {
        match self {
            DataAttribute::Scalar => 1,
            DataAttribute::Vector => 3,
            DataAttribute::Tensor => 9,
            DataAttribute::Tensor6 => 6,
            DataAttribute::Matrix(n, m) => *n * *m,
            DataAttribute::Generic(k) => *k,
        }
    }
}

/// One named field handed to a time-step write: its name, semantic shape,
/// and flat values.
pub type DataEntry = (String, (DataAttribute, crate::values::Values));

/// Named fields of one time step, in the order they are to appear.
pub type DataMap = Vec<DataEntry>;

/// An error of the writing pipeline. Every failure is a returned value;
/// the verified pipeline never panics.
#[derive(Debug)]
pub enum XdmfError {
    /// The caller's input violates a structural rule.
    InvalidInput(String),
    /// A per-time-step resource was used out of protocol order.
    ResourceState(String),
    /// The chosen storage mode needs a capability this build lacks.
    Unsupported(String),
}

/// The message of the protocol error for data written before a time step
/// was initialized.
pub open spec fn msg_not_initialized() -> Seq<char> {
    "Writing data was not initialized"@
}

/// The message of the protocol error for a time step initialized twice.
pub open spec fn msg_already_initialized() -> Seq<char> {
    "Writing data was already initialized"@
}

impl XdmfError {
    /// The message carried by the error.
    pub open spec fn spec_message(&self) -> Seq<char> {
        match self {
            XdmfError::InvalidInput(m) => m@,
            XdmfError::ResourceState(m) => m@,
            XdmfError::Unsupported(m) => m@,
        }
    }

    /// The message carried by the error.
    pub fn message(&self) -> (r: String)
        ensures
            r@ == self.spec_message(),
    {
        match self {
            XdmfError::InvalidInput(m) => m.as_str().to_owned(),
            XdmfError::ResourceState(m) => m.as_str().to_owned(),
            XdmfError::Unsupported(m) => m.as_str().to_owned(),
        }
    }
}


/// The storage backend behind the writing pipeline: one of the four
/// strategies, chosen at construction time.
pub enum DataWriter {
    /// Text embedded directly in the document.
    AsciiInline(AsciiInlineWriter),
    /// One text side file per array.
    Ascii(AsciiWriter),
    /// One array-store file for everything.
    Hdf5SingleFile(SingleFileHdf5Writer),
    /// One array-store file per time step.
    Hdf5MultipleFiles(MultipleFilesHdf5Writer),
}

impl DataWriter {
    /// The storage format this backend records in the document.
    pub open spec fn spec_format(&self) -> Format {
        match self {
            DataWriter::AsciiInline(_) => Format::XML,
            DataWriter::Ascii(_) => Format::XML,
            DataWriter::Hdf5SingleFile(_) => Format::HDF,
            DataWriter::Hdf5MultipleFiles(_) => Format::HDF,
        }
    }

    /// The storage format this backend records in the document.
    pub fn format(&self) -> (r: Format)
        ensures
            r == self.spec_format(),
    {
        match self {
            DataWriter::AsciiInline(_) => Format::XML,
            DataWriter::Ascii(_) => Format::XML,
            DataWriter::Hdf5SingleFile(_) => Format::HDF,
            DataWriter::Hdf5MultipleFiles(_) => Format::HDF,
        }
    }

    /// The storage mode this backend was created for.
    pub open spec fn spec_data_storage(&self) -> DataStorage {
        match self {
            DataWriter::AsciiInline(_) => DataStorage::AsciiInline,
            DataWriter::Ascii(_) => DataStorage::Ascii,
            DataWriter::Hdf5SingleFile(_) => DataStorage::Hdf5SingleFile,
            DataWriter::Hdf5MultipleFiles(_) => DataStorage::Hdf5MultipleFiles,
        }
    }

    /// The storage mode this backend was created for.
    pub fn data_storage(&self) -> (r: DataStorage)
        ensures
            r == self.spec_data_storage(),
    {
        match self {
            DataWriter::AsciiInline(_) => DataStorage::AsciiInline,
            DataWriter::Ascii(_) => DataStorage::Ascii,
            DataWriter::Hdf5SingleFile(_) => DataStorage::Hdf5SingleFile,
            DataWriter::Hdf5MultipleFiles(_) => DataStorage::Hdf5MultipleFiles,
        }
    }

    /// Persist the mesh through this backend, yielding the two content
    /// references for the coordinate and connectivity data items and the
    /// side effects to execute.
    pub fn write_mesh(&mut self, points: &Vec<String>, cells: &Vec<u64>) -> (r: Result<
        ((DataContent, DataContent), Vec<FileOp>),
        XdmfError,
    >)
        ensures
            r matches Err(e) ==> e is ResourceState,
            *old(self) matches DataWriter::AsciiInline(_) ==> (*final(self)
                matches DataWriter::AsciiInline(_)) && (r matches Ok((content, ops))
                && ops@.len() == 0 && (content.0 matches DataContent::Raw(p) && p@ == join_space(
                texts_of(points@),
            )) && (content.1 matches DataContent::Raw(c) && c@ == join_space(texts_of(cells@)))),
            *old(self) matches DataWriter::Ascii(w) ==> (*final(self)
                matches DataWriter::Ascii(w1) && w1 == w) && (r matches Ok((content, ops)) && {
                &&& content.0 matches DataContent::Include(x) && x.file_path@ == w.folder_name@
                    + seq!['/'] + "points.txt"@ && (x.parse matches Some(p) && p@ == "text"@)
                &&& content.1 matches DataContent::Include(x) && x.file_path@ == w.folder_name@
                    + seq!['/'] + "cells.txt"@ && (x.parse matches Some(p) && p@ == "text"@)
                &&& ops@.len() == 2
                &&& ops@[0] matches FileOp::WriteFile { path, contents } && path@
                    == w.txt_files_dir@ + seq!['/'] + "points.txt"@ && contents@ == join_space(
                    texts_of(points@),
                ) + seq!['\n']
                &&& ops@[1] matches FileOp::WriteFile { path, contents } && path@
                    == w.txt_files_dir@ + seq!['/'] + "cells.txt"@ && contents@ == join_space(
                    texts_of(cells@),
                ) + seq!['\n']
            }),
            *old(self) matches DataWriter::Hdf5SingleFile(w) ==> (*final(self)
                matches DataWriter::Hdf5SingleFile(w1) && w1.h5_file_path == w.h5_file_path
                && w1.write_time == w.write_time && w1.groups == w.groups && w1.mesh_written) && (
            w.mesh_written ==> (r matches Err(e) && e.spec_message()
                == crate::hdf5_writer::msg_mesh_already_written())) && (!w.mesh_written ==> (
            r matches Ok((content, ops)) && {
                let path = w.h5_file_path@;
                &&& content.0 matches DataContent::Raw(p) && p@ == path + ":mesh/points"@
                &&& content.1 matches DataContent::Raw(c) && c@ == path + ":mesh/cells"@
                &&& ops@.len() == 3
                &&& ops@[0] matches FileOp::StoreCreateGroup { path: p, group } && p@ == path
                    && group@ == "mesh"@
                &&& ops@[1] matches FileOp::StoreWriteFloats { path: p, group, dataset, dims, tokens }
                    && p@ == path && group@ == "mesh"@ && dataset@ == "points"@ && dims@ == seq![
                    points@.len() as usize,
                ] && crate::hdf5_writer::token_views(tokens@) == crate::hdf5_writer::token_views(
                    points@,
                )
                &&& ops@[2] matches FileOp::StoreWriteUInts { path: p, group, dataset, dims, values }
                    && p@ == path && group@ == "mesh"@ && dataset@ == "cells"@ && dims@ == seq![
                    cells@.len() as usize,
                ] && values@ == cells@
            })),
            *old(self) matches DataWriter::Hdf5MultipleFiles(w) ==> (*final(self)
                matches DataWriter::Hdf5MultipleFiles(w1) && w1 == w) && (r matches Ok(
                (content, ops),
            ) && {
                let file = w.h5_files_dir@ + seq!['/'] + "mesh.h5"@;
                &&& content.0 matches DataContent::Raw(p) && p@ == file + ":points"@
                &&& content.1 matches DataContent::Raw(c) && c@ == file + ":cells"@
                &&& ops@.len() == 3
                &&& ops@[0] matches FileOp::StoreCreate { path } && path@ == file
                &&& ops@[1] matches FileOp::StoreWriteFloats { path, group, dataset, dims, tokens }
                    && path@ == file && group@.len() == 0 && dataset@ == "points"@ && dims@ == seq![
                    points@.len() as usize,
                ] && crate::hdf5_writer::token_views(tokens@) == crate::hdf5_writer::token_views(
                    points@,
                )
                &&& ops@[2] matches FileOp::StoreWriteUInts { path, group, dataset, dims, values }
                    && path@ == file && group@.len() == 0 && dataset@ == "cells"@ && dims@ == seq![
                    cells@.len() as usize,
                ] && values@ == cells@
            }),
    {
        match self {
            DataWriter::AsciiInline(w) => {
                let content = w.write_mesh(points, cells);
                Ok((content, Vec::new()))
            },
            DataWriter::Ascii(w) => {
                let (content, ops) = w.write_mesh(points, cells);
                Ok((content, ops))
            },
            DataWriter::Hdf5SingleFile(w) => {
                match w.write_mesh(points, cells) {
                    Ok(((p, c), ops)) => Ok(((DataContent::Raw(p), DataContent::Raw(c)), ops)),
                    Err(e) => Err(e),
                }
            },
            DataWriter::Hdf5MultipleFiles(w) => {
                let ((p, c), ops) = w.write_mesh(points, cells);
                Ok(((DataContent::Raw(p), DataContent::Raw(c)), ops))
            },
        }
    }

    /// Persist one field array of the bracketed time step through this
    /// backend, yielding the content reference for its data item and the
    /// side effects to execute.
    pub fn write_data(&mut self, name: &str, center: Center, data: &Values) -> (r: Result<
        (DataContent, Vec<FileOp>),
        XdmfError,
    >)
        ensures
            r matches Err(e) ==> e is ResourceState,
            *old(self) matches DataWriter::AsciiInline(_) ==> (*final(self)
                matches DataWriter::AsciiInline(_)) && (r matches Ok((content, ops)) && ops@.len()
                == 0 && (content matches DataContent::Raw(s) && s@ == values_line(*data))),
            *old(self) matches DataWriter::Ascii(w) ==> (*final(self) matches DataWriter::Ascii(w1)
                && w1 == w) && (w.write_time is None ==> (r matches Err(e) && e.spec_message()
                == msg_not_initialized())) && (w.write_time matches Some(t) ==> (r matches Ok(
                (content, ops),
            ) && {
                let fname = AsciiWriter::spec_data_file_name(t@, center, name@);
                &&& content matches DataContent::Include(x) && x.file_path@ == w.folder_name@
                    + seq!['/'] + fname && (x.parse matches Some(p) && p@ == "text"@)
                &&& ops@.len() == 1
                &&& ops@[0] matches FileOp::WriteFile { path, contents } && path@
                    == w.txt_files_dir@ + seq!['/'] + fname && contents@ == values_line(*data)
                    + seq!['\n']
            })),
            *old(self) matches DataWriter::Hdf5SingleFile(w) ==> (*final(self)
                matches DataWriter::Hdf5SingleFile(w1) && w1.h5_file_path == w.h5_file_path
                && w1.write_time == w.write_time && w1.mesh_written == w.mesh_written) && (
            w.write_time is None ==> (r matches Err(e) && e.spec_message()
                == msg_not_initialized())) && (w.write_time matches Some(t) ==> (r matches Ok(
                (content, ops),
            ) && (content matches DataContent::Raw(data_ref) && data_ref@ == w.h5_file_path@
                + seq![':'] + SingleFileHdf5Writer::spec_group_name(t@, center) + seq!['/'] + name@)
                && 1 <= ops@.len() <= 2 && store_write_op(
                ops@.last(),
                w.h5_file_path@,
                SingleFileHdf5Writer::spec_group_name(t@, center),
                name@,
                *data,
            ) && (ops@.len() == 2 ==> (ops@[0]
                matches FileOp::StoreCreateGroup { path: p, group: g } && p@ == w.h5_file_path@
                && g@ == SingleFileHdf5Writer::spec_group_name(t@, center))))),
            *old(self) matches DataWriter::Hdf5MultipleFiles(w) ==> (*final(self)
                matches DataWriter::Hdf5MultipleFiles(w1) && w1.h5_files_dir == w.h5_files_dir
                && w1.h5_data_file == w.h5_data_file) && (w.h5_data_file is None ==> (r
                matches Err(e) && e.spec_message() == msg_not_initialized())) && (w.h5_data_file
                matches Some(file) ==> (r matches Ok((content, ops)) && (content
                matches DataContent::Raw(data_ref) && data_ref@ == file@ + seq![':']
                + crate::xdmf_elements::attribute::spec_center_data_tag(center) + seq!['/'] + name@)
                && 1 <= ops@.len() <= 2 && store_write_op(
                ops@.last(),
                file@,
                crate::xdmf_elements::attribute::spec_center_data_tag(center),
                name@,
                *data,
            ) && (ops@.len() == 2 ==> (ops@[0]
                matches FileOp::StoreCreateGroup { path: p, group: g } && p@ == file@ && g@
                == crate::xdmf_elements::attribute::spec_center_data_tag(center))))),
    {
        match self {
            DataWriter::AsciiInline(w) => {
                let content = w.write_data(data);
                Ok((content, Vec::new()))
            },
            DataWriter::Ascii(w) => {
                match w.write_data(name, center, data) {
                    Ok((content, ops)) => Ok((content, ops)),
                    Err(e) => Err(e),
                }
            },
            DataWriter::Hdf5SingleFile(w) => {
                match w.write_data(name, center, data) {
                    Ok((data_ref, ops)) => Ok((DataContent::Raw(data_ref), ops)),
                    Err(e) => Err(e),
                }
            },
            DataWriter::Hdf5MultipleFiles(w) => {
                match w.write_data(name, center, data) {
                    Ok((data_ref, ops)) => Ok((DataContent::Raw(data_ref), ops)),
                    Err(e) => Err(e),
                }
            },
        }
    }

    /// Open the per-time-step bracket: a no-op for the inline backend,
    /// protocol-checked state for the others.
    pub fn write_data_initialize(&mut self, time: &str) -> (r: Result<Vec<FileOp>, XdmfError>)
        ensures
            r matches Err(e) ==> e is ResourceState,
            *old(self) matches DataWriter::AsciiInline(_) ==> (*final(self)
                matches DataWriter::AsciiInline(_)) && (r matches Ok(ops) && ops@.len() == 0),
            *old(self) matches DataWriter::Ascii(w) ==> (*final(self) matches DataWriter::Ascii(w1)
                && w1.txt_files_dir == w.txt_files_dir && w1.folder_name == w.folder_name && (
            w.write_time is Some ==> (r matches Err(e) && e.spec_message()
                == msg_already_initialized()) && w1.write_time == w.write_time) && (w.write_time
                is None ==> (r matches Ok(ops) && ops@.len() == 0) && (w1.write_time
                matches Some(t) && t@ == time@))),
            *old(self) matches DataWriter::Hdf5SingleFile(w) ==> (*final(self)
                matches DataWriter::Hdf5SingleFile(w1) && w1.h5_file_path == w.h5_file_path
                && w1.mesh_written == w.mesh_written && w1.groups == w.groups && (w.write_time
                is Some ==> (r matches Err(e) && e.spec_message() == msg_already_initialized())
                && w1.write_time == w.write_time) && (w.write_time is None ==> (r matches Ok(ops)
                && ops@.len() == 0) && (w1.write_time matches Some(t) && t@ == time@))),
            *old(self) matches DataWriter::Hdf5MultipleFiles(w) ==> (*final(self)
                matches DataWriter::Hdf5MultipleFiles(w1) && w1.h5_files_dir == w.h5_files_dir && (
            w.h5_data_file is Some ==> (r matches Err(e) && e.spec_message()
                == msg_already_initialized()) && w1.h5_data_file == w.h5_data_file) && (
            w.h5_data_file is None ==> (r matches Ok(ops) && ops@.len() == 1 && (ops@[0]
                matches FileOp::StoreCreate { path }
                && path@ == MultipleFilesHdf5Writer::spec_data_file(w.h5_files_dir@, time@))) && (
            w1.h5_data_file matches Some(f) && f@ == MultipleFilesHdf5Writer::spec_data_file(
                w.h5_files_dir@,
                time@,
            )))),
    {
        match self {
            DataWriter::AsciiInline(_) => Ok(Vec::new()),
            DataWriter::Ascii(w) => {
                match w.write_data_initialize(time) {
                    Ok(()) => Ok(Vec::new()),
                    Err(e) => Err(e),
                }
            },
            DataWriter::Hdf5SingleFile(w) => w.write_data_initialize(time),
            DataWriter::Hdf5MultipleFiles(w) => w.write_data_initialize(time),
        }
    }

    /// Close the per-time-step bracket: a no-op for the inline backend,
    /// protocol-checked state for the others.
    pub fn write_data_finalize(&mut self) -> (r: Result<(), XdmfError>)
        ensures
            r matches Err(e) ==> e is ResourceState,
            *old(self) matches DataWriter::AsciiInline(_) ==> (*final(self)
                matches DataWriter::AsciiInline(_)) && r is Ok,
            *old(self) matches DataWriter::Ascii(w) ==> (*final(self) matches DataWriter::Ascii(w1)
                && w1.txt_files_dir == w.txt_files_dir && w1.folder_name == w.folder_name && (
            w.write_time is None ==> (r matches Err(e) && e.spec_message() == msg_not_initialized())
                && w1.write_time == w.write_time) && (w.write_time is Some ==> r is Ok
                && w1.write_time is None)),
            *old(self) matches DataWriter::Hdf5SingleFile(w) ==> (*final(self)
                matches DataWriter::Hdf5SingleFile(w1) && w1.h5_file_path == w.h5_file_path
                && w1.mesh_written == w.mesh_written && w1.groups == w.groups && (w.write_time
                is None ==> (r matches Err(e) && e.spec_message() == msg_not_initialized())
                && w1.write_time == w.write_time) && (w.write_time is Some ==> r is Ok
                && w1.write_time is None)),
            *old(self) matches DataWriter::Hdf5MultipleFiles(w) ==> (*final(self)
                matches DataWriter::Hdf5MultipleFiles(w1) && w1.h5_files_dir == w.h5_files_dir && (
            w.h5_data_file is None ==> (r matches Err(e) && e.spec_message()
                == msg_not_initialized()) && w1.h5_data_file == w.h5_data_file) && (w.h5_data_file
                is Some ==> r is Ok && w1.h5_data_file is None)),
    {
        match self {
            DataWriter::AsciiInline(_) => Ok(()),
            DataWriter::Ascii(w) => w.write_data_finalize(),
            DataWriter::Hdf5SingleFile(w) => w.write_data_finalize(),
            DataWriter::Hdf5MultipleFiles(w) => w.write_data_finalize(),
        }
    }

    /// Flush the backend's own resource before a document commit.
    pub fn flush(&mut self) -> (ops: Vec<FileOp>)
        ensures
            *final(self) == *old(self),
            *old(self) matches DataWriter::Hdf5SingleFile(w) ==> ops@.len() == 1 && (ops@[0]
                matches FileOp::StoreFlush { path } && path@ == w.h5_file_path@),
            !(*old(self) matches DataWriter::Hdf5SingleFile(_)) ==> ops@.len() == 0,
    {
        match self {
            DataWriter::AsciiInline(_) => Vec::new(),
            DataWriter::Ascii(_) => Vec::new(),
            DataWriter::Hdf5SingleFile(w) => w.flush(),
            DataWriter::Hdf5MultipleFiles(_) => Vec::new(),
        }
    }
}


/// Whether an operation writes the given dataset of the given value array
/// under the given group of the given store file.
pub open spec fn store_write_op(
    op: FileOp,
    file: Seq<char>,
    group: Seq<char>,
    dataset: Seq<char>,
    data: Values,
) -> bool {
    ||| (op matches FileOp::StoreWriteFloats { path: p, group: g, dataset: d, dims, tokens } && (
    data matches Values::F64(v) && p@ == file && g@ == group && d@ == dataset && dims@ == seq![
        v@.len() as usize,
    ] && crate::hdf5_writer::token_views(tokens@) == crate::hdf5_writer::token_views(v@)))
    ||| (op matches FileOp::StoreWriteUInts { path: p, group: g, dataset: d, dims, values } && (
    data matches Values::U64(v) && p@ == file && g@ == group && d@ == dataset && dims@ == seq![
        v@.len() as usize,
    ] && values@ == v@))
}

/// Create the storage backend for the chosen mode, together with the side
/// effects that set up its resource. The backend is handed out exactly
/// when the mode is available and, for the side-file backend, the path
/// has a file-name part; the array-store modes are refused with a
/// capability-unavailable error when this build lacks the array-store
/// capability.
pub fn create_writer(file_name: &str, data_storage: DataStorage) -> (r: Result<
    (DataWriter, Vec<FileOp>),
    XdmfError,
>)
    ensures
        data_storage == DataStorage::AsciiInline ==> (r matches Ok((w, ops)) && (w
            matches DataWriter::AsciiInline(_)) && ops@.len() == 0),
        data_storage == DataStorage::Ascii ==> (match r {
            Ok((w, ops)) => crate::text::spec_file_name(file_name@).len() > 0 && (w
                matches DataWriter::Ascii(a) && a.txt_files_dir@
                == crate::text::spec_with_extension(file_name@, "txt"@) && a.folder_name@
                == crate::text::spec_file_name(a.txt_files_dir@) && a.write_time is None)
                && ops@.len() == 1 && (ops@[0] matches FileOp::CreateDirAll { path } && path@
                == crate::text::spec_with_extension(file_name@, "txt"@)),
            Err(e) => crate::text::spec_file_name(file_name@).len() == 0 && e is InvalidInput
                && e.spec_message() == crate::ascii_writer::msg_no_file_name(),
        }),
        data_storage == DataStorage::Hdf5SingleFile && spec_hdf5_enabled() ==> (r matches Ok(
            (w, ops),
        ) && (w
            matches DataWriter::Hdf5SingleFile(h) && h.h5_file_path@
            == crate::text::spec_with_extension(file_name@, "h5"@) && h.write_time is None
            && !h.mesh_written && h.groups@.len() == 0) && ops@.len() == 1 && (ops@[0]
            matches FileOp::StoreCreate { path } && path@ == crate::text::spec_with_extension(
            file_name@,
            "h5"@,
        ))),
        data_storage == DataStorage::Hdf5MultipleFiles && spec_hdf5_enabled() ==> (r matches Ok(
            (w, ops),
        ) && (w matches DataWriter::Hdf5MultipleFiles(h) && h.h5_files_dir@
            == crate::text::spec_with_extension(file_name@, "h5"@) && h.h5_data_file is None)
            && ops@.len() == 1 && (ops@[0] matches FileOp::CreateDirAll { path } && path@
            == crate::text::spec_with_extension(file_name@, "h5"@))),
        (data_storage == DataStorage::Hdf5SingleFile || data_storage
            == DataStorage::Hdf5MultipleFiles) && !spec_hdf5_enabled() ==> (r matches Err(e) && e
            is Unsupported && e.spec_message() == msg_hdf5_unavailable(data_storage)),
{
    match data_storage {
        DataStorage::AsciiInline => Ok(
            (DataWriter::AsciiInline(AsciiInlineWriter::new()), Vec::new()),
        ),
        DataStorage::Ascii => {
            match AsciiWriter::new(file_name) {
                Ok((w, op)) => {
                    let mut ops: Vec<FileOp> = Vec::new();
                    ops.push(op);
                    Ok((DataWriter::Ascii(w), ops))
                },
                Err(e) => Err(e),
            }
        },
        DataStorage::Hdf5SingleFile => {
            if !is_hdf5_enabled() {
                return Err(
                    XdmfError::Unsupported(
                        "Using Hdf5SingleFile DataStorage requires the hdf5 feature.".to_owned(),
                    ),
                );
            }
            let (w, op) = SingleFileHdf5Writer::new(file_name);
            let mut ops: Vec<FileOp> = Vec::new();
            ops.push(op);
            Ok((DataWriter::Hdf5SingleFile(w), ops))
        },
        DataStorage::Hdf5MultipleFiles => {
            if !is_hdf5_enabled() {
                return Err(
                    XdmfError::Unsupported(
                        "Using Hdf5MultipleFiles DataStorage requires the hdf5 feature.".to_owned(),
                    ),
                );
            }
            let (w, op) = MultipleFilesHdf5Writer::new(file_name);
            let mut ops: Vec<FileOp> = Vec::new();
            ops.push(op);
            Ok((DataWriter::Hdf5MultipleFiles(w), ops))
        },
    }
}


impl From<DataAttribute> for crate::xdmf_elements::attribute::AttributeType {
    /// The shape recorded in the document: the symmetric tensor, matrix
    /// and generic shapes are all recorded as `Matrix`.
    fn from(data_attr: DataAttribute) -> (r: crate::xdmf_elements::attribute::AttributeType) {
        match data_attr {
            DataAttribute::Scalar => crate::xdmf_elements::attribute::AttributeType::Scalar,
            DataAttribute::Vector => crate::xdmf_elements::attribute::AttributeType::Vector,
            DataAttribute::Tensor => crate::xdmf_elements::attribute::AttributeType::Tensor,
            DataAttribute::Tensor6 => crate::xdmf_elements::attribute::AttributeType::Matrix,
            DataAttribute::Matrix(_, _) => crate::xdmf_elements::attribute::AttributeType::Matrix,
            DataAttribute::Generic(_) => crate::xdmf_elements::attribute::AttributeType::Matrix,
        }
    }
}

impl vstd::std_specs::convert::FromSpecImpl<DataAttribute> for crate::xdmf_elements::attribute::AttributeType {
    open spec fn obeys_from_spec() -> bool {
        true
    }

    open spec fn from_spec(data_attr: DataAttribute) -> crate::xdmf_elements::attribute::AttributeType {
        spec_attribute_type(data_attr)
    }
}

/// The shape recorded in the document for a field's semantic shape.
pub open spec fn spec_attribute_type(data_attr: DataAttribute) -> crate::xdmf_elements::attribute::AttributeType {
    match data_attr {
        DataAttribute::Scalar => crate::xdmf_elements::attribute::AttributeType::Scalar,
        DataAttribute::Vector => crate::xdmf_elements::attribute::AttributeType::Vector,
        DataAttribute::Tensor => crate::xdmf_elements::attribute::AttributeType::Tensor,
        DataAttribute::Tensor6 => crate::xdmf_elements::attribute::AttributeType::Matrix,
        DataAttribute::Matrix(_, _) => crate::xdmf_elements::attribute::AttributeType::Matrix,
        DataAttribute::Generic(_) => crate::xdmf_elements::attribute::AttributeType::Matrix,
    }
}

} // verus!
