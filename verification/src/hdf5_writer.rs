//! Array-store storage backends: the heavy data goes into one keyed
//! binary store file, or one per time step.
//!
//! The backends plan every store operation as data ([`FileOp`]); an
//! unverified shell executes them against the actual array store.
use vstd::prelude::*;

use crate::XdmfError;
use crate::persist::FileOp;
use crate::text::{path_join, str_eq, with_extension};
use crate::values::Values;
use crate::xdmf_elements::attribute::{Center, center_to_data_tag, spec_center_data_tag};

verus! {

/// The group naming a placement inside an array store.
pub fn attribute_center_to_hdf5(center: Center) -> (r: &'static str)
    ensures
        r@ == spec_center_data_tag(center),
{
    center_to_data_tag(center)
}

/// The character views of a token list.
pub open spec fn token_views(v: Seq<String>) -> Seq<Seq<char>> {
    v.map(|i: int, s: String| s@)
}

/// Copy a token list.
pub fn copy_tokens(v: &Vec<String>) -> (r: Vec<String>)
    ensures
        token_views(r@) == token_views(v@),
{
    let mut r: Vec<String> = Vec::new();
    let mut i: usize = 0;
    while i < v.len()
        invariant
            i <= v@.len(),
            r@.len() == i,
            forall|j: int| 0 <= j < i ==> #[trigger] r@[j]@ == v@[j]@,
        decreases v@.len() - i,
    {
        r.push(v[i].as_str().to_owned());
        i += 1;
    }
    proof {
        assert(token_views(r@) =~= token_views(v@));
    }
    r
}

/// Copy an unsigned array.
pub fn copy_u64s(v: &Vec<u64>) -> (r: Vec<u64>)
    ensures
        r@ == v@,
{
    let mut r: Vec<u64> = Vec::new();
    let mut i: usize = 0;
    while i < v.len()
        invariant
            i <= v@.len(),
            r@ == v@.take(i as int),
        decreases v@.len() - i,
    {
        r.push(v[i]);
        i += 1;
        proof {
            assert(r@ =~= v@.take(i as int));
        }
    }
    proof {
        assert(v@.take(v@.len() as int) =~= v@);
    }
    r
}

/// Whether a group name is in the list of created groups.
pub open spec fn contains_text(gs: Seq<String>, t: Seq<char>) -> bool {
    exists|i: int| 0 <= i < gs.len() && gs[i]@ == t
}

fn find_text(gs: &Vec<String>, t: &str) -> (r: bool)
    ensures
        r == contains_text(gs@, t@),
{
    let mut i: usize = 0;
    while i < gs.len()
        invariant
            i <= gs@.len(),
            forall|j: int| 0 <= j < i ==> gs@[j]@ != t@,
        decreases gs@.len() - i,
    {
        if str_eq(gs[i].as_str(), t) {
            return true;
        }
        i += 1;
    }
    false
}

/// The message of the protocol error for a mesh written twice.
pub open spec fn msg_mesh_already_written() -> Seq<char> {
    "Mesh was already written"@
}

/// The single-file backend: one array-store file holds the mesh under a
/// fixed `mesh` group and each time step's fields under
/// `data/t_<time>/<center-kind>` groups, created on demand.
pub struct SingleFileHdf5Writer {
    /// The store file, the document path with its extension replaced by `h5`.
    pub h5_file_path: String,
    /// The time step currently bracketed, if any.
    pub write_time: Option<String>,
    /// Whether the mesh group was already written.
    pub mesh_written: bool,
    /// The data groups created so far.
    pub groups: Vec<String>,
}

impl SingleFileHdf5Writer {
    /// Create the single-file backend for the given document path; the
    /// store file must be created before any write.
    pub fn new(file_name: &str) -> (r: (SingleFileHdf5Writer, FileOp))
        ensures
            r.0.h5_file_path@ == crate::text::spec_with_extension(file_name@, "h5"@),
            r.0.write_time is None,
            r.0.mesh_written == false,
            r.0.groups@.len() == 0,
            r.1 matches FileOp::StoreCreate { path } && path@ == r.0.h5_file_path@,
    {
        let h5_file_path = with_extension(file_name, "h5");
        let path_copy = h5_file_path.as_str().to_owned();
        (
            SingleFileHdf5Writer {
                h5_file_path,
                write_time: None,
                mesh_written: false,
                groups: Vec::new(),
            },
            FileOp::StoreCreate { path: path_copy },
        )
    }

    /// Write the mesh into the store's `mesh` group, as the `points` and
    /// `cells` datasets, and return the two store references. Fails if the
    /// mesh was already written.
    pub fn write_mesh(&mut self, points: &Vec<String>, cells: &Vec<u64>) -> (r: Result<
        ((String, String), Vec<FileOp>),
        XdmfError,
    >)
        ensures
            r matches Err(e) ==> e is ResourceState,
            final(self).h5_file_path == old(self).h5_file_path,
            final(self).write_time == old(self).write_time,
            final(self).groups == old(self).groups,
            old(self).mesh_written ==> (r matches Err(e) && e.spec_message()
                == msg_mesh_already_written()) && final(self).mesh_written,
            !old(self).mesh_written ==> final(self).mesh_written && (r matches Ok(
                ((points_ref, cells_ref), ops),
            ) && {
                let path = old(self).h5_file_path@;
                &&& points_ref@ == path + ":mesh/points"@
                &&& cells_ref@ == path + ":mesh/cells"@
                &&& ops@.len() == 3
                &&& ops@[0] matches FileOp::StoreCreateGroup { path: p, group } && p@ == path
                    && group@ == "mesh"@
                &&& ops@[1] matches FileOp::StoreWriteFloats { path: p, group, dataset, dims, tokens }
                    && p@ == path && group@ == "mesh"@ && dataset@ == "points"@ && dims@ == seq![
                    points@.len() as usize,
                ] && token_views(tokens@) == token_views(points@)
                &&& ops@[2] matches FileOp::StoreWriteUInts { path: p, group, dataset, dims, values }
                    && p@ == path && group@ == "mesh"@ && dataset@ == "cells"@ && dims@ == seq![
                    cells@.len() as usize,
                ] && values@ == cells@
            }),
    {
        if self.mesh_written {
            return Err(XdmfError::ResourceState("Mesh was already written".to_owned()));
        }
        self.mesh_written = true;
        let mut ops: Vec<FileOp> = Vec::new();
        ops.push(
            FileOp::StoreCreateGroup {
                path: self.h5_file_path.as_str().to_owned(),
                group: "mesh".to_owned(),
            },
        );
        let mut points_dims: Vec<usize> = Vec::new();
        points_dims.push(points.len());
        ops.push(
            FileOp::StoreWriteFloats {
                path: self.h5_file_path.as_str().to_owned(),
                group: "mesh".to_owned(),
                dataset: "points".to_owned(),
                dims: points_dims,
                tokens: copy_tokens(points),
            },
        );
        let mut cells_dims: Vec<usize> = Vec::new();
        cells_dims.push(cells.len());
        ops.push(
            FileOp::StoreWriteUInts {
                path: self.h5_file_path.as_str().to_owned(),
                group: "mesh".to_owned(),
                dataset: "cells".to_owned(),
                dims: cells_dims,
                values: copy_u64s(cells),
            },
        );
        let mut points_ref: String = self.h5_file_path.as_str().to_owned();
        points_ref.append(":mesh/points");
        let mut cells_ref: String = self.h5_file_path.as_str().to_owned();
        cells_ref.append(":mesh/cells");
        proof {
            assert(points_dims@ =~= seq![points@.len() as usize]);
            assert(cells_dims@ =~= seq![cells@.len() as usize]);
        }
        Ok(((points_ref, cells_ref), ops))
    }

    /// The group holding one placement's fields of one time step.
    pub open spec fn spec_group_name(time: Seq<char>, center: Center) -> Seq<char> {
        "data/t_"@ + time + seq!['/'] + spec_center_data_tag(center)
    }

    /// Write one field array as a dataset under its time step and
    /// placement group, creating the group the first time, and return the
    /// store reference. Fails if no time step is bracketed.
    pub fn write_data(&mut self, name: &str, center: Center, data: &Values) -> (r: Result<
        (String, Vec<FileOp>),
        XdmfError,
    >)
        ensures
            r matches Err(e) ==> e is ResourceState,
            final(self).h5_file_path == old(self).h5_file_path,
            final(self).write_time == old(self).write_time,
            final(self).mesh_written == old(self).mesh_written,
            old(self).write_time is None ==> (r matches Err(e) && e.spec_message()
                == crate::msg_not_initialized()) && final(self).groups == old(self).groups,
            old(self).write_time matches Some(t) ==> (r matches Ok((data_ref, ops)) && {
                let path = old(self).h5_file_path@;
                let group = SingleFileHdf5Writer::spec_group_name(t@, center);
                let known = contains_text(old(self).groups@, group);
                &&& data_ref@ == path + seq![':'] + group + seq!['/'] + name@
                &&& (known ==> ops@.len() == 1 && final(self).groups == old(self).groups)
                &&& (!known ==> ops@.len() == 2 && (ops@[0]
                    matches FileOp::StoreCreateGroup { path: p, group: g } && p@ == path && g@
                    == group) && final(self).groups@.len() == old(self).groups@.len() + 1 && final(self).groups@.last()@ == group && forall|i: int|
                    0 <= i < old(self).groups@.len() ==> final(self).groups@[i] == old(self).groups@[i])
                &&& (ops@.last() matches FileOp::StoreWriteFloats {
                    path: p,
                    group: g,
                    dataset,
                    dims,
                    tokens,
                } && data matches Values::F64(v) && p@ == path && g@ == group && dataset@ == name@
                    && dims@ == seq![v@.len() as usize] && token_views(tokens@) == token_views(v@))
                    || (ops@.last() matches FileOp::StoreWriteUInts {
                    path: p,
                    group: g,
                    dataset,
                    dims,
                    values,
                } && data matches Values::U64(v) && p@ == path && g@ == group && dataset@ == name@
                    && dims@ == seq![v@.len() as usize] && values@ == v@)
            }),
    {
        let time = match &self.write_time {
            Some(t) => t,
            None => {
                return Err(XdmfError::ResourceState("Writing data was not initialized".to_owned()));
            },
        };
        let mut group_name: String = "data/t_".to_owned();
        group_name.append(time.as_str());
        group_name.append("/");
        group_name.append(center_to_data_tag(center));
        proof {
            reveal_strlit("/");
            assert(group_name@ =~= SingleFileHdf5Writer::spec_group_name(
                self.write_time->0@,
                center,
            ));
        }
        let mut ops: Vec<FileOp> = Vec::new();
        if !find_text(&self.groups, group_name.as_str()) {
            ops.push(
                FileOp::StoreCreateGroup {
                    path: self.h5_file_path.as_str().to_owned(),
                    group: group_name.as_str().to_owned(),
                },
            );
            self.groups.push(group_name.as_str().to_owned());
        }
        let mut dims: Vec<usize> = Vec::new();
        dims.push(data.len());
        match data {
            Values::F64(v) => {
                ops.push(
                    FileOp::StoreWriteFloats {
                        path: self.h5_file_path.as_str().to_owned(),
                        group: group_name.as_str().to_owned(),
                        dataset: name.to_owned(),
                        dims,
                        tokens: copy_tokens(v),
                    },
                );
            },
            Values::U64(v) => {
                ops.push(
                    FileOp::StoreWriteUInts {
                        path: self.h5_file_path.as_str().to_owned(),
                        group: group_name.as_str().to_owned(),
                        dataset: name.to_owned(),
                        dims,
                        values: copy_u64s(v),
                    },
                );
            },
        }
        let mut data_ref: String = self.h5_file_path.as_str().to_owned();
        data_ref.append(":");
        data_ref.append(group_name.as_str());
        data_ref.append("/");
        data_ref.append(name);
        proof {
            reveal_strlit(":");
            reveal_strlit("/");
            assert(data_ref@ =~= old(self).h5_file_path@ + seq![':'] + group_name@ + seq!['/']
                + name@);
        }
        Ok((data_ref, ops))
    }

    /// Open the bracket for one time step. Fails if one is already open.
    pub fn write_data_initialize(&mut self, time: &str) -> (r: Result<Vec<FileOp>, XdmfError>)
        ensures
            r matches Err(e) ==> e is ResourceState,
            final(self).h5_file_path == old(self).h5_file_path,
            final(self).mesh_written == old(self).mesh_written,
            final(self).groups == old(self).groups,
            old(self).write_time is Some ==> (r matches Err(e) && e.spec_message()
                == crate::msg_already_initialized()) && final(self).write_time == old(self).write_time,
            old(self).write_time is None ==> (r matches Ok(ops) && ops@.len() == 0) && (final(self).write_time matches Some(t) && t@ == time@),
    {
        if self.write_time.is_some() {
            return Err(XdmfError::ResourceState("Writing data was already initialized".to_owned()));
        }
        self.write_time = Some(time.to_owned());
        Ok(Vec::new())
    }

    /// Close the bracket for the current time step. Fails if none is open.
    pub fn write_data_finalize(&mut self) -> (r: Result<(), XdmfError>)
        ensures
            r matches Err(e) ==> e is ResourceState,
            final(self).h5_file_path == old(self).h5_file_path,
            final(self).mesh_written == old(self).mesh_written,
            final(self).groups == old(self).groups,
            old(self).write_time is None ==> (r matches Err(e) && e.spec_message()
                == crate::msg_not_initialized()) && final(self).write_time == old(self).write_time,
            old(self).write_time is Some ==> r is Ok && final(self).write_time is None,
    {
        if self.write_time.is_none() {
            return Err(XdmfError::ResourceState("Writing data was not initialized".to_owned()));
        }
        self.write_time = None;
        Ok(())
    }

    /// Flush the store file before a document commit.
    pub fn flush(&mut self) -> (ops: Vec<FileOp>)
        ensures
            *final(self) == *old(self),
            ops@.len() == 1,
            ops@[0] matches FileOp::StoreFlush { path } && path@ == old(self).h5_file_path@,
    {
        let mut ops: Vec<FileOp> = Vec::new();
        ops.push(FileOp::StoreFlush { path: self.h5_file_path.as_str().to_owned() });
        ops
    }
}

/// The multiple-file backend: the mesh goes to its own array-store file
/// and each time step's fields to a new store file named by time, all in a
/// sibling directory.
pub struct MultipleFilesHdf5Writer {
    /// The directory of store files, the document path with its extension
    /// replaced by `h5`.
    pub h5_files_dir: String,
    /// The store file of the time step currently bracketed, if any.
    pub h5_data_file: Option<String>,
    /// The groups created in the current time step's store file.
    pub groups: Vec<String>,
}

impl MultipleFilesHdf5Writer {
    /// Create the multiple-file backend for the given document path; the
    /// store directory must be created before any write.
    pub fn new(base_file_name: &str) -> (r: (MultipleFilesHdf5Writer, FileOp))
        ensures
            r.0.h5_files_dir@ == crate::text::spec_with_extension(base_file_name@, "h5"@),
            r.0.h5_data_file is None,
            r.0.groups@.len() == 0,
            r.1 matches FileOp::CreateDirAll { path } && path@ == r.0.h5_files_dir@,
    {
        let h5_files_dir = with_extension(base_file_name, "h5");
        let dir_copy = h5_files_dir.as_str().to_owned();
        (
            MultipleFilesHdf5Writer { h5_files_dir, h5_data_file: None, groups: Vec::new() },
            FileOp::CreateDirAll { path: dir_copy },
        )
    }

    /// Write the mesh to its own store file `mesh.h5`, as the root-level
    /// `points` and `cells` datasets, and return the two store references.
    pub fn write_mesh(&mut self, points: &Vec<String>, cells: &Vec<u64>) -> (r: (
        (String, String),
        Vec<FileOp>,
    ))
        ensures
            *final(self) == *old(self),
            ({
                let file = old(self).h5_files_dir@ + seq!['/'] + "mesh.h5"@;
                &&& r.0.0@ == file + ":points"@
                &&& r.0.1@ == file + ":cells"@
                &&& r.1@.len() == 3
                &&& r.1@[0] matches FileOp::StoreCreate { path } && path@ == file
                &&& r.1@[1] matches FileOp::StoreWriteFloats { path, group, dataset, dims, tokens }
                    && path@ == file && group@.len() == 0 && dataset@ == "points"@ && dims@ == seq![
                    points@.len() as usize,
                ] && token_views(tokens@) == token_views(points@)
                &&& r.1@[2] matches FileOp::StoreWriteUInts { path, group, dataset, dims, values }
                    && path@ == file && group@.len() == 0 && dataset@ == "cells"@ && dims@ == seq![
                    cells@.len() as usize,
                ] && values@ == cells@
            }),
    {
        let file_name = path_join(self.h5_files_dir.as_str(), "mesh.h5");
        let mut ops: Vec<FileOp> = Vec::new();
        ops.push(FileOp::StoreCreate { path: file_name.as_str().to_owned() });
        let mut points_dims: Vec<usize> = Vec::new();
        points_dims.push(points.len());
        ops.push(
            FileOp::StoreWriteFloats {
                path: file_name.as_str().to_owned(),
                group: String::new(),
                dataset: "points".to_owned(),
                dims: points_dims,
                tokens: copy_tokens(points),
            },
        );
        let mut cells_dims: Vec<usize> = Vec::new();
        cells_dims.push(cells.len());
        ops.push(
            FileOp::StoreWriteUInts {
                path: file_name.as_str().to_owned(),
                group: String::new(),
                dataset: "cells".to_owned(),
                dims: cells_dims,
                values: copy_u64s(cells),
            },
        );
        let mut points_ref: String = file_name.as_str().to_owned();
        points_ref.append(":points");
        let mut cells_ref: String = file_name.as_str().to_owned();
        cells_ref.append(":cells");
        proof {
            assert(points_dims@ =~= seq![points@.len() as usize]);
            assert(cells_dims@ =~= seq![cells@.len() as usize]);
        }
        ((points_ref, cells_ref), ops)
    }

    /// Write one field array as a dataset under its placement group in the
    /// current time step's store file, creating the group the first time,
    /// and return the store reference. Fails if no time step is bracketed.
    pub fn write_data(&mut self, name: &str, center: Center, data: &Values) -> (r: Result<
        (String, Vec<FileOp>),
        XdmfError,
    >)
        ensures
            r matches Err(e) ==> e is ResourceState,
            final(self).h5_files_dir == old(self).h5_files_dir,
            final(self).h5_data_file == old(self).h5_data_file,
            old(self).h5_data_file is None ==> (r matches Err(e) && e.spec_message()
                == crate::msg_not_initialized()) && final(self).groups == old(self).groups,
            old(self).h5_data_file matches Some(file) ==> (r matches Ok((data_ref, ops)) && {
                let group = spec_center_data_tag(center);
                let known = contains_text(old(self).groups@, group);
                &&& data_ref@ == file@ + seq![':'] + group + seq!['/'] + name@
                &&& (known ==> ops@.len() == 1 && final(self).groups == old(self).groups)
                &&& (!known ==> ops@.len() == 2 && (ops@[0]
                    matches FileOp::StoreCreateGroup { path: p, group: g } && p@ == file@ && g@
                    == group) && final(self).groups@.len() == old(self).groups@.len() + 1 && final(self).groups@.last()@ == group && forall|i: int|
                    0 <= i < old(self).groups@.len() ==> final(self).groups@[i] == old(self).groups@[i])
                &&& (ops@.last() matches FileOp::StoreWriteFloats {
                    path: p,
                    group: g,
                    dataset,
                    dims,
                    tokens,
                } && data matches Values::F64(v) && p@ == file@ && g@ == group && dataset@ == name@
                    && dims@ == seq![v@.len() as usize] && token_views(tokens@) == token_views(v@))
                    || (ops@.last() matches FileOp::StoreWriteUInts {
                    path: p,
                    group: g,
                    dataset,
                    dims,
                    values,
                } && data matches Values::U64(v) && p@ == file@ && g@ == group && dataset@ == name@
                    && dims@ == seq![v@.len() as usize] && values@ == v@)
            }),
    {
        let data_file = match &self.h5_data_file {
            Some(f) => f,
            None => {
                return Err(XdmfError::ResourceState("Writing data was not initialized".to_owned()));
            },
        };
        let group_name = center_to_data_tag(center);
        let mut ops: Vec<FileOp> = Vec::new();
        if !find_text(&self.groups, group_name) {
            ops.push(
                FileOp::StoreCreateGroup {
                    path: data_file.as_str().to_owned(),
                    group: group_name.to_owned(),
                },
            );
            self.groups.push(group_name.to_owned());
        }
        let mut dims: Vec<usize> = Vec::new();
        dims.push(data.len());
        match data {
            Values::F64(v) => {
                ops.push(
                    FileOp::StoreWriteFloats {
                        path: data_file.as_str().to_owned(),
                        group: group_name.to_owned(),
                        dataset: name.to_owned(),
                        dims,
                        tokens: copy_tokens(v),
                    },
                );
            },
            Values::U64(v) => {
                ops.push(
                    FileOp::StoreWriteUInts {
                        path: data_file.as_str().to_owned(),
                        group: group_name.to_owned(),
                        dataset: name.to_owned(),
                        dims,
                        values: copy_u64s(v),
                    },
                );
            },
        }
        let mut data_ref: String = data_file.as_str().to_owned();
        data_ref.append(":");
        data_ref.append(group_name);
        data_ref.append("/");
        data_ref.append(name);
        proof {
            reveal_strlit(":");
            reveal_strlit("/");
            assert(data_ref@ =~= old(self).h5_data_file->0@ + seq![':']
                + spec_center_data_tag(center) + seq!['/'] + name@);
        }
        Ok((data_ref, ops))
    }

    /// The store file of one time step.
    pub open spec fn spec_data_file(dir: Seq<char>, time: Seq<char>) -> Seq<char> {
        dir + seq!['/'] + "data_t_"@ + time + ".h5"@
    }

    /// Open the bracket for one time step, creating its store file. Fails
    /// if one is already open.
    pub fn write_data_initialize(&mut self, time: &str) -> (r: Result<Vec<FileOp>, XdmfError>)
        ensures
            r matches Err(e) ==> e is ResourceState,
            final(self).h5_files_dir == old(self).h5_files_dir,
            old(self).h5_data_file is Some ==> (r matches Err(e) && e.spec_message()
                == crate::msg_already_initialized()) && final(self).h5_data_file == old(self).h5_data_file && final(self).groups == old(self).groups,
            old(self).h5_data_file is None ==> (r matches Ok(ops) && ops@.len() == 1 && (ops@[0]
                matches FileOp::StoreCreate { path } && path@ == MultipleFilesHdf5Writer::spec_data_file(
                old(self).h5_files_dir@,
                time@,
            )) && (final(self).h5_data_file matches Some(f)
                && f@ == MultipleFilesHdf5Writer::spec_data_file(old(self).h5_files_dir@, time@))
                && final(self).groups@.len() == 0),
    {
        if self.h5_data_file.is_some() {
            return Err(XdmfError::ResourceState("Writing data was already initialized".to_owned()));
        }
        let mut file_name: String = "data_t_".to_owned();
        file_name.append(time);
        file_name.append(".h5");
        let full = path_join(self.h5_files_dir.as_str(), file_name.as_str());
        proof {
            assert(full@ =~= MultipleFilesHdf5Writer::spec_data_file(self.h5_files_dir@, time@));
        }
        let mut ops: Vec<FileOp> = Vec::new();
        ops.push(FileOp::StoreCreate { path: full.as_str().to_owned() });
        self.h5_data_file = Some(full);
        self.groups = Vec::new();
        Ok(ops)
    }

    /// Close the bracket for the current time step. Fails if none is open.
    pub fn write_data_finalize(&mut self) -> (r: Result<(), XdmfError>)
        ensures
            r matches Err(e) ==> e is ResourceState,
            final(self).h5_files_dir == old(self).h5_files_dir,
            final(self).groups == old(self).groups,
            old(self).h5_data_file is None ==> (r matches Err(e) && e.spec_message()
                == crate::msg_not_initialized()) && final(self).h5_data_file == old(self).h5_data_file,
            old(self).h5_data_file is Some ==> r is Ok && final(self).h5_data_file is None,
    {
        if self.h5_data_file.is_none() {
            return Err(XdmfError::ResourceState("Writing data was not initialized".to_owned()));
        }
        self.h5_data_file = None;
        Ok(())
    }
}

} // verus!
