use xdmf::persist::FileOp;
use xdmf::time_series_writer::SubMesh;
use xdmf::xdmf_elements::attribute::{Attribute, AttributeType, Center};
use xdmf::xdmf_elements::data_item::{DataItem, Format, NumberType};
use xdmf::xdmf_elements::geometry::GeometryType;
use xdmf::{CellType, DataAttribute, DataMap, DataStorage, TimeSeriesWriter, Values};

fn t64(x: f64) -> String {
    format!("{:.16e}", x)
}

fn tokens(xs: &[f64]) -> Vec<String> {
    xs.iter().map(|x| t64(*x)).collect()
}

/// A model file system: execute the text-file operations of a plan on a
/// list of (path, contents) pairs.
fn run_ops(store: &mut Vec<(String, String)>, ops: &[FileOp]) {
    for op in ops {
        match op {
            FileOp::WriteFile { path, contents } => {
                store.retain(|e| &e.0 != path);
                store.push((path.clone(), contents.clone()));
            }
            FileOp::Rename { from, to } => {
                if let Some(pos) = store.iter().position(|e| &e.0 == from) {
                    let (_, contents) = store.remove(pos);
                    store.retain(|e| &e.0 != to);
                    store.push((to.clone(), contents));
                }
            }
            _ => {}
        }
    }
}

fn lookup<'a>(store: &'a [(String, String)], path: &str) -> Option<&'a str> {
    store
        .iter()
        .find(|e| e.0 == path)
        .map(|e| e.1.as_str())
}

#[test]
fn end_to_end_inline_scenario() {
    // a mesh of 3 points with one polyline and one triangle
    let points = tokens(&[0.0, 0.0, 0.0, 1.0, 0.0, 0.0, 0.0, 1.0, 0.0]);
    let conn: Vec<u64> = vec![0, 1, 0, 2, 1];
    let types = vec![CellType::Edge, CellType::Triangle];

    // the connectivity encodes to the documented mixed-topology array
    let encoded = xdmf::time_series_writer::prepare_cells((&conn, &types));
    assert_eq!(encoded, vec![2, 2, 0, 1, 4, 0, 2, 1]);

    let (writer, setup_ops) = TimeSeriesWriter::new("out", DataStorage::AsciiInline).unwrap();
    assert!(setup_ops.is_empty());

    let (mut writer, mesh_ops) = writer.write_mesh(&points, (&conn, &types)).unwrap();

    // the mesh commit is the temp-file write and the rename, nothing else
    assert_eq!(mesh_ops.len(), 2);
    let mut store: Vec<(String, String)> = Vec::new();
    run_ops(&mut store, &mesh_ops);
    let doc = lookup(&store, "out.xdmf2").unwrap().to_string();
    assert!(doc.contains("<Grid Name=\"mesh\" GridType=\"Uniform\">"));
    assert!(doc.contains(
        "<DataItem Name=\"connectivity\" Dimensions=\"8\" NumberType=\"UInt\" Format=\"XML\" Precision=\"8\">2 2 0 1 4 0 2 1</DataItem>"
    ));

    // one scalar point field at one time step
    let point_data: DataMap = vec![(
        "temperature".to_string(),
        (DataAttribute::Scalar, Values::F64(tokens(&[1.0, 2.0, 3.0]))),
    )];
    let step_ops = writer.write_data("1.0", Some(&point_data), None).unwrap();
    run_ops(&mut store, &step_ops);

    let doc = lookup(&store, "out.xdmf2").unwrap();
    assert!(doc.starts_with(
        "<Xdmf Version=\"2.0\" xmlns:xi=\"http://www.w3.org/2001/XInclude\">"
    ));
    assert!(doc.contains(
        "<Grid Name=\"time_series\" GridType=\"Collection\" CollectionType=\"Temporal\">"
    ));
    assert!(doc.contains("<Grid Name=\"time_series-t1.0\" GridType=\"Uniform\">"));
    assert!(doc.contains(
        "<DataItem Reference=\"XML\">/Xdmf/Domain/DataItem[@Name=\"coords\"]</DataItem>"
    ));
    assert!(doc.contains("<Topology TopologyType=\"Mixed\" NumberOfElements=\"2\">"));
    assert!(doc.contains("<Time Value=\"1.0\"/>"));
    // the inline backend renders the values at the declared precision
    assert!(doc.contains(
        ">1.0000000000000000e0 2.0000000000000000e0 3.0000000000000000e0</DataItem>"
    ));
    assert!(doc.contains("<Information Name=\"data_storage\" Value=\"AsciiInline\"/>"));
}

#[test]
fn interrupted_commit_leaves_document_untouched() {
    let points = tokens(&[0.0, 0.0, 0.0, 1.0, 0.0, 0.0, 0.0, 1.0, 0.0]);
    let conn: Vec<u64> = vec![0, 1, 2];
    let types = vec![CellType::Triangle];

    let (writer, _ops) = TimeSeriesWriter::new("out", DataStorage::AsciiInline).unwrap();
    let (mut writer, mesh_ops) = writer.write_mesh(&points, (&conn, &types)).unwrap();

    let mut store: Vec<(String, String)> = Vec::new();
    run_ops(&mut store, &mesh_ops);
    let committed = lookup(&store, "out.xdmf2").unwrap().to_string();

    let point_data: DataMap = vec![(
        "temperature".to_string(),
        (DataAttribute::Scalar, Values::F64(tokens(&[1.0, 2.0, 3.0]))),
    )];
    let step_ops = writer.write_data("2.5", Some(&point_data), None).unwrap();

    // run everything but the final rename: the committed document is
    // unaffected by the interruption
    run_ops(&mut store, &step_ops[..step_ops.len() - 1]);
    assert_eq!(lookup(&store, "out.xdmf2"), Some(committed.as_str()));

    // completing the plan installs the new document
    run_ops(&mut store, &step_ops[step_ops.len() - 1..]);
    let doc = lookup(&store, "out.xdmf2").unwrap();
    assert_ne!(doc, committed);
    assert!(doc.contains("<Time Value=\"2.5\"/>"));
}

#[test]
fn duplicate_time_rejected_and_order_kept() {
    let points = tokens(&[0.0, 0.0, 0.0, 1.0, 0.0, 0.0, 0.0, 1.0, 0.0]);
    let conn: Vec<u64> = vec![0, 1, 2];
    let types = vec![CellType::Triangle];

    let (writer, _ops) = TimeSeriesWriter::new("out", DataStorage::AsciiInline).unwrap();
    let (mut writer, _ops) = writer.write_mesh(&points, (&conn, &types)).unwrap();

    let point_data: DataMap = vec![(
        "temperature".to_string(),
        (DataAttribute::Scalar, Values::F64(tokens(&[1.0, 2.0, 3.0]))),
    )];

    // two distinct time tokens succeed, in order; note that "10.0" sorts
    // before "2.0" as text, so order must come from the writes themselves
    writer.write_data("10.0", Some(&point_data), None).unwrap();
    let ops = writer.write_data("2.0", Some(&point_data), None).unwrap();

    // the same token a second time fails on the second call
    let res = writer.write_data("10.0", Some(&point_data), None);
    assert_eq!(
        res.unwrap_err().message(),
        "Time step '10.0' has already been written"
    );

    let mut store: Vec<(String, String)> = Vec::new();
    run_ops(&mut store, &ops);
    let doc = lookup(&store, "out.xdmf2").unwrap();
    let first = doc.find("time_series-t10.0").unwrap();
    let second = doc.find("time_series-t2.0").unwrap();
    assert!(first < second);
}

#[test]
fn ascii_backend_plans_side_files() {
    let points = tokens(&[0.0, 0.0, 0.0, 1.0, 0.0, 0.0, 0.0, 1.0, 0.0]);
    let conn: Vec<u64> = vec![0, 1, 2];
    let types = vec![CellType::Triangle];

    let (writer, setup_ops) = TimeSeriesWriter::new("run/out", DataStorage::Ascii).unwrap();
    // the parent directory and the side-file directory are created first
    assert_eq!(setup_ops.len(), 2);
    match &setup_ops[0] {
        FileOp::CreateDirAll { path } => assert_eq!(path, "run"),
        _ => panic!("expected a directory creation"),
    }
    match &setup_ops[1] {
        FileOp::CreateDirAll { path } => assert_eq!(path, "run/out.txt"),
        _ => panic!("expected a directory creation"),
    }

    let (mut writer, mesh_ops) = writer.write_mesh(&points, (&conn, &types)).unwrap();
    // two side files, then the commit pair
    assert_eq!(mesh_ops.len(), 4);
    match &mesh_ops[0] {
        FileOp::WriteFile { path, .. } => assert_eq!(path, "run/out.txt/points.txt"),
        _ => panic!("expected a file write"),
    }
    match &mesh_ops[3] {
        FileOp::Rename { from, to } => {
            assert_eq!(from, "run/out.xdmf.tmp");
            assert_eq!(to, "run/out.xdmf2");
        }
        _ => panic!("expected the final rename"),
    }

    let point_data: DataMap = vec![(
        "temperature".to_string(),
        (DataAttribute::Scalar, Values::F64(tokens(&[1.0, 2.0, 3.0]))),
    )];
    let ops = writer.write_data("0.5", Some(&point_data), None).unwrap();
    assert_eq!(ops.len(), 3);
    match &ops[0] {
        FileOp::WriteFile { path, contents } => {
            assert_eq!(path, "run/out.txt/data_t_0.5_point_data_temperature.txt");
            assert_eq!(
                contents,
                "1.0000000000000000e0 2.0000000000000000e0 3.0000000000000000e0\n"
            );
        }
        _ => panic!("expected a file write"),
    }

    let mut store: Vec<(String, String)> = Vec::new();
    run_ops(&mut store, &ops);
    let doc = lookup(&store, "run/out.xdmf2").unwrap();
    assert!(doc.contains(
        "<xi:include href=\"out.txt/data_t_0.5_point_data_temperature.txt\" parse=\"text\"/>"
    ));
}

#[test]
fn hdf5_modes_require_the_capability() {
    // the capability flag is off in this build, so the array-store modes
    // are refused at backend construction
    assert!(!xdmf::is_hdf5_enabled());
    match TimeSeriesWriter::new("out", DataStorage::Hdf5SingleFile) {
        Err(e) => assert_eq!(
            e.message(),
            "Using Hdf5SingleFile DataStorage requires the hdf5 feature."
        ),
        Ok(_) => panic!("expected the capability error"),
    }
    match TimeSeriesWriter::new("out", DataStorage::Hdf5MultipleFiles) {
        Err(e) => assert_eq!(
            e.message(),
            "Using Hdf5MultipleFiles DataStorage requires the hdf5 feature."
        ),
        Ok(_) => panic!("expected the capability error"),
    }
    match xdmf::create_writer("out", DataStorage::Hdf5SingleFile) {
        Err(e) => assert_eq!(
            e.message(),
            "Using Hdf5SingleFile DataStorage requires the hdf5 feature."
        ),
        Ok(_) => panic!("expected the capability error"),
    }
}

#[test]
fn hdf5_single_file_backend_plans_store_ops() {
    let points = tokens(&[0.0, 0.0, 0.0, 1.0, 0.0, 0.0, 0.0, 1.0, 0.0]);
    let conn: Vec<u64> = vec![0, 1, 2];
    let types = vec![CellType::Triangle];

    // the planner itself is exercised directly, since this build's
    // capability flag keeps the constructor from handing it out
    let (backend, setup_op) = xdmf::hdf5_writer::SingleFileHdf5Writer::new("out");
    match &setup_op {
        FileOp::StoreCreate { path } => assert_eq!(path, "out.h5"),
        _ => panic!("expected a store creation"),
    }
    let writer = TimeSeriesWriter {
        xdmf_file_name: "out.xdmf2".to_string(),
        writer: xdmf::DataWriter::Hdf5SingleFile(backend),
    };

    let (mut writer, mesh_ops) = writer.write_mesh(&points, (&conn, &types)).unwrap();
    // three store operations, the flush, then the commit pair
    assert_eq!(mesh_ops.len(), 6);
    match &mesh_ops[1] {
        FileOp::StoreWriteFloats { path, group, dataset, dims, tokens: toks } => {
            assert_eq!(path, "out.h5");
            assert_eq!(group, "mesh");
            assert_eq!(dataset, "points");
            assert_eq!(dims, &vec![9]);
            assert_eq!(toks, &points);
        }
        _ => panic!("expected a float dataset write"),
    }

    let cell_data: DataMap = vec![(
        "ids".to_string(),
        (DataAttribute::Scalar, Values::U64(vec![7])),
    )];
    let ops = writer.write_data("0.5", None, Some(&cell_data)).unwrap();
    // group creation, dataset write, flush, then the commit pair
    assert_eq!(ops.len(), 5);
    match &ops[0] {
        FileOp::StoreCreateGroup { path, group } => {
            assert_eq!(path, "out.h5");
            assert_eq!(group, "data/t_0.5/cell_data");
        }
        _ => panic!("expected a group creation"),
    }
    match &ops[1] {
        FileOp::StoreWriteUInts { path, group, dataset, values, .. } => {
            assert_eq!(path, "out.h5");
            assert_eq!(group, "data/t_0.5/cell_data");
            assert_eq!(dataset, "ids");
            assert_eq!(values, &vec![7]);
        }
        _ => panic!("expected an integer dataset write"),
    }
    match &ops[2] {
        FileOp::StoreFlush { path } => assert_eq!(path, "out.h5"),
        _ => panic!("expected a store flush"),
    }

    let mut store: Vec<(String, String)> = Vec::new();
    run_ops(&mut store, &ops);
    let doc = lookup(&store, "out.xdmf2").unwrap();
    assert!(doc.contains(">out.h5:data/t_0.5/cell_data/ids</DataItem>"));
    assert!(doc.contains("Format=\"HDF\""));
}

#[test]
fn write_mesh_and_submeshes_records_index_sets() {
    let points = tokens(&[0.0, 0.0, 0.0, 1.0, 0.0, 0.0, 0.0, 1.0, 0.0]);
    let conn: Vec<u64> = vec![0, 1, 2];
    let types = vec![CellType::Triangle];
    let submeshes = vec![(
        "submesh_1".to_string(),
        SubMesh { point_indices: vec![0, 1], cell_indices: vec![0] },
    )];

    let (writer, _ops) = TimeSeriesWriter::new("out", DataStorage::AsciiInline).unwrap();
    let (mut writer, _ops) = writer
        .write_mesh_and_submeshes(&points, (&conn, &types), &submeshes)
        .unwrap();

    let point_data: DataMap = vec![(
        "temperature".to_string(),
        (DataAttribute::Scalar, Values::F64(tokens(&[1.0, 2.0, 3.0]))),
    )];
    let ops = writer.write_data("1.0", Some(&point_data), None).unwrap();

    let mut store: Vec<(String, String)> = Vec::new();
    run_ops(&mut store, &ops);
    let doc = lookup(&store, "out.xdmf2").unwrap();
    assert!(doc.contains(
        "<DataItem Name=\"submesh_1_points\" Dimensions=\"2\" NumberType=\"UInt\" Format=\"XML\" Precision=\"8\">0 1</DataItem>"
    ));
    assert!(doc.contains(
        "<DataItem Name=\"submesh_1_cells\" Dimensions=\"1\" NumberType=\"UInt\" Format=\"XML\" Precision=\"8\">0</DataItem>"
    ));
}

#[test]
fn test_attribute_default() {
    let attribute = Attribute::default();
    assert_eq!(attribute.name, "");
    assert_eq!(attribute.attribute_type, AttributeType::Scalar);
    assert_eq!(attribute.center, Center::Node);
}

#[test]
fn test_attribute_type_default() {
    assert_eq!(AttributeType::default(), AttributeType::Scalar);
}

#[test]
fn test_center_default() {
    assert_eq!(Center::default(), Center::Node);
}

#[test]
fn test_data_item_default() {
    let default_item = DataItem::default();
    assert!(default_item.name.is_none());
    assert_eq!(default_item.number_type, Some(NumberType::Float));
    assert_eq!(default_item.format, Some(Format::XML));
    assert_eq!(default_item.precision, Some(4));
    assert!(default_item.reference.is_none());
}

#[test]
fn test_number_type_default() {
    assert_eq!(NumberType::default(), NumberType::Float);
}

#[test]
fn test_format_default() {
    assert_eq!(Format::default(), Format::XML);
}

#[test]
fn test_geometry_type_default() {
    assert_eq!(GeometryType::default(), GeometryType::XYZ);
}

#[test]
fn ascii_mode_rejects_path_without_file_name() {
    match TimeSeriesWriter::new("runs/", DataStorage::Ascii) {
        Err(e) => assert_eq!(e.message(), "Base file name must have a valid file name"),
        Ok(_) => panic!("expected the rejection"),
    }
    match xdmf::create_writer("", DataStorage::Ascii) {
        Err(e) => assert_eq!(e.message(), "Base file name must have a valid file name"),
        Ok(_) => panic!("expected the rejection"),
    }
}
