use xdmf::time_series_writer::{poly_cell_points, prepare_cells, validate_points_and_cells};
use xdmf::xdmf_elements::attribute::AttributeType;
use xdmf::{CellType, DataAttribute, DataMap, DataStorage, TimeSeriesWriter, Values};

fn t64(x: f64) -> String {
    format!("{:.16e}", x)
}

fn zeros(n: usize) -> Vec<String> {
    vec![t64(0.0); n]
}

#[test]
fn test_poly_cell_points() {
    assert_eq!(poly_cell_points(CellType::Vertex), Some(1));
    assert_eq!(poly_cell_points(CellType::Edge), Some(2));
    assert_eq!(poly_cell_points(CellType::Triangle), None);
    assert_eq!(poly_cell_points(CellType::Quadrilateral), None);
    assert_eq!(poly_cell_points(CellType::Tetrahedron), None);
    assert_eq!(poly_cell_points(CellType::Pyramid), None);
    assert_eq!(poly_cell_points(CellType::Wedge), None);
    assert_eq!(poly_cell_points(CellType::Hexahedron), None);
    assert_eq!(poly_cell_points(CellType::Edge3), None);
    assert_eq!(poly_cell_points(CellType::Quadrilateral9), None);
    assert_eq!(poly_cell_points(CellType::Triangle6), None);
    assert_eq!(poly_cell_points(CellType::Quadrilateral8), None);
    assert_eq!(poly_cell_points(CellType::Tetrahedron10), None);
    assert_eq!(poly_cell_points(CellType::Pyramid13), None);
    assert_eq!(poly_cell_points(CellType::Wedge15), None);
    assert_eq!(poly_cell_points(CellType::Wedge18), None);
    assert_eq!(poly_cell_points(CellType::Hexahedron20), None);
    assert_eq!(poly_cell_points(CellType::Hexahedron24), None);
    assert_eq!(poly_cell_points(CellType::Hexahedron27), None);
}

#[test]
fn test_prepare_cells() {
    let cells_prep = prepare_cells((
        &vec![0, 1, 2, 3, 4, 5, 6, 7, 8, 9],
        &vec![
            CellType::Vertex,
            CellType::Edge,
            CellType::Triangle,
            CellType::Quadrilateral,
        ],
    ));

    assert_eq!(cells_prep, vec![1, 1, 0, 2, 2, 1, 2, 4, 3, 4, 5, 5, 6, 7, 8, 9]);
}

#[test]
fn prepare_cells_by_celltype() {
    assert_eq!(prepare_cells((&vec![5], &vec![CellType::Vertex])), vec![1, 1, 5]);

    assert_eq!(
        prepare_cells((&vec![5, 6], &vec![CellType::Edge])),
        vec![2, 2, 5, 6]
    );

    assert_eq!(
        prepare_cells((&vec![5, 6, 7], &vec![CellType::Triangle])),
        vec![4, 5, 6, 7]
    );

    assert_eq!(
        prepare_cells((&vec![5, 6, 7, 8], &vec![CellType::Quadrilateral])),
        vec![5, 5, 6, 7, 8]
    );

    assert_eq!(
        prepare_cells((&vec![5, 6, 7, 8], &vec![CellType::Tetrahedron])),
        vec![6, 5, 6, 7, 8]
    );

    assert_eq!(
        prepare_cells((&vec![5, 6, 7, 8, 9], &vec![CellType::Pyramid])),
        vec![7, 5, 6, 7, 8, 9]
    );

    assert_eq!(
        prepare_cells((&vec![5, 6, 7, 8, 9, 10], &vec![CellType::Wedge])),
        vec![8, 5, 6, 7, 8, 9, 10]
    );

    assert_eq!(
        prepare_cells((&vec![5, 6, 7, 8, 9, 10, 11, 12], &vec![CellType::Hexahedron])),
        vec![9, 5, 6, 7, 8, 9, 10, 11, 12]
    );

    assert_eq!(
        prepare_cells((&vec![5, 6, 7], &vec![CellType::Edge3])),
        vec![34, 5, 6, 7]
    );

    assert_eq!(
        prepare_cells((
            &vec![5, 6, 7, 8, 9, 10, 11, 12, 13],
            &vec![CellType::Quadrilateral9]
        )),
        vec![35, 5, 6, 7, 8, 9, 10, 11, 12, 13]
    );

    assert_eq!(
        prepare_cells((&vec![5, 6, 7, 8, 9, 10], &vec![CellType::Triangle6])),
        vec![36, 5, 6, 7, 8, 9, 10]
    );

    assert_eq!(
        prepare_cells((&vec![5, 6, 7, 8, 9, 10, 11, 12], &vec![CellType::Quadrilateral8])),
        vec![37, 5, 6, 7, 8, 9, 10, 11, 12]
    );

    assert_eq!(
        prepare_cells((
            &vec![5, 6, 7, 8, 9, 10, 11, 12, 13, 14],
            &vec![CellType::Tetrahedron10]
        )),
        vec![38, 5, 6, 7, 8, 9, 10, 11, 12, 13, 14]
    );

    assert_eq!(
        prepare_cells((
            &vec![5, 6, 7, 8, 9, 10, 11, 12, 13, 14, 15, 16, 17],
            &vec![CellType::Pyramid13]
        )),
        vec![39, 5, 6, 7, 8, 9, 10, 11, 12, 13, 14, 15, 16, 17]
    );

    assert_eq!(
        prepare_cells((
            &vec![5, 6, 7, 8, 9, 10, 11, 12, 13, 14, 15, 16, 17, 18, 19],
            &vec![CellType::Wedge15]
        )),
        vec![40, 5, 6, 7, 8, 9, 10, 11, 12, 13, 14, 15, 16, 17, 18, 19]
    );

    assert_eq!(
        prepare_cells((
            &vec![5, 6, 7, 8, 9, 10, 11, 12, 13, 14, 15, 16, 17, 18, 19, 20, 21, 22],
            &vec![CellType::Wedge18]
        )),
        vec![41, 5, 6, 7, 8, 9, 10, 11, 12, 13, 14, 15, 16, 17, 18, 19, 20, 21, 22]
    );

    assert_eq!(
        prepare_cells((
            &vec![5, 6, 7, 8, 9, 10, 11, 12, 13, 14, 15, 16, 17, 18, 19, 20, 21, 22, 23, 24],
            &vec![CellType::Hexahedron20]
        )),
        vec![48, 5, 6, 7, 8, 9, 10, 11, 12, 13, 14, 15, 16, 17, 18, 19, 20, 21, 22, 23, 24]
    );

    assert_eq!(
        prepare_cells((
            &vec![
                5, 6, 7, 8, 9, 10, 11, 12, 13, 14, 15, 16, 17, 18, 19, 20, 21, 22, 23, 24, 25,
                26, 27, 28
            ],
            &vec![CellType::Hexahedron24]
        )),
        vec![
            49, 5, 6, 7, 8, 9, 10, 11, 12, 13, 14, 15, 16, 17, 18, 19, 20, 21, 22, 23, 24, 25,
            26, 27, 28
        ]
    );

    assert_eq!(
        prepare_cells((
            &vec![
                5, 6, 7, 8, 9, 10, 11, 12, 13, 14, 15, 16, 17, 18, 19, 20, 21, 22, 23, 24, 25,
                26, 27, 28, 29, 30, 31
            ],
            &vec![CellType::Hexahedron27]
        )),
        vec![
            50, 5, 6, 7, 8, 9, 10, 11, 12, 13, 14, 15, 16, 17, 18, 19, 20, 21, 22, 23, 24, 25,
            26, 27, 28, 29, 30, 31
        ]
    );
}

#[test]
fn test_validate_points_and_cells() {
    // valid input, must not return an error
    validate_points_and_cells(
        &zeros(33),
        (
            &vec![0, 1, 2, 3, 4, 5, 6, 7],
            &vec![
                CellType::Vertex,
                CellType::Triangle,
                CellType::Quadrilateral,
            ],
        ),
    )
    .unwrap();
}

#[test]
fn validate_points_and_cells_only_points() {
    // valid input, must not return an error
    validate_points_and_cells(&zeros(33), (&vec![], &vec![])).unwrap();
}

#[test]
fn validate_points_and_cells_points_empty() {
    let res = validate_points_and_cells(
        &zeros(0),
        (
            &vec![0, 1, 2, 3, 4, 5, 6, 7],
            &vec![
                CellType::Vertex,
                CellType::Triangle,
                CellType::Quadrilateral,
            ],
        ),
    );

    assert!(res.is_err());
    assert_eq!(
        res.unwrap_err().message(),
        "At least one point is required"
    );
}

#[test]
fn validate_points_and_cells_points_not_3d() {
    let res = validate_points_and_cells(
        &zeros(22),
        (
            &vec![0, 1, 2, 3, 4, 5, 6, 7],
            &vec![
                CellType::Vertex,
                CellType::Triangle,
                CellType::Quadrilateral,
            ],
        ),
    );

    assert!(res.is_err());
    assert_eq!(
        res.unwrap_err().message(),
        "Points must have 3 dimensions"
    );
}

#[test]
fn validate_points_and_cells_conn_index_out_of_bounds() {
    let res = validate_points_and_cells(
        &zeros(33),
        (
            &vec![0, 1, 2, 3, 4, 5, 6, 70],
            &vec![
                CellType::Vertex,
                CellType::Triangle,
                CellType::Quadrilateral,
            ],
        ),
    );

    assert!(res.is_err());
    assert_eq!(
        res.unwrap_err().message(),
        "Connectivity indices out of bounds for the given points, max index: 70, but number of points is 11"
    );
}

#[test]
fn validate_points_and_cells_conn_mismatch() {
    let res = validate_points_and_cells(
        &zeros(33),
        (
            &vec![0, 1, 2, 3, 4, 5, 6, 7],
            &vec![
                CellType::Vertex,
                CellType::Edge,
                CellType::Triangle,
                CellType::Quadrilateral,
            ],
        ),
    );

    assert!(res.is_err());
    assert_eq!(
        res.unwrap_err().message(),
        "Size of connectivities not match the expected number based on the cell types: 8 != 10"
    );
}

#[test]
fn test_data_attribute() {
    let scalar = DataAttribute::Scalar;
    let vector = DataAttribute::Vector;
    let tensor = DataAttribute::Tensor;
    let tensor6 = DataAttribute::Tensor6;
    let matrix = DataAttribute::Matrix(3, 3);
    let generic = DataAttribute::Generic(5);

    assert_eq!(scalar.size(), 1);
    assert_eq!(vector.size(), 3);
    assert_eq!(tensor.size(), 9);
    assert_eq!(tensor6.size(), 6);
    assert_eq!(matrix.size(), 9);
    assert_eq!(generic.size(), 5);

    assert_eq!(AttributeType::Scalar, scalar.into());
    assert_eq!(AttributeType::Vector, vector.into());
    assert_eq!(AttributeType::Tensor, tensor.into());
    assert_eq!(AttributeType::Matrix, tensor6.into());
    assert_eq!(AttributeType::Matrix, matrix.into());
    assert_eq!(AttributeType::Matrix, generic.into());
}

#[test]
fn test_data_storage_from_str() {
    // exact case matches
    assert_eq!("ascii".parse::<DataStorage>().unwrap(), DataStorage::Ascii);
    assert_eq!("Ascii".parse::<DataStorage>().unwrap(), DataStorage::Ascii);
    assert_eq!("ASCII".parse::<DataStorage>().unwrap(), DataStorage::Ascii);

    // AsciiInline spellings
    assert_eq!(
        "asciiinline".parse::<DataStorage>().unwrap(),
        DataStorage::AsciiInline
    );
    assert_eq!(
        "ascii_inline".parse::<DataStorage>().unwrap(),
        DataStorage::AsciiInline
    );
    assert_eq!(
        "ascii-inline".parse::<DataStorage>().unwrap(),
        DataStorage::AsciiInline
    );

    // Hdf5SingleFile spellings
    assert_eq!(
        "hdf5singlefile".parse::<DataStorage>().unwrap(),
        DataStorage::Hdf5SingleFile
    );
    assert_eq!(
        "hdf5_single_file".parse::<DataStorage>().unwrap(),
        DataStorage::Hdf5SingleFile
    );
    assert_eq!(
        "Hdf5-Single-File".parse::<DataStorage>().unwrap(),
        DataStorage::Hdf5SingleFile
    );

    // Hdf5MultipleFiles spellings
    assert_eq!(
        "hdf5multiplefiles".parse::<DataStorage>().unwrap(),
        DataStorage::Hdf5MultipleFiles
    );
    assert_eq!(
        "hdf5_multiple_files".parse::<DataStorage>().unwrap(),
        DataStorage::Hdf5MultipleFiles
    );
    assert_eq!(
        "HDF5-Multiple-Files".parse::<DataStorage>().unwrap(),
        DataStorage::Hdf5MultipleFiles
    );

    // invalid input
    let err = "invalid".parse::<DataStorage>().unwrap_err();
    assert_eq!(
        err,
        "Invalid DataStorage variant: 'invalid'. Valid options are: 'Ascii', 'AsciiInline', 'Hdf5SingleFile', 'Hdf5MultipleFiles'"
    );

    let err = "".parse::<DataStorage>().unwrap_err();
    assert_eq!(
        err,
        "Invalid DataStorage variant: ''. Valid options are: 'Ascii', 'AsciiInline', 'Hdf5SingleFile', 'Hdf5MultipleFiles'"
    );
}

#[test]
fn test_validate_data() {
    const NUM_POINTS: usize = 10;

    let (writer, _ops) = TimeSeriesWriter::new("test_output.xdmf", DataStorage::AsciiInline).unwrap();

    // write mesh
    let (mut writer, _ops) = writer
        .write_mesh(
            &zeros(NUM_POINTS * 3),
            (&vec![0, 2, 3, 4], &vec![CellType::Vertex; 4]),
        )
        .unwrap();

    let point_data: DataMap = vec![(
        "point_data1".to_string(),
        (DataAttribute::Scalar, Values::F64(vec![t64(5.0); NUM_POINTS])),
    )];

    // valid time step
    writer.write_data("0.1", Some(&point_data), None).unwrap();

    // missing data
    let exp_err_missing_data = "At least one of point_data or cell_data must be provided";

    // neither point_data nor cell_data provided
    let res = writer.write_data("1.0", None, None);
    assert_eq!(res.unwrap_err().message(), exp_err_missing_data);

    // (empty) point_data provided, but cell_data is None
    let empty: DataMap = Vec::new();
    let res = writer.write_data("1.0", Some(&empty), None);
    assert_eq!(res.unwrap_err().message(), exp_err_missing_data);

    // (empty) cell_data provided, but point_data is None
    let res = writer.write_data("1.0", None, Some(&empty));
    assert_eq!(res.unwrap_err().message(), exp_err_missing_data);

    // invalid time step (already exists)
    let res = writer.write_data("0.1", Some(&point_data), None);
    assert_eq!(
        res.unwrap_err().message(),
        "Time step '0.1' has already been written"
    );

    // invalid time step (not a number)
    let res = writer.write_data("invalid_time", None, None);
    assert_eq!(
        res.unwrap_err().message(),
        "Time must be a valid float, and not 'invalid_time'"
    );

    // invalid time step (empty)
    let res = writer.write_data("", None, None);
    assert_eq!(
        res.unwrap_err().message(),
        "Time must be a valid float, and not ''"
    );
}

#[test]
fn test_validate_data_wrong_point_data_sizes() {
    const NUM_POINTS: usize = 10;

    let (writer, _ops) = TimeSeriesWriter::new("test_output.xdmf", DataStorage::AsciiInline).unwrap();

    let (mut writer, _ops) = writer
        .write_mesh(
            &zeros(NUM_POINTS * 3),
            (&vec![0, 2, 3, 4], &vec![CellType::Vertex; 4]),
        )
        .unwrap();

    // scalar point data
    let point_data_scalar: DataMap = vec![(
        "point_data_sca".to_string(),
        (DataAttribute::Scalar, Values::F64(vec![t64(5.0); NUM_POINTS - 1])),
    )];
    let res = writer.write_data("0.0", Some(&point_data_scalar), None);
    assert_eq!(
        res.unwrap_err().message(),
        "Size of point data 'point_data_sca' must be 10, but is 9"
    );

    // vector point data
    let point_data_vector: DataMap = vec![(
        "point_data_vec".to_string(),
        (DataAttribute::Vector, Values::F64(vec![t64(5.0); NUM_POINTS * 2])),
    )];
    let res = writer.write_data("0.0", Some(&point_data_vector), None);
    assert_eq!(
        res.unwrap_err().message(),
        "Size of point data 'point_data_vec' must be 30, but is 20"
    );

    // tensor point data
    let point_data_tensor: DataMap = vec![(
        "point_data_ten".to_string(),
        (DataAttribute::Tensor, Values::F64(vec![t64(5.0); NUM_POINTS * 3])),
    )];
    let res = writer.write_data("0.0", Some(&point_data_tensor), None);
    assert_eq!(
        res.unwrap_err().message(),
        "Size of point data 'point_data_ten' must be 90, but is 30"
    );

    // symmetric tensor point data
    let point_data_tensor6: DataMap = vec![(
        "point_data_ten6".to_string(),
        (DataAttribute::Tensor6, Values::F64(vec![t64(5.0); NUM_POINTS * 3])),
    )];
    let res = writer.write_data("0.0", Some(&point_data_tensor6), None);
    assert_eq!(
        res.unwrap_err().message(),
        "Size of point data 'point_data_ten6' must be 60, but is 30"
    );

    // matrix point data
    let point_data_matrix: DataMap = vec![(
        "point_data_mat".to_string(),
        (
            DataAttribute::Matrix(2, 1),
            Values::F64(vec![t64(5.0); NUM_POINTS * 3 - 1]),
        ),
    )];
    let res = writer.write_data("0.0", Some(&point_data_matrix), None);
    assert_eq!(
        res.unwrap_err().message(),
        "Size of point data 'point_data_mat' must be 20, but is 29"
    );
}

#[test]
fn test_validate_data_wrong_cell_data_sizes() {
    const NUM_CELLS: usize = 4;

    let (writer, _ops) = TimeSeriesWriter::new("test_output.xdmf", DataStorage::AsciiInline).unwrap();

    let (mut writer, _ops) = writer
        .write_mesh(
            &zeros(10 * 3),
            (&vec![0, 2, 3, 4], &vec![CellType::Vertex; NUM_CELLS]),
        )
        .unwrap();

    // scalar cell data
    let cell_data_scalar: DataMap = vec![(
        "cell_data_sca".to_string(),
        (DataAttribute::Scalar, Values::F64(vec![t64(5.0); NUM_CELLS - 1])),
    )];
    let res = writer.write_data("0.0", None, Some(&cell_data_scalar));
    assert_eq!(
        res.unwrap_err().message(),
        "Size of cell data 'cell_data_sca' must be 4, but is 3"
    );

    // vector cell data
    let cell_data_vector: DataMap = vec![(
        "cell_data_vec".to_string(),
        (DataAttribute::Vector, Values::F64(vec![t64(5.0); NUM_CELLS * 2])),
    )];
    let res = writer.write_data("0.0", None, Some(&cell_data_vector));
    assert_eq!(
        res.unwrap_err().message(),
        "Size of cell data 'cell_data_vec' must be 12, but is 8"
    );

    // tensor cell data
    let cell_data_tensor: DataMap = vec![(
        "cell_data_ten".to_string(),
        (DataAttribute::Tensor, Values::F64(vec![t64(5.0); NUM_CELLS * 3])),
    )];
    let res = writer.write_data("0.0", None, Some(&cell_data_tensor));
    assert_eq!(
        res.unwrap_err().message(),
        "Size of cell data 'cell_data_ten' must be 36, but is 12"
    );

    // symmetric tensor cell data
    let cell_data_tensor6: DataMap = vec![(
        "cell_data_ten6".to_string(),
        (DataAttribute::Tensor6, Values::F64(vec![t64(5.0); NUM_CELLS * 3])),
    )];
    let res = writer.write_data("0.0", None, Some(&cell_data_tensor6));
    assert_eq!(
        res.unwrap_err().message(),
        "Size of cell data 'cell_data_ten6' must be 24, but is 12"
    );

    // matrix cell data
    let cell_data_matrix: DataMap = vec![(
        "cell_data_mat".to_string(),
        (
            DataAttribute::Matrix(2, 1),
            Values::F64(vec![t64(5.0); NUM_CELLS * 3 - 1]),
        ),
    )];
    let res = writer.write_data("0.0", None, Some(&cell_data_matrix));
    assert_eq!(
        res.unwrap_err().message(),
        "Size of cell data 'cell_data_mat' must be 8, but is 11"
    );
}

#[test]
fn validate_data_rejects_bad_attribute_name() {
    let (writer, _ops) = TimeSeriesWriter::new("test_output.xdmf", DataStorage::AsciiInline).unwrap();
    let (mut writer, _ops) = writer
        .write_mesh(&zeros(9), (&vec![0, 1, 2], &vec![CellType::Triangle]))
        .unwrap();

    let bad: DataMap = vec![(
        "bad name".to_string(),
        (DataAttribute::Scalar, Values::F64(vec![t64(1.0); 3])),
    )];
    let res = writer.write_data("0.5", Some(&bad), None);
    assert_eq!(
        res.unwrap_err().message(),
        "Attribute name 'bad name' must be non-empty and contain only ASCII letters, digits, '_' or '-'"
    );
}

#[test]
fn encoding_size_invariant_concrete() {
    // one vertex, one edge and one triangle: 6 connectivity entries,
    // 3 type tags, 2 explicit counts for the poly kinds
    let conn = vec![0_u64, 1, 2, 3, 4, 5];
    let types = vec![CellType::Vertex, CellType::Edge, CellType::Triangle];
    let encoded = prepare_cells((&conn, &types));
    assert_eq!(encoded.len(), conn.len() + types.len() + 2);
    assert_eq!(encoded, vec![1, 1, 0, 2, 2, 1, 2, 4, 3, 4, 5]);
}

#[test]
fn validate_data_rejects_repeated_attribute_name() {
    let (writer, _ops) = TimeSeriesWriter::new("test_output.xdmf", DataStorage::AsciiInline).unwrap();
    let (mut writer, _ops) = writer
        .write_mesh(&zeros(9), (&vec![0, 1, 2], &vec![CellType::Triangle]))
        .unwrap();

    let doubled: DataMap = vec![
        (
            "temperature".to_string(),
            (DataAttribute::Scalar, Values::F64(vec![t64(1.0); 3])),
        ),
        (
            "temperature".to_string(),
            (DataAttribute::Scalar, Values::F64(vec![t64(2.0); 3])),
        ),
    ];
    let res = writer.write_data("0.5", Some(&doubled), None);
    assert_eq!(
        res.unwrap_err().message(),
        "Attribute name 'temperature' is used more than once"
    );

    // the same name on a point field and a cell field is two different
    // attributes and stays accepted
    let point_data: DataMap = vec![(
        "temperature".to_string(),
        (DataAttribute::Scalar, Values::F64(vec![t64(1.0); 3])),
    )];
    let cell_data: DataMap = vec![(
        "temperature".to_string(),
        (DataAttribute::Scalar, Values::F64(vec![t64(9.0)])),
    )];
    writer
        .write_data("0.5", Some(&point_data), Some(&cell_data))
        .unwrap();
}

#[test]
fn validate_data_accepts_zero_size_shape() {
    let (writer, _ops) = TimeSeriesWriter::new("test_output.xdmf", DataStorage::AsciiInline).unwrap();
    let (mut writer, _ops) = writer
        .write_mesh(&zeros(9), (&vec![0, 1, 2], &vec![CellType::Triangle]))
        .unwrap();

    // a zero-size shape expects zero values and is recorded with an empty
    // extent pair
    let empty_shape: DataMap = vec![(
        "markers".to_string(),
        (DataAttribute::Generic(0), Values::U64(vec![])),
    )];
    writer.write_data("0.5", Some(&empty_shape), None).unwrap();

    let wrong: DataMap = vec![(
        "markers".to_string(),
        (DataAttribute::Generic(0), Values::U64(vec![1])),
    )];
    let res = writer.write_data("0.75", Some(&wrong), None);
    assert_eq!(
        res.unwrap_err().message(),
        "Size of point data 'markers' must be 0, but is 1"
    );
}
