use xdmf::xdmf_elements::data_item::{DataContent, DataItem, NumberType};
use xdmf::xdmf_elements::dimensions::Dimensions;
use xdmf::xdmf_elements::geometry::{Geometry, GeometryType};
use xdmf::xdmf_elements::grid::Grid;
use xdmf::xdmf_elements::topology::{Topology, TopologyType};
use xdmf::xdmf_elements::{Domain, Xdmf};

fn raw(s: &str) -> DataContent {
    DataContent::Raw(s.to_string())
}

#[test]
fn basic_grid() {
    let xdmf = Xdmf::new(Domain::new(Grid::new_uniform(
        "Grid_1",
        Geometry {
            geometry_type: GeometryType::XYZ,
            data_item: DataItem {
                dimensions: Some(Dimensions(vec![4, 3])),
                data: raw("0 0 0 0 1 0 1 1 0 1 0 0.5"),
                number_type: Some(NumberType::Float),
                ..Default::default()
            },
        },
        Topology {
            topology_type: TopologyType::Triangle,
            number_of_elements: "2".to_string(),
            data_item: DataItem {
                dimensions: Some(Dimensions(vec![6])),
                number_type: Some(NumberType::Int),
                data: raw("0 1 2 0 2 3"),
                ..Default::default()
            },
        },
    )));

    let expected_xdmf = r#"<Xdmf Version="2.0" xmlns:xi="http://www.w3.org/2001/XInclude">
    <Domain>
        <Grid Name="Grid_1" GridType="Uniform">
            <Geometry GeometryType="XYZ">
                <DataItem Dimensions="4 3" NumberType="Float" Format="XML" Precision="4">0 0 0 0 1 0 1 1 0 1 0 0.5</DataItem>
            </Geometry>
            <Topology TopologyType="Triangle" NumberOfElements="2">
                <DataItem Dimensions="6" NumberType="Int" Format="XML" Precision="4">0 1 2 0 2 3</DataItem>
            </Topology>
        </Grid>
    </Domain>
</Xdmf>"#;

    assert_eq!(xdmf.write_to(), expected_xdmf);
}

#[test]
fn mixed_grid() {
    let xdmf = Xdmf::new(Domain::new(Grid::new_uniform(
        "Grid_1",
        Geometry {
            geometry_type: GeometryType::XYZ,
            data_item: DataItem {
                dimensions: Some(Dimensions(vec![5, 3])),
                data: raw("0 0 0 0 1 0 1 1 0 1 0 0 0.5 1.5 0.5"),
                number_type: Some(NumberType::Float),
                ..Default::default()
            },
        },
        Topology {
            topology_type: TopologyType::Mixed,
            number_of_elements: "2".to_string(),
            data_item: DataItem {
                dimensions: Some(Dimensions(vec![9])),
                number_type: Some(NumberType::Int),
                data: raw("5 0 1 2 3 4 1 2 4"),
                ..Default::default()
            },
        },
    )));

    let expected_xdmf = r#"<Xdmf Version="2.0" xmlns:xi="http://www.w3.org/2001/XInclude">
    <Domain>
        <Grid Name="Grid_1" GridType="Uniform">
            <Geometry GeometryType="XYZ">
                <DataItem Dimensions="5 3" NumberType="Float" Format="XML" Precision="4">0 0 0 0 1 0 1 1 0 1 0 0 0.5 1.5 0.5</DataItem>
            </Geometry>
            <Topology TopologyType="Mixed" NumberOfElements="2">
                <DataItem Dimensions="9" NumberType="Int" Format="XML" Precision="4">5 0 1 2 3 4 1 2 4</DataItem>
            </Topology>
        </Grid>
    </Domain>
</Xdmf>"#;

    assert_eq!(xdmf.write_to(), expected_xdmf);
}

#[test]
fn temporal_collection_document() {
    let t64 = |x: f64| format!("{:.16e}", x);
    let points: Vec<String> = [0.0, 0.0, 0.0, 1.0, 0.0, 0.0, 0.0, 1.0, 0.0]
        .iter()
        .map(|x| t64(*x))
        .collect();
    let conn: Vec<u64> = vec![0, 1, 0, 2, 1];
    let types = vec![xdmf::CellType::Edge, xdmf::CellType::Triangle];

    let (writer, _ops) =
        xdmf::TimeSeriesWriter::new("series", xdmf::DataStorage::AsciiInline).unwrap();
    let (mut writer, _ops) = writer.write_mesh(&points, (&conn, &types)).unwrap();

    let point_data: xdmf::DataMap = vec![(
        "temperature".to_string(),
        (
            xdmf::DataAttribute::Scalar,
            xdmf::Values::F64(vec![t64(1.0), t64(2.0), t64(3.0)]),
        ),
    )];
    writer.write_data("1.0", Some(&point_data), None).unwrap();

    let cell_data: xdmf::DataMap = vec![(
        "flags".to_string(),
        (xdmf::DataAttribute::Scalar, xdmf::Values::U64(vec![7, 8])),
    )];
    let ops = writer.write_data("2.0", None, Some(&cell_data)).unwrap();

    let text = match &ops[0] {
        xdmf::persist::FileOp::WriteFile { path, contents } => {
            assert_eq!(path, "series.xdmf.tmp");
            contents.clone()
        }
        _ => panic!("expected the temp-file write"),
    };

    let expected = r#"<Xdmf Version="2.0" xmlns:xi="http://www.w3.org/2001/XInclude">
    <Domain>
        <Grid Name="time_series" GridType="Collection" CollectionType="Temporal">
            <Grid Name="time_series-t1.0" GridType="Uniform">
                <Geometry GeometryType="XYZ">
                    <DataItem Reference="XML">/Xdmf/Domain/DataItem[@Name="coords"]</DataItem>
                </Geometry>
                <Topology TopologyType="Mixed" NumberOfElements="2">
                    <DataItem Reference="XML">/Xdmf/Domain/DataItem[@Name="connectivity"]</DataItem>
                </Topology>
                <Time Value="1.0"/>
                <Attribute Name="temperature" AttributeType="Scalar" Center="Node">
                    <DataItem Dimensions="3" NumberType="Float" Format="XML" Precision="8">1.0000000000000000e0 2.0000000000000000e0 3.0000000000000000e0</DataItem>
                </Attribute>
            </Grid>
            <Grid Name="time_series-t2.0" GridType="Uniform">
                <Geometry GeometryType="XYZ">
                    <DataItem Reference="XML">/Xdmf/Domain/DataItem[@Name="coords"]</DataItem>
                </Geometry>
                <Topology TopologyType="Mixed" NumberOfElements="2">
                    <DataItem Reference="XML">/Xdmf/Domain/DataItem[@Name="connectivity"]</DataItem>
                </Topology>
                <Time Value="2.0"/>
                <Attribute Name="flags" AttributeType="Scalar" Center="Cell">
                    <DataItem Dimensions="2" NumberType="UInt" Format="XML" Precision="8">7 8</DataItem>
                </Attribute>
            </Grid>
        </Grid>
        <DataItem Name="coords" Dimensions="3 3" NumberType="Float" Format="XML" Precision="8">0.0000000000000000e0 0.0000000000000000e0 0.0000000000000000e0 1.0000000000000000e0 0.0000000000000000e0 0.0000000000000000e0 0.0000000000000000e0 1.0000000000000000e0 0.0000000000000000e0</DataItem>
        <DataItem Name="connectivity" Dimensions="8" NumberType="UInt" Format="XML" Precision="8">2 2 0 1 4 0 2 1</DataItem>
    </Domain>
    <Information Name="data_storage" Value="AsciiInline"/>
    <Information Name="version" Value="0.1.0"/>
</Xdmf>"#;

    assert_eq!(text, expected);
}

#[test]
fn hierarchical_tree_grid() {
    let xdmf = Xdmf::new(Domain::new(Grid::new_tree(
        "hierarchical_tree_grid",
        Some(vec![
            Grid::new_tree(
                "grid_level_1",
                Some(vec![
                    Grid::new_uniform(
                        "sub_grid_1",
                        Geometry {
                            geometry_type: GeometryType::XYZ,
                            data_item: DataItem {
                                dimensions: Some(Dimensions(vec![5, 3])),
                                data: raw("0 1 0 0 1.5 0 0.5 1.5 0.5 1 1.5 0 1 1 0"),
                                number_type: Some(NumberType::Float),
                                ..Default::default()
                            },
                        },
                        Topology {
                            topology_type: TopologyType::Triangle,
                            number_of_elements: "2".to_string(),
                            data_item: DataItem {
                                dimensions: Some(Dimensions(vec![6])),
                                number_type: Some(NumberType::Int),
                                data: raw("0 1 2 2 3 4"),
                                ..Default::default()
                            },
                        },
                    ),
                    Grid::new_uniform(
                        "sub_grid_2",
                        Geometry {
                            geometry_type: GeometryType::XYZ,
                            data_item: DataItem {
                                dimensions: Some(Dimensions(vec![6, 3])),
                                data: raw("1 1.5 0 1 1 0 1 0 0 1.3 1.5 0 1.3 1 0 1.3 0 0"),
                                number_type: Some(NumberType::Float),
                                ..Default::default()
                            },
                        },
                        Topology {
                            topology_type: TopologyType::Quadrilateral,
                            number_of_elements: "2".to_string(),
                            data_item: DataItem {
                                dimensions: Some(Dimensions(vec![8])),
                                number_type: Some(NumberType::Int),
                                data: raw("0 1 4 3 1 2 5 4"),
                                ..Default::default()
                            },
                        },
                    ),
                ]),
            ),
            Grid::new_uniform(
                "Grid_1",
                Geometry {
                    geometry_type: GeometryType::XYZ,
                    data_item: DataItem {
                        dimensions: Some(Dimensions(vec![5, 3])),
                        data: raw("0 0 0 0 1 0 1 1 0 1 0 0 0.5 1.5 0.5"),
                        number_type: Some(NumberType::Float),
                        ..Default::default()
                    },
                },
                Topology {
                    topology_type: TopologyType::Mixed,
                    number_of_elements: "2".to_string(),
                    data_item: DataItem {
                        dimensions: Some(Dimensions(vec![9])),
                        number_type: Some(NumberType::Int),
                        data: raw("5 0 1 2 3 4 1 2 4"),
                        ..Default::default()
                    },
                },
            ),
        ]),
    )));

    let expected_xdmf = r#"<Xdmf Version="2.0" xmlns:xi="http://www.w3.org/2001/XInclude">
    <Domain>
        <Grid Name="hierarchical_tree_grid" GridType="Tree">
            <Grid Name="grid_level_1" GridType="Tree">
                <Grid Name="sub_grid_1" GridType="Uniform">
                    <Geometry GeometryType="XYZ">
                        <DataItem Dimensions="5 3" NumberType="Float" Format="XML" Precision="4">0 1 0 0 1.5 0 0.5 1.5 0.5 1 1.5 0 1 1 0</DataItem>
                    </Geometry>
                    <Topology TopologyType="Triangle" NumberOfElements="2">
                        <DataItem Dimensions="6" NumberType="Int" Format="XML" Precision="4">0 1 2 2 3 4</DataItem>
                    </Topology>
                </Grid>
                <Grid Name="sub_grid_2" GridType="Uniform">
                    <Geometry GeometryType="XYZ">
                        <DataItem Dimensions="6 3" NumberType="Float" Format="XML" Precision="4">1 1.5 0 1 1 0 1 0 0 1.3 1.5 0 1.3 1 0 1.3 0 0</DataItem>
                    </Geometry>
                    <Topology TopologyType="Quadrilateral" NumberOfElements="2">
                        <DataItem Dimensions="8" NumberType="Int" Format="XML" Precision="4">0 1 4 3 1 2 5 4</DataItem>
                    </Topology>
                </Grid>
            </Grid>
            <Grid Name="Grid_1" GridType="Uniform">
                <Geometry GeometryType="XYZ">
                    <DataItem Dimensions="5 3" NumberType="Float" Format="XML" Precision="4">0 0 0 0 1 0 1 1 0 1 0 0 0.5 1.5 0.5</DataItem>
                </Geometry>
                <Topology TopologyType="Mixed" NumberOfElements="2">
                    <DataItem Dimensions="9" NumberType="Int" Format="XML" Precision="4">5 0 1 2 3 4 1 2 4</DataItem>
                </Topology>
            </Grid>
        </Grid>
    </Domain>
</Xdmf>"#;

    assert_eq!(xdmf.write_to(), expected_xdmf);
}
