use xdmf::xdmf_elements::attribute::{Attribute, AttributeType, Center};
use xdmf::xdmf_elements::data_item::{DataContent, DataItem, Format, NumberType, XInclude};
use xdmf::xdmf_elements::dimensions::Dimensions;
use xdmf::xdmf_elements::geometry::{Geometry, GeometryType};
use xdmf::xdmf_elements::grid::{CollectionType, Grid, GridType, Time};
use xdmf::xdmf_elements::topology::{Topology, TopologyType};
use xdmf::xdmf_elements::{Domain, Information, Xdmf};

fn raw(s: &str) -> DataContent {
    DataContent::Raw(s.to_string())
}

fn raw_text(c: &DataContent) -> String {
    match c {
        DataContent::Raw(s) => s.clone(),
        DataContent::Include(_) => panic!("expected raw content"),
    }
}

#[test]
fn xdmf_new() {
    let domain = Domain::default();
    let xdmf = Xdmf::new(domain);

    assert_eq!(xdmf.version, "2.0");
    assert_eq!(xdmf.domains.len(), 1);
}

#[test]
fn xdmf_new_with_information() {
    let mut xdmf = Xdmf::default();
    xdmf.information = vec![Information::new("the_name", "some_value")];

    assert_eq!(xdmf.version, "2.0");
    assert_eq!(xdmf.domains.len(), 1);
    assert_eq!(xdmf.information.len(), 1);
    assert_eq!(xdmf.information[0].name, "the_name");
    assert_eq!(xdmf.information[0].value, "some_value");
}

#[test]
fn xdmf_default() {
    let xdmf = Xdmf::default();

    assert_eq!(xdmf.version, "2.0");
    assert_eq!(xdmf.domains.len(), 1);
}

#[test]
fn xdmf_serialization() {
    let xdmf = Xdmf::default();

    assert_eq!(
        xdmf.to_xml(),
        "<Xdmf Version=\"2.0\" xmlns:xi=\"http://www.w3.org/2001/XInclude\"><Domain/></Xdmf>"
    );
}

#[test]
fn domain_new() {
    let grid = Grid::new_uniform(
        "test_grid",
        Geometry {
            geometry_type: GeometryType::XYZ,
            data_item: DataItem {
                dimensions: Some(Dimensions(vec![3])),
                data: raw("1.0 2.0 3.0"),
                number_type: Some(NumberType::Float),
                ..Default::default()
            },
        },
        Topology {
            topology_type: TopologyType::Triangle,
            number_of_elements: "1".to_string(),
            data_item: DataItem {
                dimensions: Some(Dimensions(vec![3])),
                number_type: Some(NumberType::Int),
                data: raw("0 1 2"),
                ..Default::default()
            },
        },
    );
    let domain = Domain::new(grid);

    assert_eq!(domain.grids.len(), 1);
    assert!(domain.data_items.is_empty());
}

#[test]
fn domain_default() {
    let mut domain = Domain::default();
    assert!(domain.grids.is_empty());
    assert!(domain.data_items.is_empty());

    domain.data_items.push(DataItem::default());
    assert_eq!(domain.data_items.len(), 1);
}

#[test]
fn domain_serialization() {
    let domain = Domain::default();
    assert_eq!(domain.to_xml(), "<Domain/>");
}

#[test]
fn attribute_default() {
    let attribute = Attribute::default();
    assert_eq!(attribute.name, "");
    assert_eq!(attribute.attribute_type, AttributeType::Scalar);
    assert_eq!(attribute.center, Center::Node);
}

#[test]
fn attribute_serialization() {
    let attribute = Attribute {
        name: String::from("Temperature"),
        attribute_type: AttributeType::Scalar,
        center: Center::Cell,
        data_items: vec![DataItem::default(), DataItem::default()],
    };

    assert_eq!(
        attribute.to_xml(),
        "<Attribute Name=\"Temperature\" AttributeType=\"Scalar\" Center=\"Cell\">\
            <DataItem Dimensions=\"1\" NumberType=\"Float\" Format=\"XML\" Precision=\"4\"/>\
            <DataItem Dimensions=\"1\" NumberType=\"Float\" Format=\"XML\" Precision=\"4\"/>\
        </Attribute>"
    );
}

#[test]
fn attribute_type_default() {
    assert_eq!(AttributeType::default(), AttributeType::Scalar);
}

#[test]
fn center_default() {
    assert_eq!(Center::default(), Center::Node);
}

#[test]
fn data_item_default() {
    let default_item = DataItem::default();
    assert!(default_item.name.is_none());
    assert_eq!(default_item.dimensions, Some(Dimensions(vec![1])));
    assert_eq!(default_item.number_type, Some(NumberType::Float));
    assert_eq!(default_item.format, Some(Format::XML));
    assert_eq!(default_item.precision, Some(4));
    assert_eq!(raw_text(&default_item.data), "");
    assert!(default_item.reference.is_none());
}

#[test]
fn number_type_default() {
    assert_eq!(NumberType::default(), NumberType::Float);
}

#[test]
fn format_default() {
    assert_eq!(Format::default(), Format::XML);
}

#[test]
fn data_item_custom() {
    let custom_item = DataItem {
        name: Some("custom_data_item".to_string()),
        dimensions: Some(Dimensions(vec![2, 3])),
        number_type: Some(NumberType::Int),
        format: Some(Format::HDF),
        precision: Some(8),
        data: raw("custom_data"),
        reference: None,
    };
    assert_eq!(custom_item.name, Some("custom_data_item".to_string()));
    assert_eq!(custom_item.dimensions, Some(Dimensions(vec![2, 3])));
    assert_eq!(custom_item.number_type, Some(NumberType::Int));
    assert_eq!(custom_item.format, Some(Format::HDF));
    assert_eq!(custom_item.precision, Some(8));
    assert_eq!(raw_text(&custom_item.data), "custom_data");
    assert!(custom_item.reference.is_none());
}

#[test]
fn data_item_reference() {
    let source_data_item = DataItem {
        name: Some("source_data_item".to_string()),
        ..Default::default()
    };

    let ref_item = DataItem::new_reference(&source_data_item, "/Xdmf/Domain/DataItem");

    assert!(ref_item.name.is_none());
    assert!(ref_item.dimensions.is_none());
    assert!(ref_item.number_type.is_none());
    assert!(ref_item.format.is_none());
    assert!(ref_item.precision.is_none());
    assert_eq!(
        raw_text(&ref_item.data),
        "/Xdmf/Domain/DataItem[@Name=\"source_data_item\"]"
    );
    assert_eq!(ref_item.reference, Some("XML".to_string()));
}

#[test]
fn data_item_serialize() {
    let data_item = DataItem {
        name: Some("custom_data_item".to_string()),
        dimensions: Some(Dimensions(vec![2, 3])),
        number_type: Some(NumberType::Int),
        format: Some(Format::HDF),
        precision: Some(8),
        data: raw("custom_data"),
        reference: None,
    };

    assert_eq!(
        data_item.to_xml(),
        "<DataItem Name=\"custom_data_item\" Dimensions=\"2 3\" NumberType=\"Int\" Format=\"HDF\" Precision=\"8\">custom_data</DataItem>"
    );
}

#[test]
fn data_item_reference_serialize() {
    let source_data_item = DataItem {
        name: Some("source_data_item".to_string()),
        ..Default::default()
    };

    let ref_item = DataItem::new_reference(&source_data_item, "/Xdmf/Domain/DataItem");

    assert_eq!(
        ref_item.to_xml(),
        "<DataItem Reference=\"XML\">/Xdmf/Domain/DataItem[@Name=\"source_data_item\"]</DataItem>"
    );
}

#[test]
fn data_item_include_serialize() {
    let custom_item = DataItem {
        name: Some("custom_data_item".to_string()),
        dimensions: Some(Dimensions(vec![2, 3])),
        number_type: Some(NumberType::Int),
        format: Some(Format::HDF),
        precision: Some(8),
        data: DataContent::Include(XInclude::new("coords.txt", true)),
        reference: None,
    };
    assert_eq!(custom_item.name, Some("custom_data_item".to_string()));
    assert_eq!(custom_item.dimensions, Some(Dimensions(vec![2, 3])));
    assert_eq!(custom_item.number_type, Some(NumberType::Int));
    assert_eq!(custom_item.format, Some(Format::HDF));
    assert_eq!(custom_item.precision, Some(8));
    match &custom_item.data {
        DataContent::Include(x) => {
            assert_eq!(x.file_path, "coords.txt");
            assert_eq!(x.parse, Some("text".to_string()));
        }
        DataContent::Raw(_) => panic!("expected an inclusion"),
    }
    assert!(custom_item.reference.is_none());

    assert_eq!(
        custom_item.to_xml(),
        "<DataItem Name=\"custom_data_item\" Dimensions=\"2 3\" NumberType=\"Int\" Format=\"HDF\" Precision=\"8\">\
            <xi:include href=\"coords.txt\" parse=\"text\"/>\
        </DataItem>"
    );
}

#[test]
fn xinclude_serialize() {
    assert_eq!(
        XInclude::new("coords.txt", false).to_xml(),
        "<xi:include href=\"coords.txt\"/>"
    );
    assert_eq!(
        XInclude::new("coords.txt", true).to_xml(),
        "<xi:include href=\"coords.txt\" parse=\"text\"/>"
    );
}

#[test]
fn dimensions_serialize() {
    let dimensions = Dimensions(vec![2, 3, 4]);
    assert_eq!(
        format!("<XmlRoot>{}</XmlRoot>", dimensions.to_text()),
        "<XmlRoot>2 3 4</XmlRoot>"
    );
}

#[test]
fn dimensions_compare() {
    let dimensions1 = Dimensions(vec![2, 3, 4]);
    let dimensions2 = Dimensions(vec![2, 3, 4]);
    let dimensions3 = Dimensions(vec![1, 2, 3]);

    assert_eq!(dimensions1, dimensions2);
    assert_ne!(dimensions1, dimensions3);
}

#[test]
fn dimensions_roundtrip() {
    let original = Dimensions(vec![2, 3, 4]);

    let text = original.to_text();
    assert_eq!(format!("<XmlRoot>{text}</XmlRoot>"), "<XmlRoot>2 3 4</XmlRoot>");

    let deserialized = Dimensions::from_text(&text).unwrap();
    assert_eq!(deserialized, original);
    assert_eq!(deserialized.0, vec![2, 3, 4]);
}

#[test]
fn dimensions_deserialize_single_value() {
    let deserialized = Dimensions::from_text("42").unwrap();
    assert_eq!(deserialized.0, vec![42]);
}

#[test]
fn dimensions_deserialize_multiple_values() {
    let deserialized = Dimensions::from_text("10 20 30 40").unwrap();
    assert_eq!(deserialized.0, vec![10, 20, 30, 40]);
}

#[test]
fn dimensions_reject_junk() {
    assert!(Dimensions::from_text("2 x 4").is_none());
    assert!(Dimensions::from_text("-3").is_none());
}

#[test]
fn geometry_type_default() {
    assert_eq!(GeometryType::default(), GeometryType::XYZ);
}

#[test]
fn geometry_serialization() {
    let geometry = Geometry {
        geometry_type: GeometryType::XY,
        data_item: DataItem::default(),
    };

    assert_eq!(
        geometry.to_xml(),
        "<Geometry GeometryType=\"XY\"><DataItem Dimensions=\"1\" NumberType=\"Float\" Format=\"XML\" Precision=\"4\"/></Geometry>"
    );
}

#[test]
fn grid_new_uniform() {
    let grid = Grid::new_uniform("test", dummy_geometry(), dummy_topology());
    assert_eq!(grid.name, "test");
    assert_eq!(grid.grid_type, GridType::Uniform);
    assert!(grid.geometry.is_some());
    assert!(grid.topology.is_some());
    assert!(grid.grids.is_none());
    assert!(grid.time.is_none());
    assert!(grid.attributes.is_none());
}

fn dummy_geometry() -> Geometry {
    Geometry {
        geometry_type: GeometryType::XYZ,
        data_item: DataItem {
            dimensions: Some(Dimensions(vec![5, 3])),
            data: raw("0 1 0 0 1.5 0 0.5 1.5 0.5 1 1.5 0 1 1 0"),
            number_type: Some(NumberType::Float),
            ..Default::default()
        },
    }
}

fn dummy_topology() -> Topology {
    Topology {
        topology_type: TopologyType::Triangle,
        number_of_elements: "2".to_string(),
        data_item: DataItem {
            dimensions: Some(Dimensions(vec![6])),
            number_type: Some(NumberType::Int),
            data: raw("0 1 2 2 3 4"),
            ..Default::default()
        },
    }
}

fn dummy_attribute() -> Attribute {
    Attribute {
        name: String::from("Temperature"),
        attribute_type: AttributeType::Scalar,
        center: Center::Cell,
        data_items: vec![DataItem {
            dimensions: Some(Dimensions(vec![2])),
            data: raw("2 3"),
            number_type: Some(NumberType::Float),
            ..Default::default()
        }],
    }
}

#[test]
fn grid_new_collection() {
    let subgrid = Grid::new_uniform("sub", dummy_geometry(), dummy_topology());
    let grid = Grid::new_collection("coll", CollectionType::Spatial, Some(vec![subgrid]));
    assert_eq!(grid.name, "coll");
    assert_eq!(grid.grid_type, GridType::Collection);
    assert_eq!(grid.collection_type, Some(CollectionType::Spatial));
    assert!(grid.grids.is_some());
    assert_eq!(grid.grids.as_ref().unwrap().len(), 1);
    assert!(grid.geometry.is_none());
    assert!(grid.topology.is_none());
    assert!(grid.time.is_none());
    assert!(grid.attributes.is_none());
}

#[test]
fn grid_new_tree() {
    let subgrid = Grid::new_uniform("sub", dummy_geometry(), dummy_topology());
    let grid = Grid::new_tree("tree", Some(vec![subgrid]));
    assert_eq!(grid.name, "tree");
    assert_eq!(grid.grid_type, GridType::Tree);
    assert!(grid.grids.is_some());
    assert_eq!(grid.grids.as_ref().unwrap().len(), 1);
    assert!(grid.geometry.is_none());
    assert!(grid.topology.is_none());
    assert!(grid.time.is_none());
    assert!(grid.attributes.is_none());
}

#[test]
fn time_new() {
    let time = Time::new("42");
    assert_eq!(time.value, "42");
    let time_str = Time::new("2024-06-01");
    assert_eq!(time_str.value, "2024-06-01");
}

#[test]
fn time_serialization() {
    let time = Time::new("2024-06-01");
    assert_eq!(time.to_xml(), "<Time Value=\"2024-06-01\"/>");
}

#[test]
fn grid_serialization() {
    let geometry = dummy_geometry();
    let topology = dummy_topology();
    let mut grid = Grid::new_uniform("serialize", geometry, topology);
    grid.time = Some(Time::new("1.23"));
    grid.attributes = Some(vec![dummy_attribute()]);

    assert_eq!(
        grid.to_xml(),
        "<Grid Name=\"serialize\" GridType=\"Uniform\">\
            <Geometry GeometryType=\"XYZ\">\
                <DataItem Dimensions=\"5 3\" NumberType=\"Float\" Format=\"XML\" Precision=\"4\">0 1 0 0 1.5 0 0.5 1.5 0.5 1 1.5 0 1 1 0</DataItem>\
            </Geometry>\
            <Topology TopologyType=\"Triangle\" NumberOfElements=\"2\">\
                <DataItem Dimensions=\"6\" NumberType=\"Int\" Format=\"XML\" Precision=\"4\">0 1 2 2 3 4</DataItem>\
            </Topology>\
            <Time Value=\"1.23\"/>\
            <Attribute Name=\"Temperature\" AttributeType=\"Scalar\" Center=\"Cell\">\
                <DataItem Dimensions=\"2\" NumberType=\"Float\" Format=\"XML\" Precision=\"4\">2 3</DataItem>\
            </Attribute>\
        </Grid>"
    );
}

#[test]
fn gridtype_default() {
    assert_eq!(GridType::default(), GridType::Uniform);
}

#[test]
fn collectiontype_default() {
    assert_eq!(CollectionType::default(), CollectionType::Spatial);
}

#[test]
fn topology_serialization() {
    let topology = Topology {
        topology_type: TopologyType::Triangle,
        number_of_elements: "3".to_string(),
        data_item: DataItem::default(),
    };

    assert_eq!(
        topology.to_xml(),
        "<Topology TopologyType=\"Triangle\" NumberOfElements=\"3\"><DataItem Dimensions=\"1\" NumberType=\"Float\" Format=\"XML\" Precision=\"4\"/></Topology>"
    );
}
