//! The stateful time-series writing pipeline: input validation, the
//! mixed-topology connectivity encoder, and the two-phase orchestrator.
use vstd::prelude::*;

use crate::ascii_writer::{dec_nat, dec_u64};
use crate::persist::{FileOp, is_commit_plan, plan_commit};
use crate::text::{
    check_float_token, check_valid_name, is_float_token, is_valid_name, last_index_of,
    spec_parent, spec_with_extension, str_eq, with_extension,
};
use crate::values::Values;
use crate::{DataAttribute, DataEntry, DataMap, DataStorage, DataWriter, XdmfError, create_writer};
use crate::xdmf_elements::attribute::{Attribute, Center, items_xml};
use crate::xdmf_elements::data_item::{DataContent, DataItem, Format, NumberType};
use crate::xdmf_elements::dimensions::Dimensions;
use crate::xdmf_elements::geometry::{Geometry, GeometryType};
use crate::xdmf_elements::grid::{Grid, GridType, Time, grids_xml};
use crate::xdmf_elements::topology::{Topology, TopologyType};
use crate::xdmf_elements::{CellType, attr_text, sep, step_text};

verus! {

/// The number of connectivity entries the first `j` cell types consume.
pub open spec fn points_needed(types: Seq<CellType>, j: int) -> int
    decreases j,
{
    if j <= 0 {
        0
    } else {
        points_needed(types, j - 1) + types[j - 1].spec_num_points()
    }
}

/// Whether a cell type is one of the "poly" kinds that carry an explicit
/// point count in the encoded connectivity.
pub open spec fn spec_is_poly(t: CellType) -> bool {
    t == CellType::Vertex || t == CellType::Edge
}

/// How many of the first `j` cell types are "poly" kinds.
pub open spec fn poly_count(types: Seq<CellType>, j: int) -> int
    decreases j,
{
    if j <= 0 {
        0
    } else {
        poly_count(types, j - 1) + (if spec_is_poly(types[j - 1]) {
            1int
        } else {
            0int
        })
    }
}

/// The explicit point count a "poly" cell type carries: one point for a
/// polyvertex, two for a polyline.
pub fn poly_cell_points(cell_type: CellType) -> (r: Option<u64>)
    ensures
        cell_type == CellType::Vertex ==> r == Some(1u64),
        cell_type == CellType::Edge ==> r == Some(2u64),
        !spec_is_poly(cell_type) ==> r is None,
{
    match cell_type {
        CellType::Vertex => Some(1),
        CellType::Edge => Some(2),
        _ => None,
    }
}

/// The header of one encoded cell: its type tag, and for the "poly" kinds
/// the explicit point count.
pub open spec fn cell_header(t: CellType) -> Seq<u64> {
    if t == CellType::Vertex {
        seq![1u64, 1u64]
    } else if t == CellType::Edge {
        seq![2u64, 2u64]
    } else {
        seq![t.spec_tag()]
    }
}

/// The encoding of cell `k`: its header followed by its slice of the flat
/// connectivity array.
pub open spec fn encoded_cell(conn: Seq<u64>, types: Seq<CellType>, k: int) -> Seq<u64> {
    cell_header(types[k]) + conn.subrange(
        points_needed(types, k),
        points_needed(types, k) + types[k].spec_num_points(),
    )
}

/// The concatenated encoding of the first `j` cells.
pub open spec fn encode_prefix(conn: Seq<u64>, types: Seq<CellType>, j: int) -> Seq<u64>
    decreases j,
{
    if j <= 0 {
        Seq::empty()
    } else {
        encode_prefix(conn, types, j - 1) + encoded_cell(conn, types, j - 1)
    }
}

/// The mixed-topology encoding of a mesh: each cell as its type tag, an
/// explicit point count for the "poly" kinds, then its point indices, all
/// concatenated in input order.
pub open spec fn encode_cells(conn: Seq<u64>, types: Seq<CellType>) -> Seq<u64> {
    encode_prefix(conn, types, types.len() as int)
}

/// The entry count the first `j` cell types consume never decreases and
/// never exceeds the whole.
proof fn lemma_points_needed_monotone(types: Seq<CellType>, j: int, k: int)
    requires
        0 <= j <= k <= types.len(),
    ensures
        points_needed(types, j) <= points_needed(types, k),
        0 <= points_needed(types, j),
    decreases k - j, j,
{
    if j > 0 && j == k {
        lemma_points_needed_monotone(types, j - 1, j - 1);
        assert(types[j - 1].spec_num_points() >= 1);
    }
    if j < k {
        lemma_points_needed_monotone(types, j, k - 1);
        lemma_points_needed_monotone(types, k - 1, k - 1);
        assert(types[k - 1].spec_num_points() >= 1);
    }
}

/// The size invariant of the connectivity encoding: when the connectivity
/// length matches what the cell types consume, the encoded array holds one
/// entry per connectivity entry, plus one type tag per cell, plus one
/// explicit count per "poly" cell.
pub proof fn lemma_encoding_size(conn: Seq<u64>, types: Seq<CellType>)
    requires
        points_needed(types, types.len() as int) == conn.len(),
    ensures
        encode_cells(conn, types).len() == conn.len() + types.len() + poly_count(
            types,
            types.len() as int,
        ),
{
    lemma_encode_prefix_size(conn, types, types.len() as int);
}

proof fn lemma_encode_prefix_size(conn: Seq<u64>, types: Seq<CellType>, j: int)
    requires
        0 <= j <= types.len(),
        points_needed(types, types.len() as int) <= conn.len(),
    ensures
        encode_prefix(conn, types, j).len() == points_needed(types, j) + j + poly_count(types, j),
    decreases j,
{
    if j > 0 {
        lemma_encode_prefix_size(conn, types, j - 1);
        lemma_points_needed_monotone(types, j - 1, j - 1);
        lemma_points_needed_monotone(types, j, types.len() as int);
        lemma_points_needed_monotone(types, j - 1, j);
        assert(points_needed(types, j) == points_needed(types, j - 1) + types[j
            - 1].spec_num_points());
        assert(encoded_cell(conn, types, j - 1).len() == cell_header(types[j - 1]).len() + types[j
            - 1].spec_num_points());
    }
}

/// Encode the mesh connectivity in the mixed-topology form: each cell's
/// type tag, for the "poly" kinds its explicit point count, then its point
/// indices, concatenated in input order.
pub fn prepare_cells(cells: (&Vec<u64>, &Vec<CellType>)) -> (r: Vec<u64>)
    requires
        points_needed(cells.1@, cells.1@.len() as int) == cells.0@.len(),
    ensures
        r@ == encode_cells(cells.0@, cells.1@),
{
    let (conn, types) = cells;
    let conn_len = conn.len();
    let mut out: Vec<u64> = Vec::new();
    let mut index: usize = 0;
    let mut j: usize = 0;
    proof {
        assert(out@ =~= encode_prefix(conn@, types@, 0));
    }
    while j < types.len()
        invariant
            j <= types@.len(),
            conn_len == conn@.len(),
            points_needed(types@, types@.len() as int) == conn@.len(),
            index == points_needed(types@, j as int),
            out@ == encode_prefix(conn@, types@, j as int),
        decreases types@.len() - j,
    {
        let cell_type = types[j];
        let num_points = cell_type.num_points();
        proof {
            lemma_points_needed_monotone(types@, j as int, j as int);
            lemma_points_needed_monotone(types@, j + 1, types@.len() as int);
            assert(points_needed(types@, j + 1) == points_needed(types@, j as int)
                + types@[j as int].spec_num_points());
            assert(index + num_points <= conn_len);
        }
        out.push(cell_type.tag());
        match poly_cell_points(cell_type) {
            Some(n_points_poly) => {
                out.push(n_points_poly);
            },
            None => (),
        }
        proof {
            assert(out@ =~= encode_prefix(conn@, types@, j as int) + cell_header(types@[j as int]));
        }
        let mut k: usize = 0;
        while k < num_points
            invariant
                k <= num_points,
                num_points == types@[j as int].spec_num_points(),
                j < types@.len(),
                conn_len == conn@.len(),
                index == points_needed(types@, j as int),
                index + num_points <= conn_len,
                out@ == encode_prefix(conn@, types@, j as int) + cell_header(types@[j as int])
                    + conn@.subrange(index as int, index + k),
            decreases num_points - k,
        {
            out.push(conn[index + k]);
            k += 1;
            proof {
                assert(conn@.subrange(index as int, index + k) =~= conn@.subrange(
                    index as int,
                    index + k - 1,
                ).push(conn@[index + k - 1]));
                assert(out@ =~= encode_prefix(conn@, types@, j as int) + cell_header(
                    types@[j as int],
                ) + conn@.subrange(index as int, index + k));
            }
        }
        index += num_points;
        j += 1;
        proof {
            assert(out@ =~= encode_prefix(conn@, types@, j as int));
        }
    }
    proof {
        assert(out@ =~= encode_cells(conn@, types@));
    }
    out
}

/// The largest connectivity index, or `None` for an empty array.
pub open spec fn seq_max(s: Seq<u64>) -> Option<u64>
    decreases s.len(),
{
    if s.len() == 0 {
        None
    } else {
        match seq_max(s.drop_last()) {
            None => Some(s.last()),
            Some(m) => if s.last() >= m {
                Some(s.last())
            } else {
                Some(m)
            },
        }
    }
}

fn max_of(s: &Vec<u64>) -> (r: Option<u64>)
    ensures
        r == seq_max(s@),
{
    let mut r: Option<u64> = None;
    let mut i: usize = 0;
    proof {
        assert(s@.take(0) =~= Seq::<u64>::empty());
    }
    while i < s.len()
        invariant
            i <= s@.len(),
            r == seq_max(s@.take(i as int)),
        decreases s@.len() - i,
    {
        let x = s[i];
        r = match r {
            None => Some(x),
            Some(m) => if x >= m {
                Some(x)
            } else {
                Some(m)
            },
        };
        i += 1;
        proof {
            assert(s@.take(i as int).drop_last() =~= s@.take(i - 1));
            assert(s@.take(i as int).last() == s@[i - 1]);
        }
    }
    proof {
        assert(s@.take(s@.len() as int) =~= s@);
    }
    r
}

/// The rejection message for an empty point array.
pub open spec fn msg_points_empty() -> Seq<char> {
    "At least one point is required"@
}

/// The rejection message for a point count that is not a multiple of 3.
pub open spec fn msg_points_not_3d() -> Seq<char> {
    "Points must have 3 dimensions"@
}

/// The rejection message for an out-of-bounds connectivity index.
pub open spec fn msg_conn_out_of_bounds(max_index: u64, num_points: int) -> Seq<char> {
    "Connectivity indices out of bounds for the given points, max index: "@ + dec_nat(
        max_index as nat,
    ) + ", but number of points is "@ + dec_nat(num_points as nat)
}

/// The rejection message for a connectivity length that does not match the
/// cell types.
pub open spec fn msg_conn_mismatch(conn_len: int, expected: int) -> Seq<char> {
    "Size of connectivities not match the expected number based on the cell types: "@ + dec_nat(
        conn_len as nat,
    ) + " != "@ + dec_nat(expected as nat)
}

/// Whether a mesh passes structural validation: at least one point, three
/// coordinates per point, every connectivity index within the point count,
/// and the connectivity length matching what the cell types consume.
pub open spec fn mesh_valid(points: Seq<String>, conn: Seq<u64>, types: Seq<CellType>) -> bool {
    &&& points.len() > 0
    &&& points.len() % 3 == 0
    &&& (match seq_max(conn) {
        Some(m) => (m as int) < points.len() / 3,
        None => true,
    })
    &&& points_needed(types, types.len() as int) == conn.len()
}

/// Validate a mesh: points non-empty and a multiple of 3 (one coordinate
/// triple per point), every connectivity index within the point count, and
/// the connectivity length matching the sum of the per-cell-type point
/// counts. The first violation found is reported; nothing else happens.
pub fn validate_points_and_cells(
    points: &Vec<String>,
    cells: (&Vec<u64>, &Vec<CellType>),
) -> (r: Result<(), XdmfError>)
    ensures
        r is Ok <==> mesh_valid(points@, cells.0@, cells.1@),
        r matches Err(e) ==> e is InvalidInput,
        points@.len() == 0 ==> (r matches Err(e) && e.spec_message() == msg_points_empty()),
        points@.len() > 0 && points@.len() % 3 != 0 ==> (r matches Err(e) && e.spec_message()
            == msg_points_not_3d()),
        points@.len() > 0 && points@.len() % 3 == 0 && (seq_max(cells.0@) matches Some(m) && m
            >= points@.len() / 3) ==> (r matches Err(e) && e.spec_message()
            == msg_conn_out_of_bounds(seq_max(cells.0@)->0, points@.len() as int / 3)),
        points@.len() > 0 && points@.len() % 3 == 0 && (match seq_max(cells.0@) {
            Some(m) => (m as int) < points@.len() / 3,
            None => true,
        }) && points_needed(cells.1@, cells.1@.len() as int) != cells.0@.len() ==> (r matches Err(e)
            && e.spec_message() == msg_conn_mismatch(
            cells.0@.len() as int,
            points_needed(cells.1@, cells.1@.len() as int),
        )),
{
    let (conn, types) = cells;
    if points.len() == 0 {
        return Err(XdmfError::InvalidInput("At least one point is required".to_owned()));
    }
    if points.len() % 3 != 0 {
        return Err(XdmfError::InvalidInput("Points must have 3 dimensions".to_owned()));
    }
    let num_points = points.len() / 3;
    match max_of(conn) {
        Some(max_index) => {
            if max_index >= num_points as u64 {
                let mut m: String = ic1().to_owned();
                let d1 = crate::ascii_writer::dec_u64(max_index);
                m.append(d1.as_str());
                m.append(", but number of points is ");
                let d2 = crate::ascii_writer::dec_u64(num_points as u64);
                m.append(d2.as_str());
                proof {
                    assert(m@ =~= msg_conn_out_of_bounds(max_index, num_points as int));
                }
                return Err(XdmfError::InvalidInput(m));
            }
        },
        None => (),
    }
    let expected = points_needed_exec(types);
    if expected != conn.len() as u128 {
        let mut m: String =
            "Size of connectivities not match the expected number based on the cell types: ".to_owned();
        let d1 = crate::ascii_writer::dec_u64(conn.len() as u64);
        m.append(d1.as_str());
        m.append(" != ");
        let d2 = crate::ascii_writer::dec_u128(expected);
        m.append(d2.as_str());
        proof {
            assert(m@ =~= msg_conn_mismatch(
                conn@.len() as int,
                points_needed(types@, types@.len() as int),
            ));
        }
        return Err(XdmfError::InvalidInput(m));
    }
    Ok(())
}

/// The leading text of the out-of-bounds message.
fn ic1() -> (r: &'static str)
    ensures
        r@ == "Connectivity indices out of bounds for the given points, max index: "@,
{
    "Connectivity indices out of bounds for the given points, max index: "
}

/// Sum the per-cell-type point counts; the sum of at most `usize::MAX`
/// counts of at most 27 each fits comfortably in 128 bits.
fn points_needed_exec(types: &Vec<CellType>) -> (r: u128)
    ensures
        r == points_needed(types@, types@.len() as int),
{
    let mut total: u128 = 0;
    let mut j: usize = 0;
    while j < types.len()
        invariant
            j <= types@.len(),
            total == points_needed(types@, j as int),
            total <= 27 * (j as int),
        decreases types@.len() - j,
    {
        let np = types[j].num_points();
        total = total + np as u128;
        j += 1;
    }
    total
}


/// The rejection message for a time token that is not a finite number.
pub open spec fn msg_time_invalid(time: Seq<char>) -> Seq<char> {
    "Time must be a valid float, and not '"@ + time + seq!['\'']
}

/// The rejection message for a time token used twice.
pub open spec fn msg_time_duplicate(time: Seq<char>) -> Seq<char> {
    "Time step '"@ + time + "' has already been written"@
}

/// The rejection message for a time step carrying no data at all.
pub open spec fn msg_no_data() -> Seq<char> {
    "At least one of point_data or cell_data must be provided"@
}

/// The rejection message for a field whose value count does not fit its
/// shape: `label` is `point` or `cell`.
pub open spec fn msg_wrong_size(
    label: Seq<char>,
    name: Seq<char>,
    expected: int,
    got: int,
) -> Seq<char> {
    "Size of "@ + label + " data '"@ + name + "' must be "@ + dec_nat(expected as nat) + ", but is "@
        + dec_nat(got as nat)
}

/// The rejection message for an ill-formed attribute name.
pub open spec fn msg_bad_name(name: Seq<char>) -> Seq<char> {
    "Attribute name '"@ + name
        + "' must be non-empty and contain only ASCII letters, digits, '_' or '-'"@
}

/// The rejection message for an attribute name used more than once in one
/// map.
pub open spec fn msg_dup_name(name: Seq<char>) -> Seq<char> {
    "Attribute name '"@ + name + "' is used more than once"@
}

/// Whether the time tokens recorded so far contain the given one.
pub open spec fn times_contain(times: Seq<String>, t: Seq<char>) -> bool {
    exists|i: int| 0 <= i < times.len() && times[i]@ == t
}

/// The named fields of one optional data map, in order.
pub open spec fn entries_of(dm: Option<&DataMap>) -> Seq<DataEntry> {
    match dm {
        Some(m) => m@,
        None => Seq::empty(),
    }
}

/// Whether entry `i` has the right value count for `entities` entities.
pub open spec fn entry_size_ok(dm: Seq<DataEntry>, entities: int, i: int) -> bool {
    (dm[i].1).1.spec_len() == entities * (dm[i].1).0.spec_size()
}

/// The least entry index with a wrong value count, or the length if all
/// counts are right.
pub open spec fn first_wrong_size(dm: Seq<DataEntry>, entities: int, i: int) -> int
    decreases dm.len() - i,
{
    if i < 0 || i >= dm.len() {
        dm.len() as int
    } else if !entry_size_ok(dm, entities, i) {
        i
    } else {
        first_wrong_size(dm, entities, i + 1)
    }
}

/// The least entry index with an ill-formed name, or the length if all
/// names are well-formed.
pub open spec fn first_bad_name(dm: Seq<DataEntry>, i: int) -> int
    decreases dm.len() - i,
{
    if i < 0 || i >= dm.len() {
        dm.len() as int
    } else if !is_valid_name(dm[i].0@) {
        i
    } else {
        first_bad_name(dm, i + 1)
    }
}

/// Whether the entry at `i` repeats the name of an earlier entry.
pub open spec fn name_repeated_at(dm: Seq<DataEntry>, i: int) -> bool {
    exists|j: int| 0 <= j < i && dm[j].0@ == dm[i].0@
}

/// The least entry index whose name repeats an earlier one, or the length
/// if every name is used once.
pub open spec fn first_dup_name(dm: Seq<DataEntry>, i: int) -> int
    decreases dm.len() - i,
{
    if i < 0 || i >= dm.len() {
        dm.len() as int
    } else if name_repeated_at(dm, i) {
        i
    } else {
        first_dup_name(dm, i + 1)
    }
}

/// Whether every field of one map fits `entities` entities and carries a
/// well-formed name used by no other field of the map.
pub open spec fn data_map_ok(dm: Seq<DataEntry>, entities: int) -> bool {
    &&& first_wrong_size(dm, entities, 0) == dm.len()
    &&& first_bad_name(dm, 0) == dm.len()
    &&& first_dup_name(dm, 0) == dm.len()
}

/// The machine limits a time-step write relies on: every field's shape
/// size and expected value count fit the platform's size type.
pub open spec fn data_map_sizes_fit(dm: Seq<DataEntry>, entities: int) -> bool {
    forall|i: int|
        0 <= i < dm.len() ==> ((#[trigger] dm[i]).1).0.spec_size() <= usize::MAX && entities
            * (dm[i].1).0.spec_size() <= usize::MAX
}

/// Whether a time-step write passes validation: a finite, unused time
/// token, at least one field, and every field sized to its shape under a
/// well-formed name used once per map.
pub open spec fn data_valid(
    times: Seq<String>,
    time: Seq<char>,
    pd: Seq<DataEntry>,
    cd: Seq<DataEntry>,
    num_points: int,
    num_cells: int,
) -> bool {
    &&& is_float_token(time)
    &&& !times_contain(times, time)
    &&& pd.len() + cd.len() > 0
    &&& data_map_ok(pd, num_points)
    &&& data_map_ok(cd, num_cells)
}

proof fn lemma_first_wrong_size_props(dm: Seq<DataEntry>, entities: int, i: int)
    requires
        0 <= i <= dm.len(),
    ensures
        i <= first_wrong_size(dm, entities, i) <= dm.len(),
        first_wrong_size(dm, entities, i) < dm.len() ==> !entry_size_ok(
            dm,
            entities,
            first_wrong_size(dm, entities, i),
        ),
        forall|j: int| i <= j < first_wrong_size(dm, entities, i) ==> entry_size_ok(dm, entities, j),
    decreases dm.len() - i,
{
    if i < dm.len() && entry_size_ok(dm, entities, i) {
        lemma_first_wrong_size_props(dm, entities, i + 1);
    }
}

proof fn lemma_first_bad_name_props(dm: Seq<DataEntry>, i: int)
    requires
        0 <= i <= dm.len(),
    ensures
        i <= first_bad_name(dm, i) <= dm.len(),
        first_bad_name(dm, i) < dm.len() ==> !is_valid_name(dm[first_bad_name(dm, i)].0@),
        forall|j: int| i <= j < first_bad_name(dm, i) ==> is_valid_name(dm[j].0@),
    decreases dm.len() - i,
{
    if i < dm.len() && is_valid_name(dm[i].0@) {
        lemma_first_bad_name_props(dm, i + 1);
    }
}

proof fn lemma_first_dup_name_props(dm: Seq<DataEntry>, i: int)
    requires
        0 <= i <= dm.len(),
    ensures
        i <= first_dup_name(dm, i) <= dm.len(),
        first_dup_name(dm, i) < dm.len() ==> name_repeated_at(dm, first_dup_name(dm, i)),
        forall|j: int| i <= j < first_dup_name(dm, i) ==> !name_repeated_at(dm, j),
    decreases dm.len() - i,
{
    if i < dm.len() && !name_repeated_at(dm, i) {
        lemma_first_dup_name_props(dm, i + 1);
    }
}

fn times_contain_exec(times: &Vec<String>, t: &str) -> (r: bool)
    ensures
        r == times_contain(times@, t@),
{
    let mut i: usize = 0;
    while i < times.len()
        invariant
            i <= times@.len(),
            forall|j: int| 0 <= j < i ==> times@[j]@ != t@,
        decreases times@.len() - i,
    {
        if str_eq(times[i].as_str(), t) {
            return true;
        }
        i += 1;
    }
    false
}

/// Check one data map: every field's value count must equal the entity
/// count times its shape size, and every name must be well-formed and
/// used once. The first wrongly sized field is reported first, then the
/// first bad name, then the first repeated name.
fn check_data_map(dm: &DataMap, entities: usize, label: &str) -> (r: Result<(), XdmfError>)
    requires
        data_map_sizes_fit(dm@, entities as int),
    ensures
        r is Ok <==> data_map_ok(dm@, entities as int),
        r matches Err(e) ==> e is InvalidInput,
        ({
            let fw = first_wrong_size(dm@, entities as int, 0);
            let fb = first_bad_name(dm@, 0);
            let fd = first_dup_name(dm@, 0);
            &&& fw < dm@.len() ==> (r matches Err(e) && e.spec_message() == msg_wrong_size(
                label@,
                dm@[fw].0@,
                entities as int * (dm@[fw].1).0.spec_size(),
                (dm@[fw].1).1.spec_len(),
            ))
            &&& fw == dm@.len() && fb < dm@.len() ==> (r matches Err(e) && e.spec_message()
                == msg_bad_name(dm@[fb].0@))
            &&& fw == dm@.len() && fb == dm@.len() && fd < dm@.len() ==> (r matches Err(e)
                && e.spec_message() == msg_dup_name(dm@[fd].0@))
        }),
{
    let n = dm.len();
    let mut i: usize = 0;
    proof {
        lemma_first_wrong_size_props(dm@, entities as int, 0);
    }
    while i < n
        invariant
            i <= n,
            n == dm@.len(),
            data_map_sizes_fit(dm@, entities as int),
            forall|j: int| 0 <= j < i ==> entry_size_ok(dm@, entities as int, j),
            first_wrong_size(dm@, entities as int, i as int) == first_wrong_size(
                dm@,
                entities as int,
                0,
            ),
        decreases n - i,
    {
        let entry = &dm[i];
        proof {
            assert((dm@[i as int].1).0.spec_size() <= usize::MAX && entities as int
                * (dm@[i as int].1).0.spec_size() <= usize::MAX);
        }
        let size = (entry.1).0.size();
        let exp_size = entities * size;
        let got = (entry.1).1.len();
        if got != exp_size {
            let mut m: String = "Size of ".to_owned();
            m.append(label);
            m.append(" data '");
            m.append(entry.0.as_str());
            m.append("' must be ");
            let d1 = crate::ascii_writer::dec_u64(exp_size as u64);
            m.append(d1.as_str());
            m.append(", but is ");
            let d2 = crate::ascii_writer::dec_u64(got as u64);
            m.append(d2.as_str());
            proof {
                assert(!entry_size_ok(dm@, entities as int, i as int));
                assert(first_wrong_size(dm@, entities as int, i as int) == i);
                assert(m@ =~= msg_wrong_size(
                    label@,
                    dm@[i as int].0@,
                    entities as int * (dm@[i as int].1).0.spec_size(),
                    (dm@[i as int].1).1.spec_len(),
                ));
            }
            return Err(XdmfError::InvalidInput(m));
        }
        i += 1;
    }
    proof {
        assert(first_wrong_size(dm@, entities as int, n as int) == n);
    }
    let mut i: usize = 0;
    proof {
        lemma_first_bad_name_props(dm@, 0);
    }
    while i < n
        invariant
            i <= n,
            n == dm@.len(),
            first_wrong_size(dm@, entities as int, 0) == n,
            forall|j: int| 0 <= j < i ==> is_valid_name(dm@[j].0@),
            first_bad_name(dm@, i as int) == first_bad_name(dm@, 0),
        decreases n - i,
    {
        let entry = &dm[i];
        if !check_valid_name(entry.0.as_str()) {
            let mut m: String = "Attribute name '".to_owned();
            m.append(entry.0.as_str());
            m.append("' must be non-empty and contain only ASCII letters, digits, '_' or '-'");
            proof {
                assert(first_bad_name(dm@, i as int) == i);
                assert(m@ =~= msg_bad_name(dm@[i as int].0@));
            }
            return Err(XdmfError::InvalidInput(m));
        }
        i += 1;
    }
    let mut i: usize = 0;
    proof {
        lemma_first_dup_name_props(dm@, 0);
    }
    while i < n
        invariant
            i <= n,
            n == dm@.len(),
            first_wrong_size(dm@, entities as int, 0) == n,
            first_bad_name(dm@, 0) == n,
            forall|j: int| 0 <= j < i ==> !name_repeated_at(dm@, j),
            first_dup_name(dm@, i as int) == first_dup_name(dm@, 0),
        decreases n - i,
    {
        let entry = &dm[i];
        if contains_name(dm, i, entry.0.as_str()) {
            let mut m: String = "Attribute name '".to_owned();
            m.append(entry.0.as_str());
            m.append("' is used more than once");
            proof {
                assert(name_repeated_at(dm@, i as int));
                assert(first_dup_name(dm@, i as int) == i);
                assert(m@ =~= msg_dup_name(dm@[i as int].0@));
            }
            return Err(XdmfError::InvalidInput(m));
        }
        i += 1;
    }
    Ok(())
}

/// Whether one of the first `n` entries carries the given name.
fn contains_name(dm: &DataMap, n: usize, name: &str) -> (r: bool)
    requires
        n <= dm@.len(),
    ensures
        r == exists|j: int| 0 <= j < n && dm@[j].0@ == name@,
{
    let mut j: usize = 0;
    while j < n
        invariant
            j <= n,
            n <= dm@.len(),
            forall|k: int| 0 <= k < j ==> dm@[k].0@ != name@,
        decreases n - j,
    {
        if str_eq(dm[j].0.as_str(), name) {
            return true;
        }
        j += 1;
    }
    false
}


/// Whether a path has a non-empty directory part.
pub open spec fn has_parent_dir(p: Seq<char>) -> bool {
    last_index_of(p, '/') >= 1
}

/// The `Value` text recorded for the chosen storage mode.
pub open spec fn spec_storage_value(s: DataStorage) -> Seq<char> {
    match s {
        DataStorage::Ascii => "Ascii"@,
        DataStorage::AsciiInline => "AsciiInline"@,
        DataStorage::Hdf5SingleFile => "Hdf5SingleFile"@,
        DataStorage::Hdf5MultipleFiles => "Hdf5MultipleFiles"@,
    }
}

fn storage_value(s: DataStorage) -> (r: &'static str)
    ensures
        r@ == spec_storage_value(s),
{
    match s {
        DataStorage::Ascii => "Ascii",
        DataStorage::AsciiInline => "AsciiInline",
        DataStorage::Hdf5SingleFile => "Hdf5SingleFile",
        DataStorage::Hdf5MultipleFiles => "Hdf5MultipleFiles",
    }
}

/// How many operations the backend's pre-commit flush plans.
pub open spec fn flush_count(w: DataWriter) -> int {
    if w matches DataWriter::Hdf5SingleFile(_) {
        1
    } else {
        0
    }
}

/// The pre-mesh state of the pipeline: the document path and the chosen
/// storage backend. Writing the mesh consumes this value and yields the
/// post-mesh state.
pub struct TimeSeriesWriter {
    /// The document path, with the `xdmf2` extension.
    pub xdmf_file_name: String,
    /// The storage backend.
    pub writer: DataWriter,
}

/// The post-mesh state of the pipeline: the document path, the backend,
/// the mesh pieces of the document, and one per-time-step grid per write,
/// in the order written.
pub struct TimeSeriesDataWriter {
    /// The document path, with the `xdmf2` extension.
    pub xdmf_file_name: String,
    /// The storage backend.
    pub writer: DataWriter,
    /// The uniform grid describing the mesh, referencing the shared data
    /// items; the document shows it alone until the first time step.
    pub mesh_grid: Grid,
    /// The shared coordinate and connectivity data items of the domain.
    pub data_items: Vec<DataItem>,
    /// One per-time-step grid per successful data write, in written order.
    pub steps: Vec<Grid>,
    /// The time tokens written so far, in written order.
    pub times: Vec<String>,
    /// The number of mesh points.
    pub num_points: usize,
    /// The number of mesh cells.
    pub num_cells: usize,
}

impl TimeSeriesWriter {
    /// Create a writer that will commit the document to `file_name` with
    /// its extension replaced by `xdmf2`, persisting heavy data through
    /// the chosen storage mode. The document's parent directory and the
    /// backend's own resource must be created before anything is written,
    /// so the returned plan must be executed first.
    pub fn new(file_name: &str, data_storage: DataStorage) -> (r: Result<
        (TimeSeriesWriter, Vec<FileOp>),
        XdmfError,
    >)
        ensures
            r is Ok <==> match data_storage {
                DataStorage::AsciiInline => true,
                DataStorage::Ascii => crate::text::spec_file_name(file_name@).len() > 0,
                DataStorage::Hdf5SingleFile => crate::spec_hdf5_enabled(),
                DataStorage::Hdf5MultipleFiles => crate::spec_hdf5_enabled(),
            },
            r matches Ok((w, ops)) ==> {
                let xdmf = spec_with_extension(file_name@, "xdmf2"@);
                let k: int = if has_parent_dir(xdmf) {
                    1int
                } else {
                    0int
                };
                &&& w.xdmf_file_name@ == xdmf
                &&& w.writer.spec_data_storage() == data_storage
                &&& has_parent_dir(xdmf) ==> (ops@[0] matches FileOp::CreateDirAll { path } && path@
                    == spec_parent(xdmf))
                &&& data_storage == DataStorage::AsciiInline ==> ops@.len() == k
                &&& data_storage == DataStorage::Ascii ==> ops@.len() == k + 1 && (w.writer
                    matches DataWriter::Ascii(a) && a.txt_files_dir@ == spec_with_extension(
                    file_name@,
                    "txt"@,
                ) && a.folder_name@ == crate::text::spec_file_name(a.txt_files_dir@) && a.write_time
                    is None) && (ops@[k] matches FileOp::CreateDirAll { path } && path@
                    == spec_with_extension(file_name@, "txt"@))
                &&& data_storage == DataStorage::Hdf5SingleFile ==> ops@.len() == k + 1 && (w.writer
                    matches DataWriter::Hdf5SingleFile(h) && h.h5_file_path@ == spec_with_extension(
                    file_name@,
                    "h5"@,
                ) && h.write_time is None && !h.mesh_written && h.groups@.len() == 0) && (ops@[k]
                    matches FileOp::StoreCreate { path } && path@ == spec_with_extension(
                    file_name@,
                    "h5"@,
                ))
                &&& data_storage == DataStorage::Hdf5MultipleFiles ==> ops@.len() == k + 1 && (
                w.writer matches DataWriter::Hdf5MultipleFiles(h) && h.h5_files_dir@
                    == spec_with_extension(file_name@, "h5"@) && h.h5_data_file is None) && (ops@[k]
                    matches FileOp::CreateDirAll { path } && path@ == spec_with_extension(
                    file_name@,
                    "h5"@,
                ))
            },
            (data_storage == DataStorage::Hdf5SingleFile || data_storage
                == DataStorage::Hdf5MultipleFiles) && !crate::spec_hdf5_enabled() ==> (r
                matches Err(e) && e is Unsupported && e.spec_message()
                == crate::msg_hdf5_unavailable(data_storage)),
            r matches Err(e) ==> {
                ||| data_storage == DataStorage::Ascii && crate::text::spec_file_name(
                    file_name@,
                ).len() == 0 && e is InvalidInput && e.spec_message()
                    == crate::ascii_writer::msg_no_file_name()
                ||| (data_storage == DataStorage::Hdf5SingleFile || data_storage
                    == DataStorage::Hdf5MultipleFiles) && !crate::spec_hdf5_enabled() && e
                    is Unsupported
            },
    {
        let xdmf_file_name = with_extension(file_name, "xdmf2");
        let mut ops: Vec<FileOp> = Vec::new();
        let parent_found = crate::text::parent_of(xdmf_file_name.as_str());
        proof {
            crate::text::lemma_last_index_of(xdmf_file_name@, '/');
        }
        match parent_found {
            Some(parent) => {
                if parent.as_str().unicode_len() > 0 {
                    proof {
                        assert(has_parent_dir(xdmf_file_name@));
                    }
                    ops.push(FileOp::CreateDirAll { path: parent });
                } else {
                    proof {
                        assert(!has_parent_dir(xdmf_file_name@));
                    }
                }
            },
            None => (),
        }
        let (writer, mut setup_ops) = match create_writer(file_name, data_storage) {
            Ok(pair) => pair,
            Err(e) => {
                return Err(e);
            },
        };
        ops.append(&mut setup_ops);
        Ok((TimeSeriesWriter { xdmf_file_name, writer }, ops))
    }
}

/// The full pretty-rendered document text of the post-mesh state, with
/// the domain's shared data items given separately (the submesh extension
/// commits a document holding only the first two): the root element
/// carrying the format version and inclusion namespace — the text begins
/// directly at the root element, with no leading line break — one domain
/// holding the grid (the mesh grid alone before the first time step, or
/// the temporal collection of the per-time-step grids) and the given
/// shared data items, then the storage-mode and producer-version
/// metadata.
#[verifier::opaque]
pub open spec fn spec_document_text_with(s: TimeSeriesDataWriter, items: Seq<DataItem>) -> Seq<
    char,
> {
    let ind1 = step_text();
    let ind2 = step_text() + step_text();
    "<Xdmf"@ + attr_text(" Version=\""@, "2.0"@) + attr_text(
        " xmlns:xi=\""@,
        "http://www.w3.org/2001/XInclude"@,
    ) + ">"@ + sep(true, ind1) + "<Domain"@ + ">"@ + (if s.steps@.len() == 0 {
        sep(true, ind2) + s.mesh_grid.xml(true, ind2)
    } else {
        sep(true, ind2) + "<Grid"@ + attr_text(" Name=\""@, "time_series"@) + attr_text(
            " GridType=\""@,
            "Collection"@,
        ) + attr_text(" CollectionType=\""@, "Temporal"@) + ">"@ + grids_xml(s.steps, 0, true, ind2)
            + sep(true, ind2) + "</Grid>"@
    }) + items_xml(items, 0, true, ind1) + sep(true, ind1) + "</Domain>"@ + sep(true, ind1)
        + "<Information"@ + attr_text(" Name=\""@, "data_storage"@) + attr_text(
        " Value=\""@,
        spec_storage_value(s.writer.spec_data_storage()),
    ) + "/>"@ + sep(true, ind1) + "<Information"@ + attr_text(" Name=\""@, "version"@) + attr_text(
        " Value=\""@,
        "0.1.0"@,
    ) + "/>"@ + sep(true, Seq::empty()) + "</Xdmf>"@
}

/// The full pretty-rendered document text of the post-mesh state, over all
/// of its shared data items.
pub open spec fn spec_document_text(s: TimeSeriesDataWriter) -> Seq<char> {
    spec_document_text_with(s, s.data_items@)
}

impl TimeSeriesDataWriter {
    /// Render the full document and plan its atomic commit: flush the
    /// backend, write the text to the temporary sibling path, rename it
    /// over the document path.
    pub fn write(&mut self) -> (ops: Vec<FileOp>)
        ensures
            *final(self) == *old(self),
            ops@.len() == flush_count(old(self).writer) + 2,
            *old(self) matches TimeSeriesDataWriter {
                writer: DataWriter::Hdf5SingleFile(h),
                ..
            } ==> (ops@[0] matches FileOp::StoreFlush { path } && path@ == h.h5_file_path@),
            is_commit_plan(
                ops@.skip(flush_count(old(self).writer)),
                old(self).xdmf_file_name@,
                spec_document_text(*old(self)),
            ),
    {
        let text = self.render();
        let mut ops = self.writer.flush();
        let mut commit = plan_commit(self.xdmf_file_name.as_str(), text);
        let ghost pre = ops@;
        ops.append(&mut commit);
        proof {
            assert(ops@.skip(flush_count(self.writer)) =~= ops@.subrange(
                pre.len() as int,
                ops@.len() as int,
            ));
        }
        ops
    }

    /// Render the full document text.
    fn render(&self) -> (text: String)
        ensures
            text@ == spec_document_text(*self),
    {
        proof {
            reveal(spec_document_text_with);
        }
        let ind1: &str = "    ";
        let ind2: &str = "        ";
        proof {
            reveal_strlit("    ");
            reveal_strlit("        ");
            assert(ind1@ =~= step_text());
            assert(ind2@ =~= step_text() + step_text());
        }
        let mut out = String::new();
        out.append("<Xdmf");
        crate::xdmf_elements::append_attr(&mut out, " Version=\"", "2.0");
        crate::xdmf_elements::append_attr(
            &mut out,
            " xmlns:xi=\"",
            "http://www.w3.org/2001/XInclude",
        );
        out.append(">");
        crate::xdmf_elements::append_sep(&mut out, true, ind1);
        out.append("<Domain");
        out.append(">");
        let ghost snap0 = out@;
        if self.steps.len() == 0 {
            crate::xdmf_elements::append_sep(&mut out, true, ind2);
            self.mesh_grid.append_xml(true, ind2, &mut out);
            proof {
                assert(out@ =~= snap0 + sep(true, step_text() + step_text()) + self.mesh_grid.xml(
                    true,
                    step_text() + step_text(),
                ));
            }
        } else {
            crate::xdmf_elements::append_sep(&mut out, true, ind2);
            out.append("<Grid");
            crate::xdmf_elements::append_attr(&mut out, " Name=\"", "time_series");
            crate::xdmf_elements::append_attr(&mut out, " GridType=\"", "Collection");
            crate::xdmf_elements::append_attr(&mut out, " CollectionType=\"", "Temporal");
            out.append(">");
            crate::xdmf_elements::grid::append_grids_xml(&self.steps, true, ind2, &mut out);
            crate::xdmf_elements::append_sep(&mut out, true, ind2);
            out.append("</Grid>");
            proof {
                assert(out@ =~= snap0 + sep(true, step_text() + step_text()) + "<Grid"@ + attr_text(
                    " Name=\""@,
                    "time_series"@,
                ) + attr_text(" GridType=\""@, "Collection"@) + attr_text(
                    " CollectionType=\""@,
                    "Temporal"@,
                ) + ">"@ + grids_xml(self.steps, 0, true, step_text() + step_text()) + sep(
                    true,
                    step_text() + step_text(),
                ) + "</Grid>"@);
            }
        }
        let ghost snap1 = out@;
        crate::xdmf_elements::attribute::append_items_xml(&self.data_items, true, ind1, &mut out);
        crate::xdmf_elements::append_sep(&mut out, true, ind1);
        out.append("</Domain>");
        crate::xdmf_elements::append_sep(&mut out, true, ind1);
        out.append("<Information");
        crate::xdmf_elements::append_attr(&mut out, " Name=\"", "data_storage");
        crate::xdmf_elements::append_attr(
            &mut out,
            " Value=\"",
            storage_value(self.writer.data_storage()),
        );
        out.append("/>");
        let ghost snap2 = out@;
        crate::xdmf_elements::append_sep(&mut out, true, ind1);
        out.append("<Information");
        crate::xdmf_elements::append_attr(&mut out, " Name=\"", "version");
        crate::xdmf_elements::append_attr(&mut out, " Value=\"", "0.1.0");
        out.append("/>");
        crate::xdmf_elements::append_sep(&mut out, true, "");
        out.append("</Xdmf>");
        proof {
            reveal_strlit("");
            assert(""@ =~= Seq::<char>::empty());
            assert(out@ =~= spec_document_text(*self));
        }
        out
    }
}


/// What the coordinate data item's content is under each backend: the
/// literal token line inline, an inclusion reference for the side-file
/// backend, or the store reference for the array-store backends.
pub open spec fn mesh_points_content(w: DataWriter, points: Seq<String>, c: DataContent) -> bool {
    match w {
        DataWriter::AsciiInline(_) => c matches DataContent::Raw(s) && s@ == crate::ascii_writer::join_space(
            crate::ascii_writer::texts_of(points),
        ),
        DataWriter::Ascii(a) => c matches DataContent::Include(x) && x.file_path@ == a.folder_name@
            + seq!['/'] + "points.txt"@ && (x.parse matches Some(p) && p@ == "text"@),
        DataWriter::Hdf5SingleFile(h) => c matches DataContent::Raw(s) && s@ == h.h5_file_path@
            + ":mesh/points"@,
        DataWriter::Hdf5MultipleFiles(h) => c matches DataContent::Raw(s) && s@ == h.h5_files_dir@
            + seq!['/'] + "mesh.h5"@ + ":points"@,
    }
}

/// What the connectivity data item's content is under each backend.
pub open spec fn mesh_cells_content(w: DataWriter, encoded: Seq<u64>, c: DataContent) -> bool {
    match w {
        DataWriter::AsciiInline(_) => c matches DataContent::Raw(s) && s@ == crate::ascii_writer::join_space(
            crate::ascii_writer::texts_of(encoded),
        ),
        DataWriter::Ascii(a) => c matches DataContent::Include(x) && x.file_path@ == a.folder_name@
            + seq!['/'] + "cells.txt"@ && (x.parse matches Some(p) && p@ == "text"@),
        DataWriter::Hdf5SingleFile(h) => c matches DataContent::Raw(s) && s@ == h.h5_file_path@
            + ":mesh/cells"@,
        DataWriter::Hdf5MultipleFiles(h) => c matches DataContent::Raw(s) && s@ == h.h5_files_dir@
            + seq!['/'] + "mesh.h5"@ + ":cells"@,
    }
}

/// How many operations persisting the mesh plans under each backend.
pub open spec fn mesh_setup_count(w: DataWriter) -> int {
    match w {
        DataWriter::AsciiInline(_) => 0,
        DataWriter::Ascii(_) => 2,
        DataWriter::Hdf5SingleFile(_) => 3,
        DataWriter::Hdf5MultipleFiles(_) => 3,
    }
}

/// The operations persisting the mesh under each backend: the two side
/// files for the side-file backend, or the store file, group and dataset
/// writes for the array-store backends.
pub open spec fn mesh_setup_ops(
    w: DataWriter,
    points: Seq<String>,
    encoded: Seq<u64>,
    ops: Seq<FileOp>,
) -> bool {
    match w {
        DataWriter::AsciiInline(_) => ops.len() == 0,
        DataWriter::Ascii(a) => {
            &&& ops.len() == 2
            &&& ops[0] matches FileOp::WriteFile { path, contents } && path@ == a.txt_files_dir@
                + seq!['/'] + "points.txt"@ && contents@ == crate::ascii_writer::join_space(
                crate::ascii_writer::texts_of(points),
            ) + seq!['\n']
            &&& ops[1] matches FileOp::WriteFile { path, contents } && path@ == a.txt_files_dir@
                + seq!['/'] + "cells.txt"@ && contents@ == crate::ascii_writer::join_space(
                crate::ascii_writer::texts_of(encoded),
            ) + seq!['\n']
        },
        DataWriter::Hdf5SingleFile(h) => {
            &&& ops.len() == 3
            &&& ops[0] matches FileOp::StoreCreateGroup { path, group } && path@ == h.h5_file_path@
                && group@ == "mesh"@
            &&& ops[1] matches FileOp::StoreWriteFloats { path, group, dataset, dims, tokens }
                && path@ == h.h5_file_path@ && group@ == "mesh"@ && dataset@ == "points"@ && dims@
                == seq![points.len() as usize] && crate::hdf5_writer::token_views(tokens@)
                == crate::hdf5_writer::token_views(points)
            &&& ops[2] matches FileOp::StoreWriteUInts { path, group, dataset, dims, values } && path@
                == h.h5_file_path@ && group@ == "mesh"@ && dataset@ == "cells"@ && dims@ == seq![
                encoded.len() as usize,
            ] && values@ == encoded
        },
        DataWriter::Hdf5MultipleFiles(h) => {
            let file = h.h5_files_dir@ + seq!['/'] + "mesh.h5"@;
            &&& ops.len() == 3
            &&& ops[0] matches FileOp::StoreCreate { path } && path@ == file
            &&& ops[1] matches FileOp::StoreWriteFloats { path, group, dataset, dims, tokens }
                && path@ == file && group@.len() == 0 && dataset@ == "points"@ && dims@ == seq![
                points.len() as usize,
            ] && crate::hdf5_writer::token_views(tokens@) == crate::hdf5_writer::token_views(points)
            &&& ops[2] matches FileOp::StoreWriteUInts { path, group, dataset, dims, values } && path@
                == file && group@.len() == 0 && dataset@ == "cells"@ && dims@ == seq![
                encoded.len() as usize,
            ] && values@ == encoded
        },
    }
}

/// The backend state after the mesh was persisted: the side-file and
/// multiple-file backends are unchanged; the single-file backend records
/// that its mesh group exists.
pub open spec fn writer_after_mesh(pre: DataWriter, post: DataWriter) -> bool {
    match pre {
        DataWriter::AsciiInline(_) => post matches DataWriter::AsciiInline(_),
        DataWriter::Ascii(a) => post matches DataWriter::Ascii(a1) && a1 == a,
        DataWriter::Hdf5SingleFile(h) => post matches DataWriter::Hdf5SingleFile(h1)
            && h1.h5_file_path == h.h5_file_path && h1.write_time == h.write_time && h1.groups
            == h.groups && h1.mesh_written,
        DataWriter::Hdf5MultipleFiles(h) => post matches DataWriter::Hdf5MultipleFiles(h1) && h1
            == h,
    }
}

impl TimeSeriesWriter {
    /// Validate the mesh, encode its connectivity, persist both arrays
    /// through the backend, assemble the document around them, and plan
    /// the first atomic commit. Consumes this writer and yields the
    /// post-mesh writer; the returned plan must be executed in order.
    ///
    /// The mesh is rejected, before any side effect is planned, when it
    /// has no points, a point count that is not a multiple of 3, a
    /// connectivity index out of bounds, or a connectivity length that
    /// does not match the cell types.
    #[verifier::rlimit(100)]
    #[verifier::spinoff_prover]
    pub fn write_mesh(self, points: &Vec<String>, cells: (&Vec<u64>, &Vec<CellType>)) -> (r:
        Result<(TimeSeriesDataWriter, Vec<FileOp>), XdmfError>)
        ensures
            !mesh_valid(points@, cells.0@, cells.1@) ==> (r matches Err(e) && {
                let np = points@.len() as int / 3;
                &&& e is InvalidInput
                &&& points@.len() == 0 ==> e.spec_message() == msg_points_empty()
                &&& points@.len() > 0 && points@.len() % 3 != 0 ==> e.spec_message()
                    == msg_points_not_3d()
                &&& points@.len() > 0 && points@.len() % 3 == 0 && (seq_max(cells.0@)
                    matches Some(m) && m >= np) ==> e.spec_message() == msg_conn_out_of_bounds(
                    seq_max(cells.0@)->0,
                    np,
                )
                &&& points@.len() > 0 && points@.len() % 3 == 0 && (match seq_max(cells.0@) {
                    Some(m) => (m as int) < np,
                    None => true,
                }) ==> e.spec_message() == msg_conn_mismatch(
                    cells.0@.len() as int,
                    points_needed(cells.1@, cells.1@.len() as int),
                )
            }),
            mesh_valid(points@, cells.0@, cells.1@) && (self.writer
                matches DataWriter::Hdf5SingleFile(h) && h.mesh_written) ==> (r matches Err(e) && e
                is ResourceState && e.spec_message()
                == crate::hdf5_writer::msg_mesh_already_written()),
            mesh_valid(points@, cells.0@, cells.1@) && !(self.writer
                matches DataWriter::Hdf5SingleFile(h) && h.mesh_written) ==> (r matches Ok(
                (ts, ops),
            ) && {
                let encoded = encode_cells(cells.0@, cells.1@);
                let m = mesh_setup_count(self.writer);
                let f = flush_count(self.writer);
                &&& ts.xdmf_file_name == self.xdmf_file_name
                &&& writer_after_mesh(self.writer, ts.writer)
                &&& bracket_closed(self.writer) ==> ts.wf()
                &&& ts.num_points == points@.len() / 3
                &&& ts.num_cells == cells.1@.len()
                &&& ts.steps@.len() == 0
                &&& ts.times@.len() == 0
                &&& ts.data_items@.len() == 2
                &&& is_mesh_coords_item(ts.data_items@[0], self.writer, points@)
                &&& is_mesh_conn_item(ts.data_items@[1], self.writer, encoded)
                &&& is_mesh_grid(ts.mesh_grid, cells.1@.len() as int)
                &&& ops@.len() == m + f + 2
                &&& mesh_setup_ops(self.writer, points@, encoded, ops@.take(m))
                &&& is_commit_plan(ops@.skip(m + f), self.xdmf_file_name@, spec_document_text(ts))
            }),
    {
        match validate_points_and_cells(points, cells) {
            Ok(()) => (),
            Err(e) => {
                return Err(e);
            },
        }
        let num_cells = cells.1.len();
        let num_points = points.len() / 3;
        let prepared_cells = prepare_cells(cells);
        let mut writer = self.writer;
        let ((points_data, cells_data), mut mesh_ops) = match writer.write_mesh(
            points,
            &prepared_cells,
        ) {
            Ok(x) => x,
            Err(e) => {
                return Err(e);
            },
        };
        let format = writer.format();
        let mut coords_dims: Vec<usize> = Vec::new();
        coords_dims.push(num_points);
        coords_dims.push(3);
        proof {
            assert(coords_dims@ =~= seq![num_points, 3usize]);
        }
        let data_item_coords = DataItem {
            name: Some("coords".to_owned()),
            dimensions: Some(Dimensions(coords_dims)),
            data: points_data,
            number_type: Some(NumberType::Float),
            precision: Some(8),
            format: Some(format),
            reference: None,
        };
        let mut conn_dims: Vec<usize> = Vec::new();
        conn_dims.push(prepared_cells.len());
        proof {
            assert(conn_dims@ =~= seq![prepared_cells@.len() as usize]);
        }
        let data_item_connectivity = DataItem {
            name: Some("connectivity".to_owned()),
            dimensions: Some(Dimensions(conn_dims)),
            number_type: Some(NumberType::UInt),
            data: cells_data,
            format: Some(format),
            precision: Some(8),
            reference: None,
        };
        let mesh_grid = build_mesh_grid(&data_item_coords, &data_item_connectivity, num_cells);
        let mut data_items: Vec<DataItem> = Vec::new();
        data_items.push(data_item_coords);
        data_items.push(data_item_connectivity);
        let mut ts = TimeSeriesDataWriter {
            xdmf_file_name: self.xdmf_file_name,
            writer,
            mesh_grid,
            data_items,
            steps: Vec::new(),
            times: Vec::new(),
            num_points,
            num_cells,
        };
        let mut commit_ops = ts.write();
        let ghost pre_ops = mesh_ops@;
        let ghost commit_part = commit_ops@;
        mesh_ops.append(&mut commit_ops);
        proof {
            assert(mesh_ops@.take(pre_ops.len() as int) =~= pre_ops);
            assert(mesh_ops@.skip(pre_ops.len() as int) =~= commit_part);
            assert(commit_part.skip(flush_count(ts.writer)) =~= mesh_ops@.skip(
                pre_ops.len() + flush_count(ts.writer),
            ));
        }
        Ok((ts, mesh_ops))
    }
}

/// Whether a data item is the shared coordinate item: named `coords`,
/// shaped points-by-3, 64-bit floats, in the backend's format, with the
/// backend's content for the point array.
pub open spec fn is_mesh_coords_item(d: DataItem, w: DataWriter, points: Seq<String>) -> bool {
    &&& d.name matches Some(n) && n@ == "coords"@
    &&& d.dimensions matches Some(dm) && dm.0@ == seq![(points.len() as int / 3) as usize, 3usize]
    &&& d.number_type == Some(NumberType::Float)
    &&& d.format == Some(w.spec_format())
    &&& d.precision == Some(8u8)
    &&& d.reference is None
    &&& mesh_points_content(w, points, d.data)
}

/// Whether a data item is the shared connectivity item: named
/// `connectivity`, holding the flat encoded array as unsigned integers, in
/// the backend's format, with the backend's content for the encoded array.
pub open spec fn is_mesh_conn_item(d: DataItem, w: DataWriter, encoded: Seq<u64>) -> bool {
    &&& d.name matches Some(n) && n@ == "connectivity"@
    &&& d.dimensions matches Some(dm) && dm.0@ == seq![encoded.len() as usize]
    &&& d.number_type == Some(NumberType::UInt)
    &&& d.format == Some(w.spec_format())
    &&& d.precision == Some(8u8)
    &&& d.reference is None
    &&& mesh_cells_content(w, encoded, d.data)
}

/// Whether a data item references the named shared item of the domain.
pub open spec fn is_reference_item(d: DataItem, target: Seq<char>) -> bool {
    &&& d.name is None
    &&& d.dimensions is None
    &&& d.number_type is None
    &&& d.format is None
    &&& d.precision is None
    &&& d.reference matches Some(m) && m@ == "XML"@
    &&& d.data matches DataContent::Raw(t) && t@ == "/Xdmf/Domain/DataItem"@ + "[@Name=\""@ + target
        + "\"]"@
}

/// Whether a grid is the mesh grid: a uniform grid named `mesh` whose
/// geometry and topology reference the shared data items, with the mixed
/// topology over the given cell count.
pub open spec fn is_mesh_grid(g: Grid, num_cells: int) -> bool {
    &&& g.name@ == "mesh"@
    &&& g.grid_type == GridType::Uniform
    &&& g.collection_type is None
    &&& g.geometry matches Some(geo) && geo.geometry_type == GeometryType::XYZ && is_reference_item(
        geo.data_item,
        "coords"@,
    )
    &&& g.topology matches Some(t) && t.topology_type == TopologyType::Mixed
        && t.number_of_elements@ == dec_nat(num_cells as nat) && is_reference_item(
        t.data_item,
        "connectivity"@,
    )
    &&& g.grids is None
    &&& g.time is None
    &&& g.attributes is None
}

/// Build the uniform grid describing the mesh, referencing the two shared
/// data items.
fn build_mesh_grid(coords: &DataItem, connectivity: &DataItem, num_cells: usize) -> (g: Grid)
    requires
        coords.name matches Some(n) && n@ == "coords"@,
        connectivity.name matches Some(n) && n@ == "connectivity"@,
    ensures
        is_mesh_grid(g, num_cells as int),
{
    let data_item_coords_ref = DataItem::new_reference(coords, "/Xdmf/Domain/DataItem");
    let data_item_connectivity_ref = DataItem::new_reference(connectivity, "/Xdmf/Domain/DataItem");
    let geometry = Geometry { geometry_type: GeometryType::XYZ, data_item: data_item_coords_ref };
    let topology = Topology {
        topology_type: TopologyType::Mixed,
        number_of_elements: dec_u64(num_cells as u64),
        data_item: data_item_connectivity_ref,
    };
    Grid::new_uniform("mesh", geometry, topology)
}


/// The entry at combined index `j` of a time step's fields: the point
/// fields in order, then the cell fields.
pub open spec fn entry_at(pd: Seq<DataEntry>, cd: Seq<DataEntry>, j: int) -> DataEntry {
    if j < pd.len() {
        pd[j]
    } else {
        cd[j - pd.len()]
    }
}

/// The placement at combined index `j`: node-centered for the point
/// fields, cell-centered for the cell fields.
pub open spec fn center_at(pd_len: int, j: int) -> Center {
    if j < pd_len {
        Center::Node
    } else {
        Center::Cell
    }
}

/// The dimensions recorded for a field: its flat length for a scalar,
/// otherwise entity count by shape size, with a zero-size shape recorded
/// as an empty extent pair.
pub open spec fn spec_entry_dims(e: DataEntry) -> Seq<usize> {
    match (e.1).0 {
        DataAttribute::Scalar => seq![(e.1).1.spec_len() as usize],
        _ => if (e.1).0.spec_size() == 0 {
            seq![0usize, 0usize]
        } else {
            seq![((e.1).1.spec_len() / (e.1).0.spec_size()) as usize, (e.1).0.spec_size() as usize]
        },
    }
}

/// The number-kind recorded for a field's values.
pub open spec fn spec_values_number_type(v: Values) -> NumberType {
    match v {
        Values::F64(_) => NumberType::Float,
        Values::U64(_) => NumberType::UInt,
    }
}

/// What one field's data item content is under each backend, for the
/// bracketed time step.
pub open spec fn step_item_content(
    w: DataWriter,
    time: Seq<char>,
    center: Center,
    name: Seq<char>,
    data: Values,
    c: DataContent,
) -> bool {
    match w {
        DataWriter::AsciiInline(_) => c matches DataContent::Raw(s) && s@
            == crate::ascii_writer::values_line(data),
        DataWriter::Ascii(a) => c matches DataContent::Include(x) && x.file_path@ == a.folder_name@
            + seq!['/'] + crate::ascii_writer::AsciiWriter::spec_data_file_name(time, center, name)
            && (x.parse matches Some(p) && p@ == "text"@),
        DataWriter::Hdf5SingleFile(h) => c matches DataContent::Raw(s) && s@ == h.h5_file_path@
            + seq![':'] + crate::hdf5_writer::SingleFileHdf5Writer::spec_group_name(time, center)
            + seq!['/'] + name,
        DataWriter::Hdf5MultipleFiles(h) => c matches DataContent::Raw(s) && s@
            == crate::hdf5_writer::MultipleFilesHdf5Writer::spec_data_file(h.h5_files_dir@, time)
            + seq![':'] + crate::xdmf_elements::attribute::spec_center_data_tag(center) + seq!['/']
            + name,
    }
}

/// Whether an attribute records one field of a time step: the field's
/// name, its recorded shape and placement, and one data item holding the
/// backend's content for its values.
pub open spec fn attr_matches(
    a: Attribute,
    e: DataEntry,
    center: Center,
    w: DataWriter,
    time: Seq<char>,
) -> bool {
    &&& a.name@ == e.0@
    &&& a.attribute_type == crate::spec_attribute_type((e.1).0)
    &&& a.center == center
    &&& a.data_items@.len() == 1
    &&& a.data_items@[0].name is None
    &&& a.data_items@[0].dimensions matches Some(d) && d.0@ == spec_entry_dims(e)
    &&& a.data_items@[0].number_type == Some(spec_values_number_type((e.1).1))
    &&& a.data_items@[0].format == Some(w.spec_format())
    &&& a.data_items@[0].precision == Some(8u8)
    &&& a.data_items@[0].reference is None
    &&& step_item_content(w, time, center, e.0@, (e.1).1, a.data_items@[0].data)
}

/// Whether a grid records one whole time step: its derived name, the
/// geometry and topology referencing the shared mesh items, the time
/// stamp, and one attribute per field, point fields first.
pub open spec fn is_step_grid(
    g: Grid,
    time: Seq<char>,
    pd: Seq<DataEntry>,
    cd: Seq<DataEntry>,
    w: DataWriter,
    num_cells: int,
) -> bool {
    &&& g.name@ == "time_series-t"@ + time
    &&& g.grid_type == GridType::Uniform
    &&& g.collection_type is None
    &&& g.geometry matches Some(geo) && geo.geometry_type == GeometryType::XYZ && is_reference_item(
        geo.data_item,
        "coords"@,
    )
    &&& g.topology matches Some(t) && t.topology_type == TopologyType::Mixed
        && t.number_of_elements@ == dec_nat(num_cells as nat) && is_reference_item(
        t.data_item,
        "connectivity"@,
    )
    &&& g.grids is None
    &&& g.time matches Some(t) && t.value@ == time
    &&& g.attributes matches Some(ats) && ats@.len() == pd.len() + cd.len() && forall|j: int|
        0 <= j < pd.len() + cd.len() ==> attr_matches(
            #[trigger] ats@[j],
            entry_at(pd, cd, j),
            center_at(pd.len() as int, j),
            w,
            time,
        )
}

/// Whether the backend's per-time-step bracket is closed.
pub open spec fn bracket_closed(w: DataWriter) -> bool {
    match w {
        DataWriter::AsciiInline(_) => true,
        DataWriter::Ascii(a) => a.write_time is None,
        DataWriter::Hdf5SingleFile(h) => h.write_time is None,
        DataWriter::Hdf5MultipleFiles(h) => h.h5_data_file is None,
    }
}

/// The backend state after one whole time step: identifying fields are
/// kept and the bracket is closed again.
pub open spec fn writer_after_step(pre: DataWriter, post: DataWriter) -> bool {
    match pre {
        DataWriter::AsciiInline(_) => post matches DataWriter::AsciiInline(_),
        DataWriter::Ascii(a) => post matches DataWriter::Ascii(a1) && a1.txt_files_dir
            == a.txt_files_dir && a1.folder_name == a.folder_name && a1.write_time is None,
        DataWriter::Hdf5SingleFile(h) => post matches DataWriter::Hdf5SingleFile(h1)
            && h1.h5_file_path == h.h5_file_path && h1.mesh_written == h.mesh_written
            && h1.write_time is None,
        DataWriter::Hdf5MultipleFiles(h) => post matches DataWriter::Hdf5MultipleFiles(h1)
            && h1.h5_files_dir == h.h5_files_dir && h1.h5_data_file is None,
    }
}

impl TimeSeriesDataWriter {
    /// The well-formedness of the post-mesh state: the two shared mesh
    /// items under their names, one recorded time token per time-step
    /// grid — each grid stamped with its token, in written order — and the
    /// backend's bracket closed between writes.
    pub open spec fn wf(&self) -> bool {
        &&& self.data_items@.len() >= 2
        &&& self.data_items@[0].name matches Some(n) && n@ == "coords"@
        &&& self.data_items@[1].name matches Some(n) && n@ == "connectivity"@
        &&& self.steps@.len() == self.times@.len()
        &&& forall|k: int|
            0 <= k < self.steps@.len() ==> ((#[trigger] self.steps@[k]).time matches Some(t)
                && t.value@ == self.times@[k]@)
        &&& bracket_closed(self.writer)
    }

    /// Validate one time-step write: the time token must be a finite
    /// number not used before, at least one field must be present, and
    /// every field must fit its shape under a well-formed name that no
    /// other field of its map uses. The first violation found is
    /// reported; nothing else happens.
    pub fn validate_data(
        &self,
        time: &str,
        point_data: Option<&DataMap>,
        cell_data: Option<&DataMap>,
    ) -> (r: Result<(), XdmfError>)
        requires
            data_map_sizes_fit(entries_of(point_data), self.num_points as int),
            data_map_sizes_fit(entries_of(cell_data), self.num_cells as int),
        ensures
            r is Ok <==> data_valid(
                self.times@,
                time@,
                entries_of(point_data),
                entries_of(cell_data),
                self.num_points as int,
                self.num_cells as int,
            ),
            r matches Err(e) ==> e is InvalidInput,
            ({
                let pd = entries_of(point_data);
                let cd = entries_of(cell_data);
                let np = self.num_points as int;
                let nc = self.num_cells as int;
                let fwp = first_wrong_size(pd, np, 0);
                let fwc = first_wrong_size(cd, nc, 0);
                let fbp = first_bad_name(pd, 0);
                let fbc = first_bad_name(cd, 0);
                &&& !is_float_token(time@) ==> (r matches Err(e) && e.spec_message()
                    == msg_time_invalid(time@))
                &&& is_float_token(time@) && times_contain(self.times@, time@) ==> (r
                    matches Err(e) && e.spec_message() == msg_time_duplicate(time@))
                &&& is_float_token(time@) && !times_contain(self.times@, time@) && pd.len()
                    + cd.len() == 0 ==> (r matches Err(e) && e.spec_message() == msg_no_data())
                &&& is_float_token(time@) && !times_contain(self.times@, time@) && pd.len()
                    + cd.len() > 0 && fwp < pd.len() ==> (r matches Err(e) && e.spec_message()
                    == msg_wrong_size(
                    "point"@,
                    pd[fwp].0@,
                    np * (pd[fwp].1).0.spec_size(),
                    (pd[fwp].1).1.spec_len(),
                ))
                &&& is_float_token(time@) && !times_contain(self.times@, time@) && pd.len()
                    + cd.len() > 0 && fwp == pd.len() && fbp < pd.len() ==> (r matches Err(e)
                    && e.spec_message() == msg_bad_name(pd[fbp].0@))
                &&& is_float_token(time@) && !times_contain(self.times@, time@) && pd.len()
                    + cd.len() > 0 && fwp == pd.len() && fbp == pd.len() && first_dup_name(pd, 0)
                    < pd.len() ==> (r matches Err(e) && e.spec_message() == msg_dup_name(
                    pd[first_dup_name(pd, 0)].0@,
                ))
                &&& is_float_token(time@) && !times_contain(self.times@, time@) && pd.len()
                    + cd.len() > 0 && data_map_ok(pd, np) && fwc < cd.len() ==> (r matches Err(e)
                    && e.spec_message() == msg_wrong_size(
                    "cell"@,
                    cd[fwc].0@,
                    nc * (cd[fwc].1).0.spec_size(),
                    (cd[fwc].1).1.spec_len(),
                ))
                &&& is_float_token(time@) && !times_contain(self.times@, time@) && pd.len()
                    + cd.len() > 0 && data_map_ok(pd, np) && fwc == cd.len() && fbc < cd.len() ==> (
                r matches Err(e) && e.spec_message() == msg_bad_name(cd[fbc].0@))
                &&& is_float_token(time@) && !times_contain(self.times@, time@) && pd.len()
                    + cd.len() > 0 && data_map_ok(pd, np) && fwc == cd.len() && fbc == cd.len()
                    && first_dup_name(cd, 0) < cd.len() ==> (r matches Err(e) && e.spec_message()
                    == msg_dup_name(cd[first_dup_name(cd, 0)].0@))
            }),
    {
        if !check_float_token(time) {
            let mut m: String = "Time must be a valid float, and not '".to_owned();
            m.append(time);
            m.append("'");
            proof {
                reveal_strlit("'");
                assert(m@ =~= msg_time_invalid(time@));
            }
            return Err(XdmfError::InvalidInput(m));
        }
        if times_contain_exec(&self.times, time) {
            let mut m: String = "Time step '".to_owned();
            m.append(time);
            m.append("' has already been written");
            proof {
                assert(m@ =~= msg_time_duplicate(time@));
            }
            return Err(XdmfError::InvalidInput(m));
        }
        let pd_len = match point_data {
            Some(m) => m.len(),
            None => 0,
        };
        let cd_len = match cell_data {
            Some(m) => m.len(),
            None => 0,
        };
        if pd_len == 0 && cd_len == 0 {
            return Err(
                XdmfError::InvalidInput(
                    "At least one of point_data or cell_data must be provided".to_owned(),
                ),
            );
        }
        match point_data {
            Some(m) => {
                match check_data_map(m, self.num_points, "point") {
                    Ok(()) => (),
                    Err(e) => {
                        return Err(e);
                    },
                }
            },
            None => (),
        }
        match cell_data {
            Some(m) => {
                match check_data_map(m, self.num_cells, "cell") {
                    Ok(()) => (),
                    Err(e) => {
                        return Err(e);
                    },
                }
            },
            None => (),
        }
        Ok(())
    }
}



/// What one middle operation of a side-file time-step plan is: the side
/// file of one field, holding its formatted line.
pub open spec fn ascii_step_op_ok(
    w: DataWriter,
    op: FileOp,
    time: Seq<char>,
    e: DataEntry,
    center: Center,
) -> bool {
    w matches DataWriter::Ascii(a) ==> (op matches FileOp::WriteFile { path, contents } && path@
        == a.txt_files_dir@ + seq!['/'] + crate::ascii_writer::AsciiWriter::spec_data_file_name(
        time,
        center,
        e.0@,
    ) && contents@ == crate::ascii_writer::values_line((e.1).1) + seq!['\n'])
}

/// Whether an operation writes a dataset, as opposed to creating or
/// flushing store resources or touching text files.
pub open spec fn is_dataset_write(op: FileOp) -> bool {
    match op {
        FileOp::StoreWriteFloats { .. } => true,
        FileOp::StoreWriteUInts { .. } => true,
        _ => false,
    }
}

/// The dataset-writing operations of a plan, in plan order.
pub open spec fn dataset_writes(ops: Seq<FileOp>) -> Seq<FileOp>
    decreases ops.len(),
{
    if ops.len() == 0 {
        Seq::empty()
    } else if is_dataset_write(ops.last()) {
        dataset_writes(ops.drop_last()).push(ops.last())
    } else {
        dataset_writes(ops.drop_last())
    }
}

/// Dataset writes distribute over plan concatenation.
proof fn lemma_dataset_writes_add(a: Seq<FileOp>, b: Seq<FileOp>)
    ensures
        dataset_writes(a + b) == dataset_writes(a) + dataset_writes(b),
    decreases b.len(),
{
    if b.len() == 0 {
        assert(a + b =~= a);
        assert(dataset_writes(b) =~= Seq::<FileOp>::empty());
        assert(dataset_writes(a) + dataset_writes(b) =~= dataset_writes(a));
    } else {
        lemma_dataset_writes_add(a, b.drop_last());
        assert((a + b).drop_last() =~= a + b.drop_last());
        assert((a + b).last() == b.last());
        if is_dataset_write(b.last()) {
            assert(dataset_writes(a + b) =~= dataset_writes(a) + dataset_writes(b));
        } else {
            assert(dataset_writes(a + b) =~= dataset_writes(a) + dataset_writes(b));
        }
    }
}

/// A plan with no dataset write among its operations has no dataset
/// writes.
proof fn lemma_dataset_writes_none(ops: Seq<FileOp>)
    requires
        forall|i: int| 0 <= i < ops.len() ==> !is_dataset_write(#[trigger] ops[i]),
    ensures
        dataset_writes(ops) == Seq::<FileOp>::empty(),
    decreases ops.len(),
{
    if ops.len() > 0 {
        lemma_dataset_writes_none(ops.drop_last());
        assert(!is_dataset_write(ops.last()));
        assert(dataset_writes(ops) == dataset_writes(ops.drop_last()));
    } else {
        assert(dataset_writes(ops) =~= Seq::<FileOp>::empty());
    }
}

/// The dataset writes of one backend field write: its final operation,
/// with an optional group creation before it filtered out.
proof fn lemma_dataset_writes_field(ops: Seq<FileOp>)
    requires
        1 <= ops.len() <= 2,
        is_dataset_write(ops.last()),
        ops.len() == 2 ==> !is_dataset_write(ops[0]),
    ensures
        dataset_writes(ops) == seq![ops.last()],
{
    lemma_dataset_writes_none(ops.drop_last());
    assert(dataset_writes(ops) == dataset_writes(ops.drop_last()).push(ops.last()));
    assert(dataset_writes(ops) =~= seq![ops.last()]);
}

/// Whether `op` writes the dataset of one field of the bracketed time
/// step under an array-store backend: the field's values as the dataset
/// named by the field, under the step's group of the backend's store
/// file. Trivial for the text backends, whose plans are stated
/// operation by operation instead.
pub open spec fn step_dataset_write(
    w: DataWriter,
    time: Seq<char>,
    center: Center,
    e: DataEntry,
    op: FileOp,
) -> bool {
    match w {
        DataWriter::Hdf5SingleFile(h) => crate::store_write_op(
            op,
            h.h5_file_path@,
            crate::hdf5_writer::SingleFileHdf5Writer::spec_group_name(time, center),
            e.0@,
            (e.1).1,
        ),
        DataWriter::Hdf5MultipleFiles(h) => crate::store_write_op(
            op,
            crate::hdf5_writer::MultipleFilesHdf5Writer::spec_data_file(h.h5_files_dir@, time),
            crate::xdmf_elements::attribute::spec_center_data_tag(center),
            e.0@,
            (e.1).1,
        ),
        _ => true,
    }
}

/// Whether an operation addresses only the external array store.
pub open spec fn is_store_op(op: FileOp) -> bool {
    match op {
        FileOp::StoreCreate { .. } => true,
        FileOp::StoreCreateGroup { .. } => true,
        FileOp::StoreWriteFloats { .. } => true,
        FileOp::StoreWriteUInts { .. } => true,
        FileOp::StoreFlush { .. } => true,
        _ => false,
    }
}

impl TimeSeriesDataWriter {
    /// Write one time step: validate it, bracket the backend, persist
    /// every field through the backend, append the new per-time-step grid
    /// to the document — time steps accumulate in the order written — and
    /// plan the atomic commit of the re-rendered document. The returned
    /// plan must be executed in order.
    #[verifier::rlimit(100)]
    #[verifier::spinoff_prover]
    pub fn write_data(
        &mut self,
        time: &str,
        point_data: Option<&DataMap>,
        cell_data: Option<&DataMap>,
    ) -> (r: Result<Vec<FileOp>, XdmfError>)
        requires
            old(self).wf(),
            data_map_sizes_fit(entries_of(point_data), old(self).num_points as int),
            data_map_sizes_fit(entries_of(cell_data), old(self).num_cells as int),
        ensures
            r is Ok <==> data_valid(
                old(self).times@,
                time@,
                entries_of(point_data),
                entries_of(cell_data),
                old(self).num_points as int,
                old(self).num_cells as int,
            ),
            r is Err ==> *final(self) == *old(self),
            r matches Err(e) ==> e is InvalidInput && validate_failure_message(
                *old(self),
                time@,
                entries_of(point_data),
                entries_of(cell_data),
                e.spec_message(),
            ),
            r matches Ok(ops) ==> {
                let pd = entries_of(point_data);
                let cd = entries_of(cell_data);
                &&& final(self).wf()
                &&& final(self).xdmf_file_name == old(self).xdmf_file_name
                &&& final(self).mesh_grid == old(self).mesh_grid
                &&& final(self).data_items == old(self).data_items
                &&& final(self).num_points == old(self).num_points
                &&& final(self).num_cells == old(self).num_cells
                &&& writer_after_step(old(self).writer, final(self).writer)
                &&& final(self).times@.len() == old(self).times@.len() + 1
                &&& final(self).times@.take(old(self).times@.len() as int) == old(self).times@
                &&& final(self).times@.last()@ == time@
                &&& final(self).steps@.len() == old(self).steps@.len() + 1
                &&& final(self).steps@.take(old(self).steps@.len() as int) == old(self).steps@
                &&& is_step_grid(
                    final(self).steps@.last(),
                    time@,
                    pd,
                    cd,
                    old(self).writer,
                    old(self).num_cells as int,
                )
                &&& ops@.len() >= 2
                &&& is_commit_plan(
                    ops@.skip(ops@.len() - 2),
                    old(self).xdmf_file_name@,
                    spec_document_text(*final(self)),
                )
                &&& (old(self).writer matches DataWriter::AsciiInline(_) ==> ops@.len() == 2)
                &&& (old(self).writer matches DataWriter::Ascii(_) ==> ops@.len() == pd.len()
                    + cd.len() + 2)
                &&& forall|j: int|
                    0 <= j < pd.len() + cd.len() && (old(self).writer
                        matches DataWriter::Ascii(_)) ==> ascii_step_op_ok(
                        old(self).writer,
                        #[trigger] ops@[j],
                        time@,
                        entry_at(pd, cd, j),
                        center_at(pd.len() as int, j),
                    )
                &&& (old(self).writer matches DataWriter::Hdf5SingleFile(_) ==> forall|j: int|
                    0 <= j < ops@.len() - 2 ==> is_store_op(#[trigger] ops@[j]))
                &&& (old(self).writer matches DataWriter::Hdf5MultipleFiles(_) ==> forall|j: int|
                    0 <= j < ops@.len() - 2 ==> is_store_op(#[trigger] ops@[j]))
                &&& (old(self).writer matches DataWriter::Hdf5SingleFile(_) || old(self).writer
                    matches DataWriter::Hdf5MultipleFiles(_)) ==> ({
                    let dw = dataset_writes(ops@);
                    &&& dw.len() == pd.len() + cd.len()
                    &&& forall|j: int|
                        0 <= j < pd.len() + cd.len() ==> step_dataset_write(
                            old(self).writer,
                            time@,
                            center_at(pd.len() as int, j),
                            entry_at(pd, cd, j),
                            #[trigger] dw[j],
                        )
                })
            },
    {
        match self.validate_data(time, point_data, cell_data) {
            Ok(()) => (),
            Err(e) => {
                return Err(e);
            },
        }
        let mut ops = match self.writer.write_data_initialize(time) {
            Ok(o) => o,
            Err(e) => {
                proof {
                    assert(false);
                }
                return Err(e);
            },
        };
        let ghost init_ops = ops@;
        let format = self.writer.format();
        let mut new_attributes: Vec<Attribute> = Vec::new();
        let ghost pd = entries_of(point_data);
        let ghost cd = entries_of(cell_data);
        let ghost writer_init = self.writer;
        match point_data {
            Some(dm) => {
                self.collect_attributes(dm, Center::Node, time, format, &mut new_attributes, &mut ops);
            },
            None => (),
        }
        let ghost after_points_ops = ops@;
        let ghost attrs_after_points = new_attributes@;
        let ghost writer_mid = self.writer;
        match cell_data {
            Some(dm) => {
                self.collect_attributes(dm, Center::Cell, time, format, &mut new_attributes, &mut ops);
            },
            None => (),
        }
        proof {
            let w0 = old(self).writer;
            assert(attrs_after_points.len() == pd.len());
            assert(new_attributes@.len() == pd.len() + cd.len());
            assert(new_attributes@.take(pd.len() as int) == attrs_after_points);
            assert forall|j: int| 0 <= j < pd.len() + cd.len() implies attr_matches(
                #[trigger] new_attributes@[j],
                entry_at(pd, cd, j),
                center_at(pd.len() as int, j),
                w0,
                time@,
            ) by {
                if j < pd.len() {
                    assert(attrs_after_points[j] == new_attributes@.take(pd.len() as int)[j]);
                    assert(attrs_after_points[j] == new_attributes@[j]);
                    assert(attr_matches(
                        attrs_after_points[j],
                        pd[j],
                        Center::Node,
                        writer_init,
                        time@,
                    ));
                } else {
                    assert(attr_matches(
                        new_attributes@[attrs_after_points.len() + (j - pd.len())],
                        cd[j - pd.len()],
                        Center::Cell,
                        writer_mid,
                        time@,
                    ));
                }
            }
        }
        match self.writer.write_data_finalize() {
            Ok(()) => (),
            Err(e) => {
                proof {
                    assert(false);
                }
                return Err(e);
            },
        }
        let geometry_ref = DataItem::new_reference(&self.data_items[0], "/Xdmf/Domain/DataItem");
        let topology_ref = DataItem::new_reference(&self.data_items[1], "/Xdmf/Domain/DataItem");
        let geometry = Geometry { geometry_type: GeometryType::XYZ, data_item: geometry_ref };
        let topology = Topology {
            topology_type: TopologyType::Mixed,
            number_of_elements: dec_u64(self.num_cells as u64),
            data_item: topology_ref,
        };
        let mut grid_name: String = "time_series-t".to_owned();
        grid_name.append(time);
        let grid = Grid {
            name: grid_name,
            grid_type: GridType::Uniform,
            collection_type: None,
            geometry: Some(geometry),
            topology: Some(topology),
            grids: None,
            time: Some(Time::new(time)),
            attributes: Some(new_attributes),
        };
        let ghost old_steps = self.steps@;
        let ghost old_times = self.times@;
        self.steps.push(grid);
        self.times.push(time.to_owned());
        proof {
            assert(self.times@.take(old_times.len() as int) =~= old_times);
            assert(self.steps@.take(old_steps.len() as int) =~= old_steps);
        }
        let mut commit_ops = self.write();
        let ghost mid_ops = ops@;
        let ghost commit_part = commit_ops@;
        ops.append(&mut commit_ops);
        proof {
            assert(ops@.skip(ops@.len() - 2) =~= commit_part.skip(flush_count(self.writer)));
            match old(self).writer {
                DataWriter::Ascii(_) => {
                    assert(after_points_ops.len() == pd.len());
                    assert(mid_ops.len() == pd.len() + cd.len());
                    assert(mid_ops.take(pd.len() as int) == after_points_ops);
                    assert forall|j: int|
                        0 <= j < pd.len() + cd.len() && (old(self).writer
                            matches DataWriter::Ascii(_)) implies ascii_step_op_ok(
                        old(self).writer,
                        #[trigger] ops@[j],
                        time@,
                        entry_at(pd, cd, j),
                        center_at(pd.len() as int, j),
                    ) by {
                        assert(ops@[j] == mid_ops[j]);
                        if j < pd.len() {
                            assert(mid_ops[j] == mid_ops.take(pd.len() as int)[j]);
                            assert(mid_ops[j] == after_points_ops[j]);
                        }
                    }
                },
                DataWriter::Hdf5SingleFile(_) => {
                    assert forall|j: int| 0 <= j < ops@.len() - 2 implies is_store_op(
                        #[trigger] ops@[j],
                    ) by {
                        if j < mid_ops.len() {
                            assert(ops@[j] == mid_ops[j]);
                            if j < after_points_ops.len() {
                                assert(mid_ops.take(after_points_ops.len() as int)[j]
                                    == mid_ops[j]);
                                assert(mid_ops[j] == after_points_ops[j]);
                            }
                        } else {
                            assert(ops@[j] == commit_part[j - mid_ops.len()]);
                            assert(j == mid_ops.len());
                        }
                    }

                    let pointseg = after_points_ops.skip(init_ops.len() as int);
                    let cellseg = mid_ops.skip(after_points_ops.len() as int);
                    assert(after_points_ops =~= init_ops + pointseg);
                    assert(mid_ops =~= after_points_ops + cellseg);
                    assert(ops@ =~= init_ops + pointseg + cellseg + commit_part);
                    lemma_dataset_writes_none(init_ops);
                    assert forall|ci: int|
                        0 <= ci < commit_part.len() implies !is_dataset_write(
                        #[trigger] commit_part[ci],
                    ) by {
                        let f = flush_count(old(self).writer);
                        assert(commit_part.skip(f)[0] == commit_part[f]);
                        assert(commit_part.skip(f)[1] == commit_part[f + 1]);
                    }
                    lemma_dataset_writes_none(commit_part);
                    lemma_dataset_writes_add(init_ops + pointseg + cellseg, commit_part);
                    lemma_dataset_writes_add(init_ops + pointseg, cellseg);
                    lemma_dataset_writes_add(init_ops, pointseg);
                    assert(dataset_writes(ops@) =~= dataset_writes(pointseg) + dataset_writes(
                        cellseg,
                    ));
                    assert(dataset_writes(pointseg).len() == pd.len());
                    assert(dataset_writes(cellseg).len() == cd.len());
                    assert forall|j: int|
                        0 <= j < pd.len() + cd.len() implies step_dataset_write(
                        old(self).writer,
                        time@,
                        center_at(pd.len() as int, j),
                        entry_at(pd, cd, j),
                        #[trigger] dataset_writes(ops@)[j],
                    ) by {
                        if j < pd.len() {
                            assert(dataset_writes(ops@)[j] == dataset_writes(pointseg)[j]);
                            assert(step_dataset_write(
                                writer_init,
                                time@,
                                Center::Node,
                                pd[j],
                                dataset_writes(pointseg)[j],
                            ));
                        } else {
                            assert(dataset_writes(ops@)[j] == dataset_writes(cellseg)[j
                                - pd.len()]);
                            assert(step_dataset_write(
                                writer_mid,
                                time@,
                                Center::Cell,
                                cd[j - pd.len()],
                                dataset_writes(cellseg)[j - pd.len()],
                            ));
                        }
                    }
                },
                DataWriter::Hdf5MultipleFiles(_) => {
                    assert forall|j: int| 0 <= j < ops@.len() - 2 implies is_store_op(
                        #[trigger] ops@[j],
                    ) by {
                        assert(ops@[j] == mid_ops[j]);
                        if j < after_points_ops.len() {
                            assert(mid_ops.take(after_points_ops.len() as int)[j] == mid_ops[j]);
                            assert(mid_ops[j] == after_points_ops[j]);
                        }
                    }

                    let pointseg = after_points_ops.skip(init_ops.len() as int);
                    let cellseg = mid_ops.skip(after_points_ops.len() as int);
                    assert(after_points_ops =~= init_ops + pointseg);
                    assert(mid_ops =~= after_points_ops + cellseg);
                    assert(ops@ =~= init_ops + pointseg + cellseg + commit_part);
                    lemma_dataset_writes_none(init_ops);
                    assert forall|ci: int|
                        0 <= ci < commit_part.len() implies !is_dataset_write(
                        #[trigger] commit_part[ci],
                    ) by {
                        let f = flush_count(old(self).writer);
                        assert(commit_part.skip(f)[0] == commit_part[f]);
                        assert(commit_part.skip(f)[1] == commit_part[f + 1]);
                    }
                    lemma_dataset_writes_none(commit_part);
                    lemma_dataset_writes_add(init_ops + pointseg + cellseg, commit_part);
                    lemma_dataset_writes_add(init_ops + pointseg, cellseg);
                    lemma_dataset_writes_add(init_ops, pointseg);
                    assert(dataset_writes(ops@) =~= dataset_writes(pointseg) + dataset_writes(
                        cellseg,
                    ));
                    assert(dataset_writes(pointseg).len() == pd.len());
                    assert(dataset_writes(cellseg).len() == cd.len());
                    assert forall|j: int|
                        0 <= j < pd.len() + cd.len() implies step_dataset_write(
                        old(self).writer,
                        time@,
                        center_at(pd.len() as int, j),
                        entry_at(pd, cd, j),
                        #[trigger] dataset_writes(ops@)[j],
                    ) by {
                        if j < pd.len() {
                            assert(dataset_writes(ops@)[j] == dataset_writes(pointseg)[j]);
                            assert(step_dataset_write(
                                writer_init,
                                time@,
                                Center::Node,
                                pd[j],
                                dataset_writes(pointseg)[j],
                            ));
                        } else {
                            assert(dataset_writes(ops@)[j] == dataset_writes(cellseg)[j
                                - pd.len()]);
                            assert(step_dataset_write(
                                writer_mid,
                                time@,
                                Center::Cell,
                                cd[j - pd.len()],
                                dataset_writes(cellseg)[j - pd.len()],
                            ));
                        }
                    }
                },
                _ => {},
            }
        }
        Ok(ops)
    }

    /// Persist the fields of one map through the backend, in order, and
    /// collect the attribute elements recording them.
    fn collect_attributes(
        &mut self,
        dm: &DataMap,
        center: Center,
        time: &str,
        format: Format,
        out_attrs: &mut Vec<Attribute>,
        out_ops: &mut Vec<FileOp>,
    )
        requires
            data_map_sizes_fit(dm@, entities_for(*old(self), center) as int),
            data_map_ok(dm@, entities_for(*old(self), center) as int),
            format == old(self).writer.spec_format(),
            bracket_open_with(old(self).writer, time@),
        ensures
            final(self).xdmf_file_name == old(self).xdmf_file_name,
            final(self).mesh_grid == old(self).mesh_grid,
            final(self).data_items == old(self).data_items,
            final(self).steps == old(self).steps,
            final(self).times == old(self).times,
            final(self).num_points == old(self).num_points,
            final(self).num_cells == old(self).num_cells,
            writer_step_frame(old(self).writer, final(self).writer),
            bracket_open_with(final(self).writer, time@),
            final(out_attrs)@.len() == old(out_attrs)@.len() + dm@.len(),
            final(out_attrs)@.take(old(out_attrs)@.len() as int) == old(out_attrs)@,
            forall|j: int|
                old(out_attrs)@.len() <= j < final(out_attrs)@.len() ==> attr_matches(
                    #[trigger] final(out_attrs)@[j],
                    dm@[j - old(out_attrs)@.len()],
                    center,
                    old(self).writer,
                    time@,
                ),
            final(out_ops)@.len() >= old(out_ops)@.len(),
            final(out_ops)@.take(old(out_ops)@.len() as int) == old(out_ops)@,
            old(self).writer matches DataWriter::AsciiInline(_) ==> final(out_ops)@ == old(
                out_ops,
            )@,
            old(self).writer matches DataWriter::Ascii(a) ==> final(out_ops)@.len() == old(
                out_ops,
            )@.len() + dm@.len() && forall|j: int|
                old(out_ops)@.len() <= j < final(out_ops)@.len() ==> (#[trigger] final(out_ops)@[j]
                    matches FileOp::WriteFile { path, contents } && path@ == a.txt_files_dir@
                    + seq!['/'] + crate::ascii_writer::AsciiWriter::spec_data_file_name(
                    time@,
                    center,
                    dm@[j - old(out_ops)@.len()].0@,
                ) && contents@ == crate::ascii_writer::values_line(
                    (dm@[j - old(out_ops)@.len()].1).1,
                ) + seq!['\n']),
            old(self).writer matches DataWriter::Hdf5SingleFile(_) ==> forall|j: int|
                old(out_ops)@.len() <= j < final(out_ops)@.len() ==> is_store_op(
                    #[trigger] final(out_ops)@[j],
                ),
            old(self).writer matches DataWriter::Hdf5MultipleFiles(_) ==> forall|j: int|
                old(out_ops)@.len() <= j < final(out_ops)@.len() ==> is_store_op(
                    #[trigger] final(out_ops)@[j],
                ),
            (old(self).writer matches DataWriter::Hdf5SingleFile(_) || old(self).writer
                matches DataWriter::Hdf5MultipleFiles(_)) ==> ({
                let dw = dataset_writes(final(out_ops)@.skip(old(out_ops)@.len() as int));
                &&& dw.len() == dm@.len()
                &&& forall|k: int|
                    0 <= k < dm@.len() ==> step_dataset_write(
                        old(self).writer,
                        time@,
                        center,
                        dm@[k],
                        #[trigger] dw[k],
                    )
            }),
    {
        let n = dm.len();
        proof {
            assert(out_ops@.skip(out_ops@.len() as int) =~= Seq::<FileOp>::empty());
        }
        let mut i: usize = 0;
        while i < n
            invariant
                i <= n,
                n == dm@.len(),
                data_map_sizes_fit(dm@, entities_for(*old(self), center) as int),
                data_map_ok(dm@, entities_for(*old(self), center) as int),
                format == old(self).writer.spec_format(),
                self.xdmf_file_name == old(self).xdmf_file_name,
                self.mesh_grid == old(self).mesh_grid,
                self.data_items == old(self).data_items,
                self.steps == old(self).steps,
                self.times == old(self).times,
                self.num_points == old(self).num_points,
                self.num_cells == old(self).num_cells,
                writer_step_frame(old(self).writer, self.writer),
                bracket_open_with(self.writer, time@),
                out_attrs@.len() == old(out_attrs)@.len() + i,
                out_attrs@.take(old(out_attrs)@.len() as int) == old(out_attrs)@,
                forall|j: int|
                    old(out_attrs)@.len() <= j < out_attrs@.len() ==> attr_matches(
                        #[trigger] out_attrs@[j],
                        dm@[j - old(out_attrs)@.len()],
                        center,
                        old(self).writer,
                        time@,
                    ),
                out_ops@.len() >= old(out_ops)@.len(),
                out_ops@.take(old(out_ops)@.len() as int) == old(out_ops)@,
                old(self).writer matches DataWriter::AsciiInline(_) ==> out_ops@ == old(out_ops)@,
                old(self).writer matches DataWriter::Ascii(a) ==> out_ops@.len() == old(
                    out_ops,
                )@.len() + i && forall|j: int|
                    old(out_ops)@.len() <= j < out_ops@.len() ==> (#[trigger] out_ops@[j]
                        matches FileOp::WriteFile { path, contents } && path@ == a.txt_files_dir@
                        + seq!['/'] + crate::ascii_writer::AsciiWriter::spec_data_file_name(
                        time@,
                        center,
                        dm@[j - old(out_ops)@.len()].0@,
                    ) && contents@ == crate::ascii_writer::values_line(
                        (dm@[j - old(out_ops)@.len()].1).1,
                    ) + seq!['\n']),
                old(self).writer matches DataWriter::Hdf5SingleFile(_) ==> forall|j: int|
                    old(out_ops)@.len() <= j < out_ops@.len() ==> is_store_op(
                        #[trigger] out_ops@[j],
                    ),
                old(self).writer matches DataWriter::Hdf5MultipleFiles(_) ==> forall|j: int|
                    old(out_ops)@.len() <= j < out_ops@.len() ==> is_store_op(
                        #[trigger] out_ops@[j],
                    ),
                (old(self).writer matches DataWriter::Hdf5SingleFile(_) || old(self).writer
                    matches DataWriter::Hdf5MultipleFiles(_)) ==> dataset_writes(
                    out_ops@.skip(old(out_ops)@.len() as int),
                ).len() == i && forall|k: int|
                    0 <= k < i ==> step_dataset_write(
                        old(self).writer,
                        time@,
                        center,
                        dm@[k],
                        #[trigger] dataset_writes(out_ops@.skip(old(out_ops)@.len() as int))[k],
                    ),
            decreases n - i,
        {
            let ghost seg_before = out_ops@.skip(old(out_ops)@.len() as int);
            let entry = &dm[i];
            proof {
                lemma_first_wrong_size_props(dm@, entities_for(*old(self), center) as int, 0);
                lemma_first_bad_name_props(dm@, 0);
                assert(entry_size_ok(dm@, entities_for(*old(self), center) as int, i as int));
                assert((dm@[i as int].1).0.spec_size() <= usize::MAX);
            }
            let (content, mut wops) = match self.writer.write_data(
                entry.0.as_str(),
                center,
                &(entry.1).1,
            ) {
                Ok(x) => x,
                Err(_) => {
                    proof {
                        assert(false);
                    }
                    vstd::pervasive::unreached()
                },
            };
            let data_item = DataItem {
                name: None,
                dimensions: Some((entry.1).1.dimensions((entry.1).0)),
                number_type: Some((entry.1).1.number_type()),
                format: Some(format),
                precision: Some((entry.1).1.precision()),
                data: content,
                reference: None,
            };
            let mut items: Vec<DataItem> = Vec::new();
            items.push(data_item);
            let attribute = Attribute {
                name: entry.0.as_str().to_owned(),
                attribute_type: (entry.1).0.into(),
                center,
                data_items: items,
            };
            out_attrs.push(attribute);
            let ghost wseg = wops@;
            out_ops.append(&mut wops);
            i += 1;
            proof {
                assert(out_attrs@.take(old(out_attrs)@.len() as int) =~= old(out_attrs)@);
                assert(out_ops@.take(old(out_ops)@.len() as int) =~= old(out_ops)@);
                assert(spec_entry_dims(dm@[i - 1]) =~= spec_entry_dims(dm@[i - 1]));
                match old(self).writer {
                    DataWriter::Hdf5SingleFile(_) | DataWriter::Hdf5MultipleFiles(_) => {
                        let seg = out_ops@.skip(old(out_ops)@.len() as int);
                        assert(seg =~= seg_before + wseg);
                        assert(is_dataset_write(wseg.last()));
                        assert(wseg.len() == 2 ==> !is_dataset_write(wseg[0]));
                        lemma_dataset_writes_field(wseg);
                        lemma_dataset_writes_add(seg_before, wseg);
                        assert(dataset_writes(seg) == dataset_writes(seg_before) + seq![
                            wseg.last(),
                        ]);
                        assert(dataset_writes(seg).len() == i);
                        assert forall|k: int| 0 <= k < i implies step_dataset_write(
                            old(self).writer,
                            time@,
                            center,
                            dm@[k],
                            #[trigger] dataset_writes(seg)[k],
                        ) by {
                            if k < i - 1 {
                                assert(dataset_writes(seg)[k] == dataset_writes(seg_before)[k]);
                            } else {
                                assert(dataset_writes(seg)[k] == wseg.last());
                            }
                        }
                    },
                    _ => {},
                }
            }
        }
    }
}

/// The entity count a placement's fields are sized against.
pub open spec fn entities_for(s: TimeSeriesDataWriter, center: Center) -> int {
    if center == Center::Node {
        s.num_points as int
    } else {
        s.num_cells as int
    }
}

/// Whether the backend's bracket is open for the given time token.
pub open spec fn bracket_open_with(w: DataWriter, time: Seq<char>) -> bool {
    match w {
        DataWriter::AsciiInline(_) => true,
        DataWriter::Ascii(a) => a.write_time matches Some(t) && t@ == time,
        DataWriter::Hdf5SingleFile(h) => h.write_time matches Some(t) && t@ == time,
        DataWriter::Hdf5MultipleFiles(h) => h.h5_data_file matches Some(f) && f@
            == crate::hdf5_writer::MultipleFilesHdf5Writer::spec_data_file(h.h5_files_dir@, time),
    }
}

/// How the backend's identifying fields persist across one field write.
pub open spec fn writer_step_frame(pre: DataWriter, cur: DataWriter) -> bool {
    match pre {
        DataWriter::AsciiInline(_) => cur matches DataWriter::AsciiInline(_),
        DataWriter::Ascii(a) => cur matches DataWriter::Ascii(a1) && a1 == a,
        DataWriter::Hdf5SingleFile(h) => cur matches DataWriter::Hdf5SingleFile(h1)
            && h1.h5_file_path == h.h5_file_path && h1.write_time == h.write_time && h1.mesh_written
            == h.mesh_written,
        DataWriter::Hdf5MultipleFiles(h) => cur matches DataWriter::Hdf5MultipleFiles(h1)
            && h1.h5_files_dir == h.h5_files_dir && h1.h5_data_file == h.h5_data_file,
    }
}

/// Which message a rejected time-step write carries: the first violation
/// found, in validation order.
pub open spec fn validate_failure_message(
    s: TimeSeriesDataWriter,
    time: Seq<char>,
    pd: Seq<DataEntry>,
    cd: Seq<DataEntry>,
    msg: Seq<char>,
) -> bool {
    let np = s.num_points as int;
    let nc = s.num_cells as int;
    let fwp = first_wrong_size(pd, np, 0);
    let fwc = first_wrong_size(cd, nc, 0);
    let fbp = first_bad_name(pd, 0);
    let fbc = first_bad_name(cd, 0);
    &&& !is_float_token(time) ==> msg == msg_time_invalid(time)
    &&& is_float_token(time) && times_contain(s.times@, time) ==> msg == msg_time_duplicate(time)
    &&& is_float_token(time) && !times_contain(s.times@, time) && pd.len() + cd.len() == 0 ==> msg
        == msg_no_data()
    &&& is_float_token(time) && !times_contain(s.times@, time) && pd.len() + cd.len() > 0 && fwp
        < pd.len() ==> msg == msg_wrong_size(
        "point"@,
        pd[fwp].0@,
        np * (pd[fwp].1).0.spec_size(),
        (pd[fwp].1).1.spec_len(),
    )
    &&& is_float_token(time) && !times_contain(s.times@, time) && pd.len() + cd.len() > 0 && fwp
        == pd.len() && fbp < pd.len() ==> msg == msg_bad_name(pd[fbp].0@)
    &&& is_float_token(time) && !times_contain(s.times@, time) && pd.len() + cd.len() > 0 && fwp
        == pd.len() && fbp == pd.len() && first_dup_name(pd, 0) < pd.len() ==> msg == msg_dup_name(
        pd[first_dup_name(pd, 0)].0@,
    )
    &&& is_float_token(time) && !times_contain(s.times@, time) && pd.len() + cd.len() > 0
        && data_map_ok(pd, np) && fwc < cd.len() ==> msg == msg_wrong_size(
        "cell"@,
        cd[fwc].0@,
        nc * (cd[fwc].1).0.spec_size(),
        (cd[fwc].1).1.spec_len(),
    )
    &&& is_float_token(time) && !times_contain(s.times@, time) && pd.len() + cd.len() > 0
        && data_map_ok(pd, np) && fwc == cd.len() && fbc < cd.len() ==> msg == msg_bad_name(
        cd[fbc].0@,
    )
    &&& is_float_token(time) && !times_contain(s.times@, time) && pd.len() + cd.len() > 0
        && data_map_ok(pd, np) && fwc == cd.len() && fbc == cd.len() && first_dup_name(cd, 0)
        < cd.len() ==> msg == msg_dup_name(cd[first_dup_name(cd, 0)].0@)
}


/// The point and cell index sets of one named submesh.
pub struct SubMesh {
    /// The indices of the submesh's points in the mesh's point array.
    pub point_indices: Vec<u64>,
    /// The indices of the submesh's cells in the mesh's cell list.
    pub cell_indices: Vec<u64>,
}

impl TimeSeriesWriter {
    /// Write the mesh, then record each named submesh's point and cell
    /// index sets as two further shared data items of the domain, named
    /// `<name>_points` and `<name>_cells` and held as inline text. The
    /// items appear in the document from the next commit on.
    #[verifier::rlimit(100)]
    #[verifier::spinoff_prover]
    pub fn write_mesh_and_submeshes(
        self,
        points: &Vec<String>,
        cells: (&Vec<u64>, &Vec<CellType>),
        submeshes: &Vec<(String, SubMesh)>,
    ) -> (r: Result<(TimeSeriesDataWriter, Vec<FileOp>), XdmfError>)
        ensures
            r is Ok <==> mesh_valid(points@, cells.0@, cells.1@) && !(self.writer
                matches DataWriter::Hdf5SingleFile(h) && h.mesh_written),
            r matches Err(e) ==> (!mesh_valid(points@, cells.0@, cells.1@) ==> e
                is InvalidInput) && (mesh_valid(points@, cells.0@, cells.1@) ==> e
                is ResourceState),
            r matches Ok((ts, ops)) ==> {
                &&& bracket_closed(self.writer) ==> ts.wf()
                &&& ts.xdmf_file_name == self.xdmf_file_name
                &&& ts.num_points == points@.len() / 3
                &&& ts.num_cells == cells.1@.len()
                &&& ts.steps@.len() == 0
                &&& ts.times@.len() == 0
                &&& ts.data_items@.len() == 2 + 2 * submeshes@.len()
                &&& is_mesh_coords_item(ts.data_items@[0], self.writer, points@)
                &&& is_mesh_conn_item(
                    ts.data_items@[1],
                    self.writer,
                    encode_cells(cells.0@, cells.1@),
                )
                &&& submeshes_recorded(ts.data_items@, 2, submeshes@)
                &&& ({
                    let m = mesh_setup_count(self.writer);
                    let f = flush_count(self.writer);
                    &&& ops@.len() == m + f + 2
                    &&& mesh_setup_ops(
                        self.writer,
                        points@,
                        encode_cells(cells.0@, cells.1@),
                        ops@.take(m),
                    )
                    &&& is_commit_plan(
                        ops@.skip(m + f),
                        self.xdmf_file_name@,
                        spec_document_text_with(ts, ts.data_items@.take(2)),
                    )
                })
            },
    {
        let (mut ts, ops) = match self.write_mesh(points, cells) {
            Ok(x) => x,
            Err(e) => {
                return Err(e);
            },
        };
        let mut k: usize = 0;
        let ghost base = ts.data_items@;
        let ghost ts0 = ts;
        while k < submeshes.len()
            invariant
                k <= submeshes@.len(),
                ts.xdmf_file_name == ts0.xdmf_file_name,
                ts.writer == ts0.writer,
                ts.mesh_grid == ts0.mesh_grid,
                ts.steps == ts0.steps,
                ts.times == ts0.times,
                ts.num_points == ts0.num_points,
                ts.num_cells == ts0.num_cells,
                ts.data_items@.len() == base.len() + 2 * k,
                ts.data_items@.take(base.len() as int) == base,
                submeshes_recorded(
                    ts.data_items@.take(base.len() + 2 * k),
                    base.len() as int,
                    submeshes@.take(k as int),
                ),
            decreases submeshes@.len() - k,
        {
            let ghost items_before = ts.data_items@;
            let entry = &submeshes[k];
            let mut name_points: String = entry.0.as_str().to_owned();
            name_points.append("_points");
            let mut name_cells: String = entry.0.as_str().to_owned();
            name_cells.append("_cells");
            ts.data_items.push(build_submesh_item(name_points, &entry.1.point_indices));
            ts.data_items.push(build_submesh_item(name_cells, &entry.1.cell_indices));
            k += 1;
            proof {
                assert(ts.data_items@.take(base.len() as int) =~= base);
                let recorded = ts.data_items@.take(base.len() + 2 * k);
                let subs = submeshes@.take(k as int);
                assert(is_submesh_item(
                    recorded[base.len() + 2 * (k - 1)],
                    subs[k - 1].0@ + "_points"@,
                    subs[k - 1].1.point_indices@,
                ));
                assert forall|j: int| 0 <= j < subs.len() implies is_submesh_item(
                    #[trigger] recorded[base.len() + 2 * j],
                    subs[j].0@ + "_points"@,
                    subs[j].1.point_indices@,
                ) && is_submesh_item(
                    recorded[base.len() + 2 * j + 1],
                    subs[j].0@ + "_cells"@,
                    subs[j].1.cell_indices@,
                ) by {
                    if j < k - 1 {
                        let prev = items_before.take(base.len() + 2 * (k - 1));
                        let prev_subs = submeshes@.take(k - 1);
                        assert(is_submesh_item(
                            prev[base.len() + 2 * j],
                            prev_subs[j].0@ + "_points"@,
                            prev_subs[j].1.point_indices@,
                        ));
                        assert(prev[base.len() + 2 * j] == items_before[base.len() + 2 * j]);
                        assert(recorded[base.len() + 2 * j] == ts.data_items@[base.len() + 2 * j]);
                        assert(ts.data_items@[base.len() + 2 * j] == items_before[base.len() + 2
                            * j]);
                        assert(prev[base.len() + 2 * j + 1] == recorded[base.len() + 2 * j + 1]);
                    }
                }
            }
        }
        proof {
            assert(ts.data_items@.take(ts.data_items@.len() as int) =~= ts.data_items@);
            assert(submeshes@.take(submeshes@.len() as int) =~= submeshes@);
            assert(ts.data_items@.take(2) =~= ts0.data_items@);
            assert(spec_document_text_with(ts, ts.data_items@.take(2)) == spec_document_text(
                ts0,
            )) by {
                reveal(spec_document_text_with);
            }
        }
        Ok((ts, ops))
    }
}

/// Whether the data items record, from index `base` on, the point and
/// cell index sets of each submesh, two items per submesh.
pub open spec fn submeshes_recorded(
    items: Seq<DataItem>,
    base: int,
    submeshes: Seq<(String, SubMesh)>,
) -> bool {
    forall|k: int|
        0 <= k < submeshes.len() ==> is_submesh_item(
            #[trigger] items[base + 2 * k],
            submeshes[k].0@ + "_points"@,
            submeshes[k].1.point_indices@,
        ) && is_submesh_item(
            items[base + 2 * k + 1],
            submeshes[k].0@ + "_cells"@,
            submeshes[k].1.cell_indices@,
        )
}

/// Whether a data item records one submesh index set: the derived name,
/// the flat length, unsigned integers, and the index line as inline
/// markup text, which is how the index sets are always held.
pub open spec fn is_submesh_item(d: DataItem, name: Seq<char>, indices: Seq<u64>) -> bool {
    &&& d.name matches Some(n) && n@ == name
    &&& d.dimensions matches Some(dm) && dm.0@ == seq![indices.len() as usize]
    &&& d.number_type == Some(NumberType::UInt)
    &&& d.format == Some(Format::XML)
    &&& d.precision == Some(8u8)
    &&& d.reference is None
    &&& d.data matches DataContent::Raw(s) && s@ == crate::ascii_writer::join_space(
        crate::ascii_writer::texts_of(indices),
    )
}

fn build_submesh_item(name: String, indices: &Vec<u64>) -> (d: DataItem)
    ensures
        is_submesh_item(d, name@, indices@),
{
    let mut dims: Vec<usize> = Vec::new();
    dims.push(indices.len());
    proof {
        assert(dims@ =~= seq![indices@.len() as usize]);
    }
    DataItem {
        name: Some(name),
        dimensions: Some(Dimensions(dims)),
        number_type: Some(NumberType::UInt),
        format: Some(Format::XML),
        precision: Some(8),
        data: DataContent::Raw(crate::ascii_writer::array_to_string_fmt(indices)),
        reference: None,
    }
}


/// Time steps appear in the final document in the order written: in a
/// well-formed post-mesh state, the temporal collection's k-th child grid
/// is stamped with the k-th time token recorded, for every k.
pub proof fn lemma_time_steps_in_written_order(s: TimeSeriesDataWriter, k: int)
    requires
        s.wf(),
        0 <= k < s.steps@.len(),
    ensures
        s.steps@[k].time matches Some(t) && t.value@ == s.times@[k]@,
{
}

} // verus!
