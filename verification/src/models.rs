//! The record model: the fixed-shape node record and its binary form.

use vstd::prelude::*;
use vstd::utf8::encode_utf8;
use crate::archive::{
    archive_bound, archive_rows, archived, fits_aligned_buffer, max_aligned_len, row_views,
    unarchive_rows, unarchived, MAX_ARCHIVE_SIZE, ROOT_SIZE, ROW_SIZE,
};

verus! {

/// One cached graph node.
///
/// The coordinates are held as the bit patterns of single-precision floats,
/// so that a record read back is the record written, bit for bit.
#[derive(Clone, Debug, PartialEq, Eq)]
pub struct LiteNode {
    /// The node's identifier. Two records may share one.
    pub id: u16,
    /// The bits of the horizontal coordinate.
    pub x: u32,
    /// The bits of the vertical coordinate.
    pub y: u32,
    /// The label of the node's icon.
    pub icon: String,
}

/// The mathematical value of a `LiteNode`.
pub struct LiteNodeView {
    pub id: u16,
    pub x: u32,
    pub y: u32,
    pub icon: Seq<char>,
}

impl View for LiteNode {
    type V = LiteNodeView;

    open spec fn view(&self) -> LiteNodeView {
        LiteNodeView { id: self.id, x: self.x, y: self.y, icon: self.icon@ }
    }
}

/// The values of a sequence of records, in order.
pub open spec fn views(nodes: Seq<LiteNode>) -> Seq<LiteNodeView> {
    nodes.map_values(|n: LiteNode| n@)
}

/// The row that stands for a record in an archive.
pub open spec fn row_of(node: LiteNodeView) -> (u16, u32, u32, Seq<char>) {
    (node.id, node.x, node.y, node.icon)
}

/// The record that a row of an archive stands for.
pub open spec fn node_of(row: (u16, u32, u32, Seq<char>)) -> LiteNodeView {
    LiteNodeView { id: row.0, x: row.1, y: row.2, icon: row.3 }
}

/// The rows of a sequence of records, in order.
pub open spec fn rows_of(nodes: Seq<LiteNodeView>) -> Seq<(u16, u32, u32, Seq<char>)> {
    nodes.map_values(|n: LiteNodeView| row_of(n))
}

/// The records of a sequence of rows, in order.
pub open spec fn nodes_of(rows: Seq<(u16, u32, u32, Seq<char>)>) -> Seq<LiteNodeView> {
    rows.map_values(|r: (u16, u32, u32, Seq<char>)| node_of(r))
}

/// The failure of `encode`: the records have no archive.
#[derive(Clone, Copy, Debug, PartialEq, Eq, Structural)]
pub struct EncodeError;

/// The failure of `decode`: the bytes are not an archive of records.
#[derive(Clone, Copy, Debug, PartialEq, Eq, Structural)]
pub struct DecodeError;

/// The binary form of a sequence of records: the archive of their rows,
/// where the archive is small enough for its offsets and for the buffer
/// that it is read back from, and reads back as the same rows. `None`
/// where the records have no binary form.
pub open spec fn encoding(nodes: Seq<LiteNodeView>) -> Option<Seq<u8>> {
    if archive_bound(rows_of(nodes)) <= MAX_ARCHIVE_SIZE {
        match archived(rows_of(nodes)) {
            Some(bytes) => if bytes.len() <= max_aligned_len() && unarchived(bytes) == Some(
                rows_of(nodes),
            ) {
                Some(bytes)
            } else {
                None
            },
            None => None,
        }
    } else {
        None
    }
}

/// The records that a sequence of bytes stands for. `None` where the bytes
/// are not an archive of records.
pub open spec fn decoding(bytes: Seq<u8>) -> Option<Seq<LiteNodeView>> {
    if bytes.len() <= max_aligned_len() {
        match unarchived(bytes) {
            Some(rows) => Some(nodes_of(rows)),
            None => None,
        }
    } else {
        None
    }
}

/// Decoding the binary form of records gives the records back, in order
/// and equal in every field.
pub proof fn law_decoding_inverts_encoding(nodes: Seq<LiteNodeView>)
    requires
        encoding(nodes) is Some,
    ensures
        decoding(encoding(nodes)->0) == Some(nodes),
{
    lemma_nodes_of_rows(nodes);
}

/// Records that differ have binary forms that differ.
pub proof fn law_encoding_is_injective(one: Seq<LiteNodeView>, other: Seq<LiteNodeView>)
    requires
        encoding(one) is Some,
        encoding(one) == encoding(other),
    ensures
        one == other,
{
    law_decoding_inverts_encoding(one);
    law_decoding_inverts_encoding(other);
}

/// Reading the rows of records back as records gives the records.
pub proof fn lemma_nodes_of_rows(nodes: Seq<LiteNodeView>)
    ensures
        nodes_of(rows_of(nodes)) == nodes,
{
    assert(nodes_of(rows_of(nodes)) =~= nodes);
}

/// The bound of a prefix grows by the cost of the row that is added to it.
proof fn lemma_bound_step(rows: Seq<(u16, u32, u32, Seq<char>)>, i: int)
    requires
        0 <= i < rows.len(),
    ensures
        archive_bound(rows.take(i + 1)) == archive_bound(rows.take(i)) + ROW_SIZE + encode_utf8(
            rows[i].3,
        ).len(),
{
    assert(rows.take(i + 1).drop_last() =~= rows.take(i));
}

/// The bound of a prefix is at most the bound of the whole.
proof fn lemma_bound_monotonic(rows: Seq<(u16, u32, u32, Seq<char>)>, i: int)
    requires
        0 <= i <= rows.len(),
    ensures
        archive_bound(rows.take(i)) <= archive_bound(rows),
    decreases rows.len() - i,
{
    if i == rows.len() {
        assert(rows.take(i) =~= rows);
    } else {
        lemma_bound_step(rows, i);
        lemma_bound_monotonic(rows, i + 1);
    }
}

/// Says whether the archive of the records stays within `MAX_ARCHIVE_SIZE`.
pub fn archive_fits(nodes: &Vec<LiteNode>) -> (fits: bool)
    ensures
        fits == (archive_bound(rows_of(views(nodes@))) <= MAX_ARCHIVE_SIZE),
{
    let ghost rows = rows_of(views(nodes@));
    let mut total: u64 = ROOT_SIZE;
    let mut i: usize = 0;
    while i < nodes.len()
        invariant
            i <= nodes.len(),
            rows == rows_of(views(nodes@)),
            total == archive_bound(rows.take(i as int)),
            total <= MAX_ARCHIVE_SIZE,
        decreases nodes.len() - i,
    {
        let len: usize = nodes[i].icon.as_str().as_bytes().len();
        proof {
            assert(rows[i as int] == row_of(nodes[i as int]@));
            lemma_bound_step(rows, i as int);
            lemma_bound_monotonic(rows, i + 1);
        }
        if len > 0x7fff_ffff || total + ROW_SIZE + (len as u64) > MAX_ARCHIVE_SIZE {
            return false;
        }
        total = total + ROW_SIZE + (len as u64);
        i = i + 1;
    }
    proof {
        assert(rows.take(i as int) =~= rows);
    }
    true
}

/// The rows of the records, in order.
pub fn to_rows(nodes: &Vec<LiteNode>) -> (rows: Vec<(u16, u32, u32, String)>)
    ensures
        row_views(rows@) == rows_of(views(nodes@)),
{
    let mut rows: Vec<(u16, u32, u32, String)> = Vec::new();
    let mut i: usize = 0;
    while i < nodes.len()
        invariant
            i <= nodes.len(),
            rows.len() == i,
            row_views(rows@) == rows_of(views(nodes@)).take(i as int),
        decreases nodes.len() - i,
    {
        let node = &nodes[i];
        let ghost before = rows@;
        rows.push((node.id, node.x, node.y, node.icon.clone()));
        proof {
            assert(forall|j: int| 0 <= j < i ==> rows@[j] == before[j]);
            assert(row_views(rows@) =~= rows_of(views(nodes@)).take(i + 1)) by {
                assert forall|j: int| 0 <= j < i + 1 implies #[trigger] row_views(rows@)[j]
                    == rows_of(views(nodes@)).take(i + 1)[j] by {
                    if j < i {
                        assert(row_views(before)[j] == rows_of(views(nodes@)).take(i as int)[j]);
                    }
                }
            }
        }
        i = i + 1;
    }
    assert(rows_of(views(nodes@)).take(i as int) =~= rows_of(views(nodes@)));
    rows
}

/// The records that the rows stand for, in order.
pub fn from_rows(rows: &Vec<(u16, u32, u32, String)>) -> (nodes: Vec<LiteNode>)
    ensures
        views(nodes@) == nodes_of(row_views(rows@)),
{
    let mut nodes: Vec<LiteNode> = Vec::new();
    let mut i: usize = 0;
    while i < rows.len()
        invariant
            i <= rows.len(),
            nodes.len() == i,
            views(nodes@) == nodes_of(row_views(rows@)).take(i as int),
        decreases rows.len() - i,
    {
        let row = &rows[i];
        let ghost before = nodes@;
        nodes.push(LiteNode { id: row.0, x: row.1, y: row.2, icon: row.3.clone() });
        proof {
            assert(forall|j: int| 0 <= j < i ==> nodes@[j] == before[j]);
            assert(views(nodes@) =~= nodes_of(row_views(rows@)).take(i + 1)) by {
                assert forall|j: int| 0 <= j < i + 1 implies #[trigger] views(nodes@)[j]
                    == nodes_of(row_views(rows@)).take(i + 1)[j] by {
                    if j < i {
                        assert(views(before)[j] == nodes_of(row_views(rows@)).take(i as int)[j]);
                    }
                }
            }
        }
        i = i + 1;
    }
    assert(nodes_of(row_views(rows@)).take(i as int) =~= nodes_of(row_views(rows@)));
    nodes
}

/// Encodes the records. The bytes are their binary form, the same for the
/// same records every time, and decoding them gives the records back.
pub fn encode(records: &Vec<LiteNode>) -> (r: Result<Vec<u8>, EncodeError>)
    ensures
        r is Ok <==> encoding(views(records@)) is Some,
        r matches Ok(bytes) ==> encoding(views(records@)) == Some(bytes@),
        r matches Ok(bytes) ==> decoding(bytes@) == Some(views(records@)),
{
    if !archive_fits(records) {
        return Err(EncodeError);
    }
    let rows = to_rows(records);
    match archive_rows(&rows) {
        Ok(bytes) => {
            if fits_aligned_buffer(bytes.len()) {
                proof {
                    lemma_nodes_of_rows(views(records@));
                }
                Ok(bytes)
            } else {
                Err(EncodeError)
            }
        },
        Err(_) => Err(EncodeError),
    }
}

/// Decodes bytes into records: all of them, or an error where the bytes are
/// not an archive of records.
pub fn decode(bytes: &[u8]) -> (r: Result<Vec<LiteNode>, DecodeError>)
    ensures
        r is Ok <==> decoding(bytes@) is Some,
        r matches Ok(nodes) ==> decoding(bytes@) == Some(views(nodes@)),
{
    if !fits_aligned_buffer(bytes.len()) {
        return Err(DecodeError);
    }
    match unarchive_rows(bytes) {
        Ok(rows) => Ok(from_rows(&rows)),
        Err(_) => Err(DecodeError),
    }
}

} // verus!
