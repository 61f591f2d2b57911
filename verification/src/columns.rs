//! The table's columns as a closed set of variants, each paired with a pure
//! formatting function — no stringly-typed per-cell dispatch. Timestamps
//! are rendered through `chrono` behind a small trusted wrapper; byte
//! counts are handed out raw, because rendering them human-readably is
//! floating-point work that belongs to the rendering edge.

use vstd::prelude::*;

use crate::nav::{Node, NodeKind};

verus! {

/// The columns of the item table, in display order.
#[derive(Debug, Clone, Copy, PartialEq, Eq, Structural)]
pub enum Column {
    Name,
    Kind,
    Size,
    Created,
    Modified,
}

/// The header text of a column.
pub open spec fn title_spec(column: Column) -> Seq<char> {
    match column {
        Column::Name => "NAME"@,
        Column::Kind => "KIND"@,
        Column::Size => "SIZE"@,
        Column::Created => "CREATED"@,
        Column::Modified => "MODIFIED"@,
    }
}

/// The width of a column as a share of the table width, in thousandths.
pub open spec fn width_permille_spec(column: Column) -> u16 {
    match column {
        Column::Name => 700u16,
        Column::Kind => 70u16,
        Column::Size => 50u16,
        Column::Created => 90u16,
        Column::Modified => 90u16,
    }
}

impl Column {
    /// The header text of this column.
    pub fn title(&self) -> (r: String)
        ensures
            r@ == title_spec(*self),
    {
        match self {
            Column::Name => String::from_str("NAME"),
            Column::Kind => String::from_str("KIND"),
            Column::Size => String::from_str("SIZE"),
            Column::Created => String::from_str("CREATED"),
            Column::Modified => String::from_str("MODIFIED"),
        }
    }

    /// The width of this column, in thousandths of the table width.
    /// The five widths sum to exactly one table width.
    pub fn width_permille(&self) -> (r: u16)
        ensures
            r == width_permille_spec(*self),
    {
        match self {
            Column::Name => 700,
            Column::Kind => 70,
            Column::Size => 50,
            Column::Created => 90,
            Column::Modified => 90,
        }
    }

    /// All columns, in display order.
    pub fn all() -> (r: Vec<Column>)
        ensures
            r@ =~= seq![
                Column::Name,
                Column::Kind,
                Column::Size,
                Column::Created,
                Column::Modified,
            ],
    {
        let mut v: Vec<Column> = Vec::new();
        v.push(Column::Name);
        v.push(Column::Kind);
        v.push(Column::Size);
        v.push(Column::Created);
        v.push(Column::Modified);
        v
    }
}

/// The display label of an item kind.
pub open spec fn kind_label_spec(kind: NodeKind) -> Seq<char> {
    match kind {
        NodeKind::File => "File"@,
        NodeKind::Directory => "Directory"@,
        NodeKind::Unknown => "Unknown"@,
    }
}

/// The display label of an item kind.
pub fn kind_label(kind: NodeKind) -> (r: String)
    ensures
        r@ == kind_label_spec(kind),
{
    match kind {
        NodeKind::File => String::from_str("File"),
        NodeKind::Directory => String::from_str("Directory"),
        NodeKind::Unknown => String::from_str("Unknown"),
    }
}

/// Relies on chrono (`DateTime::from_timestamp`, `with_timezone` to `Local`,
/// `format("%B %d, %Y")`): turns seconds since the Unix epoch into a
/// "Month day, year" date in the machine's local time zone. The text depends
/// on that time zone, so nothing is promised of it; a timestamp outside
/// chrono's range renders as empty text.
#[verifier::external_body]
fn format_day(timestamp: i64) -> String {
    match chrono::DateTime::from_timestamp(timestamp, 0) {
        Some(utc) => utc.with_timezone(&chrono::Local).format("%B %d, %Y").to_string(),
        None => String::new(),
    }
}

/// What a cell holds: ready text, or a byte count the renderer still has to
/// make human-readable (that rendering is floating-point work and stays at
/// the edge).
#[derive(Debug, Clone, PartialEq, Eq)]
pub enum CellContent {
    Text(String),
    SizeInBytes(u64),
}

/// The content shown for `node` in `column`. Name and kind are pinned down
/// exactly, the size cell hands out the byte count itself, and the two date
/// columns show whatever the local-time rendering of the stored timestamp is.
pub fn cell_content(node: &Node, column: Column) -> (r: CellContent)
    ensures
        column == Column::Name ==> (r matches CellContent::Text(t) && t@ == node@.name),
        column == Column::Kind ==> (r matches CellContent::Text(t) && t@ == kind_label_spec(
            node.kind,
        )),
        column == Column::Size ==> r == CellContent::SizeInBytes(node.size),
        column == Column::Created || column == Column::Modified ==> r is Text,
{
    match column {
        Column::Name => CellContent::Text(node.name.clone()),
        Column::Kind => CellContent::Text(kind_label(node.kind)),
        Column::Size => CellContent::SizeInBytes(node.size),
        Column::Created => CellContent::Text(format_day(node.created)),
        Column::Modified => CellContent::Text(format_day(node.modified)),
    }
}

} // verus!
