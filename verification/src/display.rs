//! The table the command-line tool prints for an arm's state.
use vstd::prelude::*;
use vstd::string::StringExecFns;

use crate::text::{decimal_string, format_i16, format_u64, signed_decimal_string, str_eq};

verus! {

/// The `comfy-table` crate's table.
#[verifier::external_type_specification]
#[verifier::external_body]
pub struct ExTable(comfy_table::Table);

/// The header cells of a table, as texts, when it has a header.
pub uninterp spec fn table_header(table: comfy_table::Table) -> Option<Seq<Seq<char>>>;

/// The rows of a table, in order, each as its cells' texts.
pub uninterp spec fn table_rows(table: comfy_table::Table) -> Seq<Seq<Seq<char>>>;

/// The characters a table is drawn with, as the preset string that
/// `Table::current_style_as_preset` gives: one character per component, a
/// space for a component that is not drawn.
pub uninterp spec fn table_style(table: comfy_table::Table) -> Seq<char>;

/// The table's columns fit the width it is drawn in
/// (`ContentArrangement::Dynamic`).
pub uninterp spec fn table_is_dynamic(table: comfy_table::Table) -> bool;

/// The text that comfy-table draws for a table with this style, arrangement,
/// header and rows, when drawn `width` characters wide (`None`: no width
/// known).
pub uninterp spec fn table_drawing(
    style: Seq<char>,
    dynamic: bool,
    header: Option<Seq<Seq<char>>>,
    rows: Seq<Seq<Seq<char>>>,
    width: Option<u16>,
) -> Seq<char>;

/// The texts of some cells.
pub open spec fn cell_texts(cells: Seq<String>) -> Seq<Seq<char>> {
    cells.map_values(|c: String| c@)
}

/// The `UTF8_FULL` preset of comfy-table.
pub open spec fn utf8_full_preset() -> Seq<char> {
    "\u{2502}\u{2502}\u{2500}\u{2500}\u{255e}\u{2550}\u{256a}\u{2561}\u{2506}\u{254c}\u{253c}\u{251c}\u{2524}\u{252c}\u{2534}\u{250c}\u{2510}\u{2514}\u{2518}"@
}

/// A style with the `UTF8_ROUND_CORNERS` modifier applied: the last four
/// components, the corners, become round.
pub open spec fn with_round_corners(style: Seq<char>) -> Seq<char> {
    style.take(15) + "\u{256d}\u{256e}\u{2570}\u{256f}"@
}

/// `comfy_table::Table::new`: an empty table, without header or rows, that
/// does not fit its columns to a width.
#[verifier::external_body]
fn table_new() -> (r: comfy_table::Table)
    ensures
        table_header(r) is None,
        table_rows(r) == Seq::<Seq<Seq<char>>>::empty(),
        !table_is_dynamic(r),
{
    comfy_table::Table::new()
}

/// `comfy_table::Table::load_preset` with the `UTF8_FULL` preset: every
/// component gets its character from the preset; nothing else changes.
#[verifier::external_body]
fn table_load_utf8_full(table: &mut comfy_table::Table)
    ensures
        table_style(*final(table)) == utf8_full_preset(),
        table_header(*final(table)) == table_header(*old(table)),
        table_rows(*final(table)) == table_rows(*old(table)),
        table_is_dynamic(*final(table)) == table_is_dynamic(*old(table)),
{
    table.load_preset(comfy_table::presets::UTF8_FULL);
}

/// `comfy_table::Table::apply_modifier` with the `UTF8_ROUND_CORNERS`
/// modifier: the four corners become round; nothing else changes.
#[verifier::external_body]
fn table_apply_round_corners(table: &mut comfy_table::Table)
    ensures
        table_style(*final(table)) == with_round_corners(table_style(*old(table))),
        table_header(*final(table)) == table_header(*old(table)),
        table_rows(*final(table)) == table_rows(*old(table)),
        table_is_dynamic(*final(table)) == table_is_dynamic(*old(table)),
{
    table.apply_modifier(comfy_table::modifiers::UTF8_ROUND_CORNERS);
}

/// `comfy_table::Table::set_content_arrangement` with
/// `ContentArrangement::Dynamic`: the columns fit the width the table is
/// drawn in; nothing else changes.
#[verifier::external_body]
fn table_arrange_dynamically(table: &mut comfy_table::Table)
    ensures
        table_is_dynamic(*final(table)),
        table_style(*final(table)) == table_style(*old(table)),
        table_header(*final(table)) == table_header(*old(table)),
        table_rows(*final(table)) == table_rows(*old(table)),
{
    table.set_content_arrangement(comfy_table::ContentArrangement::Dynamic);
}

/// `comfy_table::Table::set_header` with one cell per text: the header
/// becomes these cells; nothing else changes.
#[verifier::external_body]
fn table_set_header(table: &mut comfy_table::Table, cells: Vec<String>)
    ensures
        table_header(*final(table)) == Some(cell_texts(cells@)),
        table_style(*final(table)) == table_style(*old(table)),
        table_rows(*final(table)) == table_rows(*old(table)),
        table_is_dynamic(*final(table)) == table_is_dynamic(*old(table)),
{
    table.set_header(cells);
}

/// `comfy_table::Table::add_row` with one cell per text: the row is added
/// after the others; nothing else changes.
#[verifier::external_body]
fn table_add_row(table: &mut comfy_table::Table, cells: Vec<String>)
    ensures
        table_rows(*final(table)) == table_rows(*old(table)).push(cell_texts(cells@)),
        table_style(*final(table)) == table_style(*old(table)),
        table_header(*final(table)) == table_header(*old(table)),
        table_is_dynamic(*final(table)) == table_is_dynamic(*old(table)),
{
    table.add_row(cells);
}

/// The table drawn as text (its `Display`). The width it is drawn in comes
/// from the terminal the process runs in, so the text is the drawing for
/// some width.
#[verifier::external_body]
fn table_render(table: &comfy_table::Table) -> (r: String)
    ensures
        exists|width: Option<u16>|
            r@ == table_drawing(
                table_style(*table),
                table_is_dynamic(*table),
                table_header(*table),
                table_rows(*table),
                width,
            ),
{
    table.to_string()
}

/// A calibrated joint angle as text: as a percentage (for the gripper) and
/// in degrees (for the other joints).
#[derive(Debug, Clone)]
pub struct AngleText {
    pub percent: String,
    pub degrees: String,
}

/// One joint's line of the table, its numbers already written as text.
#[derive(Debug, Clone)]
pub struct ArmTableRow {
    pub joint: String,
    pub motor_id: u8,
    pub raw_position: i16,
    pub position_rad: String,
    pub position_deg: String,
    pub angle: Option<AngleText>,
}

/// Some joint has a calibrated angle.
pub open spec fn has_calibration(rows: Seq<ArmTableRow>) -> bool {
    exists|i: int| 0 <= i < rows.len() && (#[trigger] rows[i]).angle is Some
}

/// The column titles: an angle column only when some joint is calibrated.
pub open spec fn header_cells(calibrated: bool) -> Seq<Seq<char>> {
    seq!["Joint"@, "ID"@, "Raw Pos"@, "Pos (rad)"@, "Pos (deg)"@] + if calibrated {
        seq!["Joint Angle"@]
    } else {
        Seq::empty()
    }
}

/// The angle cell of a joint: the percentage for the gripper, degrees for the
/// others, `-` when the joint is not calibrated.
pub open spec fn angle_cell(row: ArmTableRow) -> Seq<char> {
    match row.angle {
        Some(a) => if row.joint@ == "gripper"@ {
            a.percent@
        } else {
            a.degrees@
        },
        None => "-"@,
    }
}

/// The cells of a joint's line.
pub open spec fn row_cells(row: ArmTableRow, calibrated: bool) -> Seq<Seq<char>> {
    seq![
        row.joint@,
        decimal_string(row.motor_id as nat),
        signed_decimal_string(row.raw_position as int),
        row.position_rad@,
        row.position_deg@,
    ] + if calibrated {
        seq![angle_cell(row)]
    } else {
        Seq::empty()
    }
}

/// The title line of the printed state.
pub open spec fn arm_state_title(label: Seq<char>, timestamp: Seq<char>) -> Seq<char> {
    "SO101 Arm State ["@ + label + "] ("@ + timestamp + ")\n"@
}

/// Whether some joint has a calibrated angle.
pub fn any_calibrated(rows: &Vec<ArmTableRow>) -> (r: bool)
    ensures
        r == has_calibration(rows@),
{
    let mut i: usize = 0;
    while i < rows.len()
        invariant
            i <= rows@.len(),
            forall|j: int| 0 <= j < i ==> (#[trigger] rows@[j]).angle is None,
        decreases rows@.len() - i,
    {
        if rows[i].angle.is_some() {
            return true;
        }
        i = i + 1;
    }
    false
}

fn push_text(cells: &mut Vec<String>, text: &str)
    ensures
        final(cells)@.len() == old(cells)@.len() + 1,
        forall|i: int| 0 <= i < old(cells)@.len() ==> final(cells)@[i] == old(cells)@[i],
        final(cells)@[old(cells)@.len() as int]@ == text@,
{
    cells.push(String::from_str(text));
}

/// The column titles of the table for these joints.
pub fn arm_table_header(rows: &Vec<ArmTableRow>) -> (r: Vec<String>)
    ensures
        cell_texts(r@) == header_cells(has_calibration(rows@)),
{
    let calibrated = any_calibrated(rows);
    let mut cells: Vec<String> = Vec::new();
    push_text(&mut cells, "Joint");
    push_text(&mut cells, "ID");
    push_text(&mut cells, "Raw Pos");
    push_text(&mut cells, "Pos (rad)");
    push_text(&mut cells, "Pos (deg)");
    if calibrated {
        push_text(&mut cells, "Joint Angle");
    }
    assert(cell_texts(cells@) =~= header_cells(calibrated));
    cells
}

/// The cells of a joint's line; `calibrated` says whether the table has an
/// angle column.
pub fn arm_table_row(row: &ArmTableRow, calibrated: bool) -> (r: Vec<String>)
    ensures
        cell_texts(r@) == row_cells(*row, calibrated),
{
    let mut cells: Vec<String> = Vec::new();
    push_text(&mut cells, row.joint.as_str());
    let id = format_u64(row.motor_id as u64);
    push_text(&mut cells, id.as_str());
    let raw = format_i16(row.raw_position);
    push_text(&mut cells, raw.as_str());
    push_text(&mut cells, row.position_rad.as_str());
    push_text(&mut cells, row.position_deg.as_str());
    if calibrated {
        let angle = match &row.angle {
            Some(a) => {
                if str_eq(row.joint.as_str(), "gripper") {
                    a.percent.as_str()
                } else {
                    a.degrees.as_str()
                }
            },
            None => "-",
        };
        push_text(&mut cells, angle);
    }
    assert(cell_texts(cells@) =~= row_cells(*row, calibrated));
    cells
}

/// The lines of the table for these joints, one per joint, in order.
pub open spec fn arm_table_rows(rows: Seq<ArmTableRow>) -> Seq<Seq<Seq<char>>> {
    Seq::new(rows.len(), |i: int| row_cells(rows[i], has_calibration(rows)))
}

/// The style the arm-state table is drawn in: comfy-table's `UTF8_FULL`
/// preset with round corners.
pub open spec fn arm_table_style() -> Seq<char> {
    with_round_corners(utf8_full_preset())
}

/// The arm's state as printed: the title line with the label and the time,
/// then the table drawn (for the terminal's width, with columns that fit
/// it) in [`arm_table_style`], with the column titles of [`header_cells`]
/// and one line per joint, in order, as [`row_cells`] gives it.
pub fn format_arm_state(label: &str, timestamp: &str, rows: &Vec<ArmTableRow>) -> (r: String)
    ensures
        exists|width: Option<u16>|
            r@ == arm_state_title(label@, timestamp@) + table_drawing(
                arm_table_style(),
                true,
                Some(header_cells(has_calibration(rows@))),
                arm_table_rows(rows@),
                width,
            ),
{
    let calibrated = any_calibrated(rows);
    let mut table = table_new();
    table_load_utf8_full(&mut table);
    table_apply_round_corners(&mut table);
    table_arrange_dynamically(&mut table);
    table_set_header(&mut table, arm_table_header(rows));
    let mut i: usize = 0;
    while i < rows.len()
        invariant
            i <= rows@.len(),
            calibrated == has_calibration(rows@),
            table_style(table) == arm_table_style(),
            table_is_dynamic(table),
            table_header(table) == Some(header_cells(has_calibration(rows@))),
            table_rows(table) == arm_table_rows(rows@).take(i as int),
        decreases rows@.len() - i,
    {
        let cells = arm_table_row(&rows[i], calibrated);
        let ghost before = table_rows(table);
        table_add_row(&mut table, cells);
        assert(arm_table_rows(rows@).take(i + 1) =~= before.push(cell_texts(cells@)));
        i = i + 1;
    }
    assert(arm_table_rows(rows@).take(rows@.len() as int) =~= arm_table_rows(rows@));
    let drawn = table_render(&table);
    let mut out = String::from_str("SO101 Arm State [");
    out.append(label);
    out.append("] (");
    out.append(timestamp);
    out.append(")\n");
    out.append(drawn.as_str());
    assert(out@ == arm_state_title(label@, timestamp@) + drawn@);
    out
}

} // verus!
