//! The panels of the dashboard.
//!
//! The screen is cut four times. From top to bottom it holds the overview
//! of the machine, the process list, the log of the console and the input
//! line. The overview is cut into a column for the cores on the left and a
//! column for the graphs on the right. The graphs column holds the processor
//! graph above the memory graph. The cores column holds one box of three
//! rows for each core, and below them what is left over.

use vstd::prelude::*;
use crate::layout::{
    base_sum, bonus, define_layout, layout_of, lemma_layout_tiles_parent,
    lemma_slots_exact_when_bases_fit, min_count, wanted_sum, Constraint, Direction, Rect,
};

verus! {

/// The rows of one core's box, and of the input line.
pub const BOX_ROWS: u16 = 3;

/// The part of the screen that the log takes when it is shown, in
/// hundredths.
pub const LOG_PERCENT: u16 = 20;

/// The rectangles of all panels.
#[derive(Debug, PartialEq, Eq)]
pub struct Dashboard {
    /// Overview, process list, log and input line, from top to bottom.
    pub main_view: Vec<Rect>,
    /// The cores column and the graphs column of the overview.
    pub system_overview: Vec<Rect>,
    /// The processor graph and the memory graph.
    pub sparklines: Vec<Rect>,
    /// One box for each core, then the rest of the cores column.
    pub cpu_cores: Vec<Rect>,
}

pub struct DashboardView {
    pub main_view: Seq<Rect>,
    pub system_overview: Seq<Rect>,
    pub sparklines: Seq<Rect>,
    pub cpu_cores: Seq<Rect>,
}

impl View for Dashboard {
    type V = DashboardView;

    open spec fn view(&self) -> DashboardView {
        DashboardView {
            main_view: self.main_view@,
            system_overview: self.system_overview@,
            sparklines: self.sparklines@,
            cpu_cores: self.cpu_cores@,
        }
    }
}

/// The rows that the boxes of `cores` cores need, as far as a screen can
/// have rows.
pub open spec fn overview_rows(cores: nat) -> u16 {
    if BOX_ROWS * cores > u16::MAX {
        u16::MAX
    } else {
        (BOX_ROWS * cores) as u16
    }
}

/// How the screen is cut from top to bottom: the overview is as tall as the
/// boxes of all cores, the log takes a fifth of the screen or nothing, the
/// input line three rows, and the process list the rest.
pub open spec fn main_view_plan(cores: nat, console_visible: bool) -> Seq<Constraint> {
    seq![
        Constraint::Length(overview_rows(cores)),
        Constraint::Min(0),
        Constraint::Percentage(if console_visible { LOG_PERCENT } else { 0 }),
        Constraint::Length(BOX_ROWS),
    ]
}

/// Two halves.
pub open spec fn halves_plan() -> Seq<Constraint> {
    seq![Constraint::Percentage(50), Constraint::Percentage(50)]
}

/// One box for each core, and a slot for the rest.
pub open spec fn cores_plan(cores: nat) -> Seq<Constraint> {
    Seq::new(cores, |i: int| Constraint::Length(BOX_ROWS)).push(Constraint::Min(0))
}

/// The panels on a screen of the size of `area`.
pub open spec fn dashboard_of(area: Rect, cores: nat, console_visible: bool) -> DashboardView {
    let main_view = layout_of(Direction::Vertical, main_view_plan(cores, console_visible), area);
    let system_overview = layout_of(Direction::Horizontal, halves_plan(), main_view[0]);
    DashboardView {
        main_view,
        system_overview,
        sparklines: layout_of(Direction::Vertical, halves_plan(), system_overview[1]),
        cpu_cores: layout_of(Direction::Vertical, cores_plan(cores), system_overview[0]),
    }
}

/// The constraints that cut the screen from top to bottom.
pub fn main_view_constraints(cores: usize, console_visible: bool) -> (plan: Vec<Constraint>)
    ensures
        plan@ == main_view_plan(cores as nat, console_visible),
{
    let rows: u16 = if cores > (u16::MAX / BOX_ROWS) as usize {
        u16::MAX
    } else {
        cores as u16 * BOX_ROWS
    };
    let log: u16 = if console_visible {
        LOG_PERCENT
    } else {
        0
    };
    let mut plan: Vec<Constraint> = Vec::new();
    plan.push(Constraint::Length(rows));
    plan.push(Constraint::Min(0));
    plan.push(Constraint::Percentage(log));
    plan.push(Constraint::Length(BOX_ROWS));
    plan
}

/// The constraints that cut a panel in two halves.
pub fn halves_constraints() -> (plan: Vec<Constraint>)
    ensures
        plan@ == halves_plan(),
{
    let mut plan: Vec<Constraint> = Vec::new();
    plan.push(Constraint::Percentage(50));
    plan.push(Constraint::Percentage(50));
    plan
}

/// The constraints that cut the cores column into boxes.
pub fn cpu_core_constraints(cores: usize) -> (plan: Vec<Constraint>)
    ensures
        plan@ == cores_plan(cores as nat),
{
    let mut plan: Vec<Constraint> = Vec::new();
    let mut i: usize = 0;
    while i < cores
        invariant
            0 <= i <= cores,
            plan@ == Seq::new(i as nat, |k: int| Constraint::Length(BOX_ROWS)),
        decreases cores - i,
    {
        plan.push(Constraint::Length(BOX_ROWS));
        i += 1;
    }
    plan.push(Constraint::Min(0));
    plan
}

/// Computes the panels for a screen of the size of `area`, a machine with
/// `cores` cores, and the log shown or hidden.
pub fn compose(area: Rect, cores: usize, console_visible: bool) -> (dashboard: Dashboard)
    requires
        area.in_bounds(),
    ensures
        dashboard@ == dashboard_of(area, cores as nat, console_visible),
        dashboard@.main_view.len() == 4,
        dashboard@.system_overview.len() == 2,
        dashboard@.sparklines.len() == 2,
        dashboard@.cpu_cores.len() == cores + 1,
{
    let main_view = define_layout(
        Direction::Vertical,
        &main_view_constraints(cores, console_visible),
        area,
    );
    let system_overview = define_layout(Direction::Horizontal, &halves_constraints(), main_view[0]);
    let sparklines = define_layout(Direction::Vertical, &halves_constraints(), system_overview[1]);
    let cpu_cores = define_layout(
        Direction::Vertical,
        &cpu_core_constraints(cores),
        system_overview[0],
    );
    Dashboard { main_view, system_overview, sparklines, cpu_cores }
}

proof fn lemma_boxes_claim_their_rows(cores: nat, extent: nat, n: nat)
    requires
        n <= cores,
    ensures
        base_sum(cores_plan(cores), extent, n) == BOX_ROWS * n,
        min_count(cores_plan(cores), n) == 0,
    decreases n,
{
    if n > 0 {
        lemma_boxes_claim_their_rows(cores, extent, (n - 1) as nat);
    }
}

proof fn lemma_boxes_want_their_rows(cores: nat, extent: nat, n: nat)
    requires
        n <= cores,
    ensures
        wanted_sum(cores_plan(cores), extent, n) == BOX_ROWS * n,
    decreases n,
{
    if n > 0 {
        lemma_boxes_want_their_rows(cores, extent, (n - 1) as nat);
        lemma_boxes_claim_their_rows(cores, extent, cores);
        assert(min_count(cores_plan(cores), cores + 1) == 1);
        assert(bonus(cores_plan(cores), extent, n - 1) == 0);
    }
}

/// In a cores column with rows enough for all boxes, the boxes stand one
/// below the other from the top of the column, each three rows tall and as
/// wide as the column.
pub proof fn lemma_core_boxes_stack(column: Rect, cores: nat, i: int)
    requires
        column.in_bounds(),
        BOX_ROWS * cores <= column.height,
        0 <= i < cores,
    ensures
        layout_of(Direction::Vertical, cores_plan(cores), column)[i] == (Rect {
            x: column.x,
            y: (column.y + BOX_ROWS * i) as u16,
            width: column.width,
            height: BOX_ROWS,
        }),
{
    let extent = column.height as nat;
    lemma_boxes_want_their_rows(cores, extent, i as nat);
    lemma_boxes_want_their_rows(cores, extent, (i + 1) as nat);
}

/// While the log is hidden its panel has no rows.
pub proof fn lemma_hidden_log_has_no_rows(area: Rect, cores: nat)
    requires
        area.in_bounds(),
    ensures
        dashboard_of(area, cores, false).main_view[2].height == 0,
{
    reveal_with_fuel(min_count, 5);
    assert(area.height * 0 == 0);
}

/// On a screen with rows enough for the overview, the log and the input
/// line, each of them has the rows it asks for: the overview three for each
/// core, the input line three, the log a fifth of the screen when it is
/// shown; the process list has all others.
pub proof fn lemma_rows_on_a_tall_screen(area: Rect, cores: nat, console_visible: bool)
    requires
        area.in_bounds(),
        BOX_ROWS * cores + main_view_plan(cores, console_visible)[2].base(area.height as nat)
            + BOX_ROWS <= area.height,
    ensures
        ({
            let rows = dashboard_of(area, cores, console_visible).main_view;
            &&& rows[0].height == BOX_ROWS * cores
            &&& rows[2].height == if console_visible {
                (area.height * LOG_PERCENT + 50) / 100
            } else {
                0
            }
            &&& rows[3].height == BOX_ROWS
            &&& rows[1].height == area.height - rows[0].height - rows[2].height - rows[3].height
        }),
{
    let plan = main_view_plan(cores, console_visible);
    let extent = area.height as nat;
    reveal_with_fuel(base_sum, 5);
    reveal_with_fuel(min_count, 5);
    assert(extent * 0 == 0);
    lemma_slots_exact_when_bases_fit(plan, extent, 0);
    lemma_slots_exact_when_bases_fit(plan, extent, 1);
    lemma_slots_exact_when_bases_fit(plan, extent, 2);
    lemma_slots_exact_when_bases_fit(plan, extent, 3);
    lemma_layout_tiles_parent(Direction::Vertical, plan, area, 0);
    lemma_layout_tiles_parent(Direction::Vertical, plan, area, 1);
    lemma_layout_tiles_parent(Direction::Vertical, plan, area, 2);
    lemma_layout_tiles_parent(Direction::Vertical, plan, area, 3);
}

} // verus!
