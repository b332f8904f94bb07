//! Cutting a rectangle into panels.
//!
//! A list of constraints cuts a parent rectangle along one axis into as many
//! slots as there are constraints, in their order. Each slot first asks for
//! its base: a number of cells, or a percentage of the parent rounded to the
//! nearest cell, halves upwards. If the bases leave room, the spare cells go
//! to the `Min` slots in equal shares, the last of them also taking what
//! does not divide; a list without a `Min` slot gives them to its last slot.
//! The slots are then laid out one behind the other and end where the parent
//! ends, so a slot that asks for more than is left gets what is left.

use vstd::prelude::*;

verus! {

/// The axis along which a rectangle is cut.
#[derive(Clone, Copy, Debug, PartialEq, Eq, Structural)]
pub enum Direction {
    /// Slots stand side by side and share the parent's width.
    Horizontal,
    /// Slots stand one below the other and share the parent's height.
    Vertical,
}

/// What a slot asks for.
#[derive(Clone, Copy, Debug, PartialEq, Eq, Structural)]
pub enum Constraint {
    /// So many cells.
    Length(u16),
    /// So many hundredths of the parent.
    Percentage(u16),
    /// So many cells, and a share of what the others leave.
    Min(u16),
}

/// A region of the screen, in cells. `x` and `y` are the column and the row
/// of its upper left corner.
#[derive(Clone, Copy, Debug, PartialEq, Eq, Structural)]
pub struct Rect {
    pub x: u16,
    pub y: u16,
    pub width: u16,
    pub height: u16,
}

impl Rect {
    /// The far edges of the rectangle are coordinates too.
    pub open spec fn in_bounds(self) -> bool {
        self.x + self.width <= u16::MAX && self.y + self.height <= u16::MAX
    }

    /// Whether `inner` lies within this rectangle.
    pub open spec fn encloses(self, inner: Rect) -> bool {
        &&& self.x <= inner.x
        &&& inner.x + inner.width <= self.x + self.width
        &&& self.y <= inner.y
        &&& inner.y + inner.height <= self.y + self.height
    }

    /// The extent of the rectangle along the axis of a cut.
    pub open spec fn extent(self, direction: Direction) -> nat {
        match direction {
            Direction::Horizontal => self.width as nat,
            Direction::Vertical => self.height as nat,
        }
    }

    /// Tests `in_bounds`.
    pub fn fits(&self) -> (yes: bool)
        ensures
            yes == self.in_bounds(),
    {
        self.width <= u16::MAX - self.x && self.height <= u16::MAX - self.y
    }
}

/// Makes a rectangle as the terminal library does.
///
/// This calls `tui::layout::Rect::new` and is taken on trust. That function
/// keeps the corner it is given. It keeps the width and the height too
/// unless their product is more than the largest `u16`, in which case it
/// makes both smaller; of that case nothing is claimed here.
#[verifier::external_body]
pub(crate) fn screen_rect(x: u16, y: u16, width: u16, height: u16) -> (rect: Rect)
    ensures
        rect.x == x,
        rect.y == y,
        width * height <= u16::MAX ==> rect.width == width && rect.height == height,
{
    let made = tui::layout::Rect::new(x, y, width, height);
    Rect { x: made.x, y: made.y, width: made.width, height: made.height }
}

impl Constraint {
    /// The cells that a slot asks for in a parent of `extent` cells, before
    /// spare room is handed out.
    pub open spec fn base(self, extent: nat) -> nat {
        match self {
            Constraint::Length(cells) => cells as nat,
            Constraint::Percentage(percent) => ((extent * percent + 50) / 100) as nat,
            Constraint::Min(cells) => cells as nat,
        }
    }

    fn base_cells(&self, extent: u16) -> (cells: u64)
        ensures
            cells == self.base(extent as nat),
            cells <= 0xffff_ffff,
    {
        match self {
            Constraint::Length(cells) => *cells as u64,
            Constraint::Percentage(percent) => {
                assert(extent * *percent <= 0xffff * 0xffff) by (nonlinear_arith)
                    requires
                        extent <= 0xffff,
                        *percent <= 0xffff,
                ;
                (extent as u64 * *percent as u64 + 50) / 100
            },
            Constraint::Min(cells) => *cells as u64,
        }
    }
}

/// The bases of the first `n` slots together.
pub open spec fn base_sum(constraints: Seq<Constraint>, extent: nat, n: nat) -> nat
    decreases n,
{
    if n == 0 {
        0
    } else {
        base_sum(constraints, extent, (n - 1) as nat) + constraints[n - 1].base(extent)
    }
}

/// The number of `Min` slots among the first `n`.
pub open spec fn min_count(constraints: Seq<Constraint>, n: nat) -> nat
    decreases n,
{
    if n == 0 {
        0
    } else {
        min_count(constraints, (n - 1) as nat) + if constraints[n - 1] is Min {
            1nat
        } else {
            0nat
        }
    }
}

/// The cells of the parent that no base claims.
pub open spec fn spare(constraints: Seq<Constraint>, extent: nat) -> nat {
    let claimed = base_sum(constraints, extent, constraints.len());
    if claimed >= extent {
        0
    } else {
        (extent - claimed) as nat
    }
}

/// The spare cells that go to slot `i`.
pub open spec fn bonus(constraints: Seq<Constraint>, extent: nat, i: int) -> nat {
    let takers = min_count(constraints, constraints.len());
    let room = spare(constraints, extent);
    if takers == 0 {
        if i == constraints.len() - 1 {
            room
        } else {
            0
        }
    } else if !(constraints[i] is Min) {
        0
    } else if min_count(constraints, (i + 1) as nat) == takers {
        room / takers + room % takers
    } else {
        room / takers
    }
}

/// The cells that slot `i` would take in a parent without end.
pub open spec fn wanted(constraints: Seq<Constraint>, extent: nat, i: int) -> nat {
    constraints[i].base(extent) + bonus(constraints, extent, i)
}

/// What the first `n` slots want together.
pub open spec fn wanted_sum(constraints: Seq<Constraint>, extent: nat, n: nat) -> nat
    decreases n,
{
    if n == 0 {
        0
    } else {
        wanted_sum(constraints, extent, (n - 1) as nat) + wanted(constraints, extent, n - 1)
    }
}

/// Where slot `n` starts, counted from the start of the parent: behind the
/// slots before it, and not behind the parent's end.
pub open spec fn slot_offset(constraints: Seq<Constraint>, extent: nat, n: nat) -> nat {
    let before = wanted_sum(constraints, extent, n);
    if before >= extent {
        extent
    } else {
        before
    }
}

/// The cells that slot `i` gets.
pub open spec fn slot_size(constraints: Seq<Constraint>, extent: nat, i: int) -> nat {
    (slot_offset(constraints, extent, (i + 1) as nat) - slot_offset(
        constraints,
        extent,
        i as nat,
    )) as nat
}

/// The sizes of all slots.
pub open spec fn slot_sizes(constraints: Seq<Constraint>, extent: nat) -> Seq<nat> {
    Seq::new(constraints.len(), |i: int| slot_size(constraints, extent, i))
}

/// The first `n` sizes of a list together.
pub open spec fn size_sum(sizes: Seq<nat>, n: nat) -> nat
    decreases n,
{
    if n == 0 {
        0
    } else {
        size_sum(sizes, (n - 1) as nat) + sizes[n - 1]
    }
}

/// The rectangle of slot `i` when `area` is cut along `direction`.
pub open spec fn slot_rect(
    direction: Direction,
    constraints: Seq<Constraint>,
    area: Rect,
    i: int,
) -> Rect {
    let extent = area.extent(direction);
    let offset = slot_offset(constraints, extent, i as nat);
    let size = slot_size(constraints, extent, i);
    match direction {
        Direction::Horizontal => Rect {
            x: (area.x + offset) as u16,
            y: area.y,
            width: size as u16,
            height: area.height,
        },
        Direction::Vertical => Rect {
            x: area.x,
            y: (area.y + offset) as u16,
            width: area.width,
            height: size as u16,
        },
    }
}

/// The rectangles into which `constraints` cut `area` along `direction`.
pub open spec fn layout_of(direction: Direction, constraints: Seq<Constraint>, area: Rect) -> Seq<
    Rect,
> {
    Seq::new(constraints.len(), |i: int| slot_rect(direction, constraints, area, i))
}

proof fn lemma_min_count_grows(constraints: Seq<Constraint>, n: nat, m: nat)
    requires
        n <= m,
    ensures
        min_count(constraints, n) <= min_count(constraints, m),
        min_count(constraints, m) <= m,
    decreases m,
{
    if m > 0 {
        if n < m {
            lemma_min_count_grows(constraints, n, (m - 1) as nat);
        } else {
            lemma_min_count_grows(constraints, (n - 1) as nat, (m - 1) as nat);
        }
    }
}

/// The spare cells that the first `n` slots take together.
spec fn bonus_sum(constraints: Seq<Constraint>, extent: nat, n: nat) -> nat
    decreases n,
{
    if n == 0 {
        0
    } else {
        bonus_sum(constraints, extent, (n - 1) as nat) + bonus(constraints, extent, n - 1)
    }
}

proof fn lemma_wanted_sum_splits(constraints: Seq<Constraint>, extent: nat, n: nat)
    ensures
        wanted_sum(constraints, extent, n) == base_sum(constraints, extent, n) + bonus_sum(
            constraints,
            extent,
            n,
        ),
    decreases n,
{
    if n > 0 {
        lemma_wanted_sum_splits(constraints, extent, (n - 1) as nat);
    }
}

proof fn lemma_bonus_sum_shares(constraints: Seq<Constraint>, extent: nat, n: nat)
    requires
        n <= constraints.len(),
        min_count(constraints, constraints.len()) > 0,
    ensures
        bonus_sum(constraints, extent, n) == min_count(constraints, n) * (spare(constraints, extent)
            / min_count(constraints, constraints.len())) + if min_count(constraints, n)
            == min_count(constraints, constraints.len()) {
            spare(constraints, extent) % min_count(constraints, constraints.len())
        } else {
            0
        },
    decreases n,
{
    let takers = min_count(constraints, constraints.len());
    let share = spare(constraints, extent) / takers;
    if n > 0 {
        let before = (n - 1) as nat;
        lemma_bonus_sum_shares(constraints, extent, before);
        lemma_min_count_grows(constraints, n, constraints.len());
        lemma_min_count_grows(constraints, before, n);
        let counted = min_count(constraints, before);
        if constraints[n - 1] is Min {
            assert((counted + 1) * share == counted * share + share) by (nonlinear_arith);
        }
    } else {
        assert(0 * share == 0) by (nonlinear_arith);
    }
}

proof fn lemma_bonus_sum_last(constraints: Seq<Constraint>, extent: nat, n: nat)
    requires
        n <= constraints.len(),
        min_count(constraints, constraints.len()) == 0,
    ensures
        bonus_sum(constraints, extent, n) == if n == constraints.len() && n > 0 {
            spare(constraints, extent)
        } else {
            0
        },
    decreases n,
{
    if n > 0 {
        lemma_bonus_sum_last(constraints, extent, (n - 1) as nat);
    }
}

/// All spare cells are handed out: a list that is not empty wants the
/// whole parent, or more.
pub proof fn lemma_wanted_covers_parent(constraints: Seq<Constraint>, extent: nat)
    requires
        constraints.len() > 0,
    ensures
        wanted_sum(constraints, extent, constraints.len()) == base_sum(
            constraints,
            extent,
            constraints.len(),
        ) + spare(constraints, extent),
        wanted_sum(constraints, extent, constraints.len()) >= extent,
{
    let len = constraints.len();
    let takers = min_count(constraints, len);
    let room = spare(constraints, extent);
    lemma_wanted_sum_splits(constraints, extent, len);
    if takers == 0 {
        lemma_bonus_sum_last(constraints, extent, len);
    } else {
        lemma_bonus_sum_shares(constraints, extent, len);
        assert(takers * (room / takers) + room % takers == room) by (nonlinear_arith)
            requires
                takers > 0,
        ;
    }
}

proof fn lemma_wanted_sum_grows(constraints: Seq<Constraint>, extent: nat, n: nat, m: nat)
    requires
        n <= m,
    ensures
        wanted_sum(constraints, extent, n) <= wanted_sum(constraints, extent, m),
    decreases m - n,
{
    if n < m {
        lemma_wanted_sum_grows(constraints, extent, n, (m - 1) as nat);
    }
}

/// Slots follow one another without a gap: the sizes of the first `n`
/// slots add up to the place where slot `n` starts.
pub proof fn lemma_sizes_reach_offset(constraints: Seq<Constraint>, extent: nat, n: nat)
    requires
        n <= constraints.len(),
    ensures
        size_sum(slot_sizes(constraints, extent), n) == slot_offset(constraints, extent, n),
        slot_offset(constraints, extent, n) <= extent,
    decreases n,
{
    if n > 0 {
        lemma_sizes_reach_offset(constraints, extent, (n - 1) as nat);
        lemma_wanted_sum_grows(constraints, extent, (n - 1) as nat, n);
    }
}

/// The slots of a list that is not empty fill the parent exactly: their
/// sizes add up to its extent.
pub proof fn lemma_slots_fill_parent(constraints: Seq<Constraint>, extent: nat)
    requires
        constraints.len() > 0,
    ensures
        slot_offset(constraints, extent, constraints.len()) == extent,
        size_sum(slot_sizes(constraints, extent), constraints.len()) == extent,
{
    lemma_wanted_covers_parent(constraints, extent);
    lemma_sizes_reach_offset(constraints, extent, constraints.len());
}

/// Where the bases fit into the parent no slot is cut short: each gets its
/// base and its part of the spare cells. A slot that is neither a `Min` slot
/// nor the last slot of a list without one gets its base exactly.
pub proof fn lemma_slots_exact_when_bases_fit(
    constraints: Seq<Constraint>,
    extent: nat,
    i: int,
)
    requires
        0 <= i < constraints.len(),
        base_sum(constraints, extent, constraints.len()) <= extent,
    ensures
        slot_size(constraints, extent, i) == wanted(constraints, extent, i),
        bonus(constraints, extent, i) == 0 ==> slot_size(constraints, extent, i)
            == constraints[i].base(extent),
{
    lemma_wanted_covers_parent(constraints, extent);
    lemma_wanted_sum_grows(constraints, extent, (i + 1) as nat, constraints.len());
    lemma_wanted_sum_grows(constraints, extent, i as nat, (i + 1) as nat);
}

/// The rectangles of a cut lie within the parent and touch: the first
/// starts where the parent starts, each next one where the one before it
/// ends, and the last ends where the parent ends. Across the axis each is as
/// wide as the parent.
pub proof fn lemma_layout_tiles_parent(
    direction: Direction,
    constraints: Seq<Constraint>,
    area: Rect,
    i: int,
)
    requires
        area.in_bounds(),
        0 <= i < constraints.len(),
    ensures
        area.encloses(layout_of(direction, constraints, area)[i]),
        layout_of(direction, constraints, area)[i].in_bounds(),
        direction == Direction::Vertical ==> {
            let slots = layout_of(direction, constraints, area);
            &&& slots[i].x == area.x && slots[i].width == area.width
            &&& i == 0 ==> slots[i].y == area.y
            &&& i + 1 < constraints.len() ==> slots[i + 1].y == slots[i].y + slots[i].height
            &&& i + 1 == constraints.len() ==> slots[i].y + slots[i].height == area.y
                + area.height
        },
        direction == Direction::Horizontal ==> {
            let slots = layout_of(direction, constraints, area);
            &&& slots[i].y == area.y && slots[i].height == area.height
            &&& i == 0 ==> slots[i].x == area.x
            &&& i + 1 < constraints.len() ==> slots[i + 1].x == slots[i].x + slots[i].width
            &&& i + 1 == constraints.len() ==> slots[i].x + slots[i].width == area.x
                + area.width
        },
{
    let extent = area.extent(direction);
    lemma_sizes_reach_offset(constraints, extent, i as nat);
    lemma_sizes_reach_offset(constraints, extent, (i + 1) as nat);
    lemma_wanted_sum_grows(constraints, extent, i as nat, (i + 1) as nat);
    if i + 1 < constraints.len() {
        lemma_sizes_reach_offset(constraints, extent, (i + 2) as nat);
        lemma_wanted_sum_grows(constraints, extent, (i + 1) as nat, (i + 2) as nat);
    } else {
        lemma_slots_fill_parent(constraints, extent);
    }
}

/// The sizes of a list of cells, as numbers.
pub open spec fn cells(sizes: Seq<u16>) -> Seq<nat> {
    Seq::new(sizes.len(), |i: int| sizes[i] as nat)
}

/// Cuts `extent` cells into one slot for each constraint and returns the
/// sizes of the slots, in order.
pub fn partition(constraints: &Vec<Constraint>, extent: u16) -> (sizes: Vec<u16>)
    ensures
        cells(sizes@) == slot_sizes(constraints@, extent as nat),
        constraints@.len() > 0 ==> size_sum(cells(sizes@), sizes@.len()) == extent,
{
    let len = constraints.len();
    let ghost whole = extent as nat;
    let mut claimed: u64 = 0;
    let mut takers: usize = 0;
    let mut i: usize = 0;
    while i < len
        invariant
            len == constraints@.len(),
            whole == extent,
            0 <= i <= len,
            takers == min_count(constraints@, i as nat),
            takers <= i,
            claimed <= extent,
            claimed == if base_sum(constraints@, whole, i as nat) >= whole {
                whole
            } else {
                base_sum(constraints@, whole, i as nat)
            },
        decreases len - i,
    {
        let base = constraints[i].base_cells(extent);
        let total = claimed + base;
        claimed = if total >= extent as u64 {
            extent as u64
        } else {
            total
        };
        if let Constraint::Min(_) = constraints[i] {
            takers += 1;
        }
        i += 1;
    }
    let room: u64 = extent as u64 - claimed;
    assert(room == spare(constraints@, whole));

    let mut sizes: Vec<u16> = Vec::new();
    let mut used: u64 = 0;
    let mut seen: usize = 0;
    let mut i: usize = 0;
    while i < len
        invariant
            len == constraints@.len(),
            whole == extent,
            0 <= i <= len,
            takers == min_count(constraints@, len as nat),
            room == spare(constraints@, whole),
            room <= extent,
            seen == min_count(constraints@, i as nat),
            seen <= takers,
            used == slot_offset(constraints@, whole, i as nat),
            used <= extent,
            sizes@.len() == i,
            forall|j: int| 0 <= j < i ==> sizes@[j] == slot_size(constraints@, whole, j),
        decreases len - i,
    {
        let base = constraints[i].base_cells(extent);
        let is_min = match constraints[i] {
            Constraint::Min(_) => true,
            _ => false,
        };
        proof {
            lemma_min_count_grows(constraints@, (i + 1) as nat, len as nat);
        }
        let extra: u64 = if takers == 0 {
            if i + 1 == len {
                room
            } else {
                0
            }
        } else if !is_min {
            0
        } else {
            let share = room / (takers as u64);
            let rest = room % (takers as u64);
            assert(share + rest <= room) by (nonlinear_arith)
                requires
                    takers > 0,
                    share == room / (takers as u64),
                    rest == room % (takers as u64),
            ;
            if seen + 1 == takers {
                share + rest
            } else {
                share
            }
        };
        assert(extra == bonus(constraints@, whole, i as int));
        let reach = used + base + extra;
        let next: u64 = if reach >= extent as u64 {
            extent as u64
        } else {
            reach
        };
        assert(next == slot_offset(constraints@, whole, (i + 1) as nat));
        sizes.push((next - used) as u16);
        used = next;
        if is_min {
            seen += 1;
        }
        i += 1;
    }
    proof {
        assert(cells(sizes@) =~= slot_sizes(constraints@, whole));
        if len > 0 {
            lemma_slots_fill_parent(constraints@, whole);
        }
    }
    sizes
}

/// Cuts `area` along `direction` into one rectangle for each constraint,
/// in order.
pub fn define_layout(direction: Direction, constraints: &Vec<Constraint>, area: Rect) -> (slots:
    Vec<Rect>)
    requires
        area.in_bounds(),
    ensures
        slots@ == layout_of(direction, constraints@, area),
        forall|i: int|
            0 <= i < slots@.len() ==> area.encloses(#[trigger] slots@[i]) && slots@[i].in_bounds(),
{
    let extent = match direction {
        Direction::Horizontal => area.width,
        Direction::Vertical => area.height,
    };
    let sizes = partition(constraints, extent);
    let len = sizes.len();
    let mut slots: Vec<Rect> = Vec::new();
    let mut offset: u16 = 0;
    let mut i: usize = 0;
    assert(len == constraints@.len()) by {
        assert(cells(sizes@).len() == slot_sizes(constraints@, extent as nat).len());
    }
    while i < len
        invariant
            len == constraints@.len(),
            len == sizes@.len(),
            extent == area.extent(direction),
            area.in_bounds(),
            cells(sizes@) == slot_sizes(constraints@, extent as nat),
            0 <= i <= len,
            offset == slot_offset(constraints@, extent as nat, i as nat),
            offset <= extent,
            slots@.len() == i,
            forall|j: int| 0 <= j < i ==> slots@[j] == slot_rect(direction, constraints@, area, j),
        decreases len - i,
    {
        let size = sizes[i];
        proof {
            assert(cells(sizes@)[i as int] == slot_sizes(constraints@, extent as nat)[i as int]);
            lemma_sizes_reach_offset(constraints@, extent as nat, (i + 1) as nat);
            lemma_wanted_sum_grows(constraints@, extent as nat, i as nat, (i + 1) as nat);
        }
        let slot = match direction {
            Direction::Horizontal => Rect {
                x: area.x + offset,
                y: area.y,
                width: size,
                height: area.height,
            },
            Direction::Vertical => Rect {
                x: area.x,
                y: area.y + offset,
                width: area.width,
                height: size,
            },
        };
        slots.push(slot);
        offset = offset + size;
        i += 1;
    }
    proof {
        assert(slots@ =~= layout_of(direction, constraints@, area));
        assert forall|i: int| 0 <= i < slots@.len() implies area.encloses(#[trigger] slots@[i])
            && slots@[i].in_bounds() by {
            lemma_layout_tiles_parent(direction, constraints@, area, i);
        }
    }
    slots
}

} // verus!
