use sysdash::dashboard::{
    compose, cpu_core_constraints, halves_constraints, main_view_constraints,
};
use sysdash::layout::{define_layout, partition, Constraint, Direction, Rect};

fn rect(x: u16, y: u16, width: u16, height: u16) -> Rect {
    Rect { x, y, width, height }
}

#[test]
fn length_percentage_and_rest() {
    let plan = vec![Constraint::Length(30), Constraint::Percentage(50), Constraint::Min(0)];
    let sizes = partition(&plan, 100);
    assert_eq!(sizes, vec![30, 50, 20]);
    assert_eq!(sizes.iter().map(|s| *s as u32).sum::<u32>(), 100);
}

#[test]
fn percentages_round_half_up_and_end_at_the_parent() {
    let halves = vec![Constraint::Percentage(50), Constraint::Percentage(50)];
    assert_eq!(partition(&halves, 101), vec![51, 50]);
    assert_eq!(partition(&halves, 100), vec![50, 50]);
    assert_eq!(partition(&halves, 1), vec![1, 0]);
    assert_eq!(partition(&vec![Constraint::Percentage(20), Constraint::Min(0)], 24), vec![5, 19]);
    assert_eq!(partition(&vec![Constraint::Percentage(20), Constraint::Min(0)], 22), vec![4, 18]);
}

#[test]
fn leftover_goes_to_the_last_slot_without_a_min() {
    let thirds = vec![Constraint::Percentage(33); 3];
    assert_eq!(partition(&thirds, 100), vec![33, 33, 34]);
    assert_eq!(partition(&vec![Constraint::Length(5), Constraint::Length(5)], 30), vec![5, 25]);
    assert_eq!(partition(&vec![Constraint::Length(5)], 30), vec![30]);
}

#[test]
fn min_slots_share_evenly_and_the_last_takes_the_remainder() {
    let plan = vec![
        Constraint::Min(0),
        Constraint::Length(10),
        Constraint::Min(0),
        Constraint::Min(0),
    ];
    assert_eq!(partition(&plan, 30), vec![6, 10, 6, 8]);
    assert_eq!(partition(&vec![Constraint::Min(0), Constraint::Min(0)], 7), vec![3, 4]);
    assert_eq!(partition(&vec![Constraint::Min(0), Constraint::Length(2)], 7), vec![5, 2]);
}

#[test]
fn a_min_slot_gets_its_minimum_and_its_share() {
    assert_eq!(partition(&vec![Constraint::Length(10), Constraint::Min(5)], 20), vec![10, 10]);
    assert_eq!(partition(&vec![Constraint::Min(5), Constraint::Min(1)], 10), vec![7, 3]);
    assert_eq!(partition(&vec![Constraint::Length(18), Constraint::Min(5)], 20), vec![18, 2]);
}

#[test]
fn slots_beyond_the_parent_are_cut() {
    let plan = vec![Constraint::Length(50), Constraint::Length(40), Constraint::Length(30)];
    assert_eq!(partition(&plan, 100), vec![50, 40, 10]);
    let tall = vec![Constraint::Length(200), Constraint::Min(0), Constraint::Length(3)];
    assert_eq!(partition(&tall, 100), vec![100, 0, 0]);
    assert_eq!(partition(&vec![Constraint::Percentage(200)], 10), vec![10]);
    assert_eq!(
        partition(&vec![Constraint::Percentage(65535), Constraint::Length(65535)], 65535),
        vec![65535, 0]
    );
}

#[test]
fn no_constraints_no_slots() {
    assert_eq!(partition(&Vec::new(), 100), Vec::<u16>::new());
    assert_eq!(
        define_layout(Direction::Vertical, &Vec::new(), rect(0, 0, 10, 10)),
        Vec::<Rect>::new()
    );
}

#[test]
fn a_parent_without_extent_gives_empty_slots() {
    let plan = vec![Constraint::Length(3), Constraint::Percentage(50), Constraint::Min(0)];
    assert_eq!(partition(&plan, 0), vec![0, 0, 0]);
}

#[test]
fn sizes_always_add_up_to_the_parent() {
    let plans = vec![
        vec![Constraint::Length(7), Constraint::Percentage(13), Constraint::Min(2)],
        vec![Constraint::Percentage(10); 7],
        vec![Constraint::Min(1), Constraint::Min(2), Constraint::Min(3)],
        vec![Constraint::Length(1000), Constraint::Length(1)],
    ];
    for plan in &plans {
        for extent in [0u16, 1, 2, 3, 10, 99, 100, 101, 1000, 65535] {
            let sizes = partition(plan, extent);
            assert_eq!(sizes.len(), plan.len());
            assert_eq!(sizes.iter().map(|s| *s as u32).sum::<u32>(), extent as u32);
        }
    }
}

#[test]
fn vertical_cut_stacks_the_slots() {
    let plan = vec![Constraint::Length(5), Constraint::Min(0)];
    let slots = define_layout(Direction::Vertical, &plan, rect(2, 2, 10, 10));
    assert_eq!(slots, vec![rect(2, 2, 10, 5), rect(2, 7, 10, 5)]);
}

#[test]
fn horizontal_cut_puts_the_slots_side_by_side() {
    let slots = define_layout(Direction::Horizontal, &halves_constraints(), rect(1, 3, 20, 4));
    assert_eq!(slots, vec![rect(1, 3, 10, 4), rect(11, 3, 10, 4)]);
}

#[test]
fn a_cut_reaches_the_last_coordinate() {
    let plan = vec![Constraint::Length(5), Constraint::Min(0)];
    let area = rect(65530, 0, 5, 65535);
    assert!(area.fits());
    let slots = define_layout(Direction::Vertical, &plan, area);
    assert_eq!(slots, vec![rect(65530, 0, 5, 5), rect(65530, 5, 5, 65530)]);
}

#[test]
fn fits_tests_the_far_edges() {
    assert!(rect(0, 0, 0, 0).fits());
    assert!(rect(0, 0, 65535, 65535).fits());
    assert!(rect(1, 0, 65534, 1).fits());
    assert!(!rect(1, 0, 65535, 1).fits());
    assert!(!rect(0, 65535, 1, 1).fits());
}

#[test]
fn plans_of_the_dashboard() {
    assert_eq!(
        main_view_constraints(4, true),
        vec![
            Constraint::Length(12),
            Constraint::Min(0),
            Constraint::Percentage(20),
            Constraint::Length(3)
        ]
    );
    assert_eq!(
        main_view_constraints(0, false),
        vec![
            Constraint::Length(0),
            Constraint::Min(0),
            Constraint::Percentage(0),
            Constraint::Length(3)
        ]
    );
    assert_eq!(main_view_constraints(21845, false)[0], Constraint::Length(65535));
    assert_eq!(main_view_constraints(21846, false)[0], Constraint::Length(65535));
    assert_eq!(main_view_constraints(usize::MAX, false)[0], Constraint::Length(65535));
    assert_eq!(halves_constraints(), vec![Constraint::Percentage(50); 2]);
    assert_eq!(cpu_core_constraints(0), vec![Constraint::Min(0)]);
    assert_eq!(
        cpu_core_constraints(2),
        vec![Constraint::Length(3), Constraint::Length(3), Constraint::Min(0)]
    );
}

#[test]
fn dashboard_with_hidden_log() {
    let dashboard = compose(rect(0, 0, 80, 24), 4, false);
    assert_eq!(
        dashboard.main_view,
        vec![rect(0, 0, 80, 12), rect(0, 12, 80, 9), rect(0, 21, 80, 0), rect(0, 21, 80, 3)]
    );
    assert_eq!(dashboard.system_overview, vec![rect(0, 0, 40, 12), rect(40, 0, 40, 12)]);
    assert_eq!(dashboard.sparklines, vec![rect(40, 0, 40, 6), rect(40, 6, 40, 6)]);
    assert_eq!(
        dashboard.cpu_cores,
        vec![
            rect(0, 0, 40, 3),
            rect(0, 3, 40, 3),
            rect(0, 6, 40, 3),
            rect(0, 9, 40, 3),
            rect(0, 12, 40, 0)
        ]
    );
}

#[test]
fn dashboard_with_shown_log() {
    let dashboard = compose(rect(0, 0, 80, 24), 4, true);
    assert_eq!(
        dashboard.main_view,
        vec![rect(0, 0, 80, 12), rect(0, 12, 80, 4), rect(0, 16, 80, 5), rect(0, 21, 80, 3)]
    );
    assert_eq!(dashboard.system_overview, vec![rect(0, 0, 40, 12), rect(40, 0, 40, 12)]);
}

#[test]
fn dashboard_on_a_screen_too_small() {
    let dashboard = compose(rect(0, 0, 9, 10), 4, true);
    assert_eq!(
        dashboard.main_view,
        vec![rect(0, 0, 9, 10), rect(0, 10, 9, 0), rect(0, 10, 9, 0), rect(0, 10, 9, 0)]
    );
    assert_eq!(dashboard.system_overview, vec![rect(0, 0, 5, 10), rect(5, 0, 4, 10)]);
    assert_eq!(dashboard.sparklines, vec![rect(5, 0, 4, 5), rect(5, 5, 4, 5)]);
    assert_eq!(
        dashboard.cpu_cores,
        vec![
            rect(0, 0, 5, 3),
            rect(0, 3, 5, 3),
            rect(0, 6, 5, 3),
            rect(0, 9, 5, 1),
            rect(0, 10, 5, 0)
        ]
    );
}

#[test]
fn dashboard_before_the_first_snapshot() {
    let dashboard = compose(rect(0, 0, 0, 0), 0, false);
    assert_eq!(dashboard.main_view, vec![rect(0, 0, 0, 0); 4]);
    assert_eq!(dashboard.system_overview, vec![rect(0, 0, 0, 0); 2]);
    assert_eq!(dashboard.sparklines, vec![rect(0, 0, 0, 0); 2]);
    assert_eq!(dashboard.cpu_cores, vec![rect(0, 0, 0, 0)]);
}
