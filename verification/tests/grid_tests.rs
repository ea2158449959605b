use timetable_view::grid::GridEntry;
use timetable_view::grid::SchoolData;
use timetable_view::grid::TimetableGrid;

fn entry(grade: u8, school_class: u8, day: u8, period: u8, subject: &str) -> GridEntry {
    GridEntry { grade, school_class, day, period, subject: subject.to_string() }
}

#[test]
fn subject_finds_the_right_slot() {
    let grid = TimetableGrid {
        entries: vec![
            entry(1, 1, 1, 1, "Math"),
            entry(1, 1, 1, 2, "Art"),
            entry(2, 3, 4, 5, "Music"),
        ],
    };
    assert_eq!(grid.subject(1, 1, 1, 1), Some("Math".to_string()));
    assert_eq!(grid.subject(1, 1, 1, 2), Some("Art".to_string()));
    assert_eq!(grid.subject(2, 3, 4, 5), Some("Music".to_string()));
    assert_eq!(grid.subject(1, 1, 2, 1), None);
    assert_eq!(grid.subject(3, 1, 1, 1), None);
}

#[test]
fn subject_takes_the_first_matching_entry() {
    let grid = TimetableGrid {
        entries: vec![entry(1, 1, 1, 1, "Math"), entry(1, 1, 1, 1, "History")],
    };
    assert_eq!(grid.subject(1, 1, 1, 1), Some("Math".to_string()));
}

#[test]
fn day_column_lists_periods_in_order() {
    let grid = TimetableGrid {
        entries: vec![entry(1, 1, 1, 1, "Math"), entry(1, 1, 1, 2, "Art")],
    };
    let column = grid.day_column(1, 1, 1);
    assert_eq!(column, vec!["Math", "Art", "", "", "", "", ""]);
}

#[test]
fn period_row_lists_days_in_order() {
    let grid = TimetableGrid {
        entries: vec![
            entry(2, 4, 1, 3, "Korean"),
            entry(2, 4, 2, 3, "English"),
            entry(2, 4, 5, 3, "Sports"),
        ],
    };
    let row = grid.period_row(2, 4, 3);
    assert_eq!(row, vec!["Korean", "English", "", "", "Sports"]);
}

#[test]
fn empty_grid_renders_empty_cells() {
    let grid = TimetableGrid::new();
    assert_eq!(grid.subject(1, 1, 1, 1), None);
    assert_eq!(grid.cell(1, 1, 1, 1), "");
    assert_eq!(grid.day_column(1, 1, 1), vec![""; 7]);
    assert_eq!(grid.period_row(1, 1, 1), vec![""; 5]);
}

#[test]
fn new_school_data_is_a_placeholder() {
    let data = SchoolData::new("INVALID");
    assert_eq!(data.name, "INVALID");
    assert_eq!(data.grid.entries.len(), 0);
}
