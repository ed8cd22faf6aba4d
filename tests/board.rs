use tictactoe::field::{CellStatus, Field, MoveStatus};

fn cells(f: &Field) -> Vec<CellStatus> {
    let mut out = Vec::new();
    for y in 0..3 {
        for x in 0..3 {
            out.push(f.get_item(x, y));
        }
    }
    out
}

#[test]
fn fresh_board_accepts_every_cell() {
    for x in 0..3 {
        for y in 0..3 {
            for mark in [CellStatus::Cross, CellStatus::Zero] {
                let mut f = Field::new();
                assert!(f.make_move(x, y, mark) == MoveStatus::Success);
                assert!(f.get_item(x, y) == mark);
                for yy in 0..3 {
                    for xx in 0..3 {
                        if (xx, yy) != (x, y) {
                            assert!(f.get_item(xx, yy) == CellStatus::Empty);
                        }
                    }
                }
            }
        }
    }
}

#[test]
fn moves_outside_the_board_are_refused() {
    let outside = [
        (-1, 0),
        (0, -1),
        (3, 0),
        (0, 3),
        (3, 3),
        (-1, -1),
        (i32::MIN, 1),
        (1, i32::MAX),
        (9, 9),
    ];
    let mut f = Field::new();
    assert!(f.make_move(1, 1, CellStatus::Zero) == MoveStatus::Success);
    let before = cells(&f);
    for (x, y) in outside {
        assert!(f.make_move(x, y, CellStatus::Cross) == MoveStatus::LimitError);
        assert!(cells(&f) == before);
    }
}

#[test]
fn second_move_on_one_cell_is_refused() {
    let mut f = Field::new();
    assert!(f.make_move(2, 1, CellStatus::Cross) == MoveStatus::Success);
    let before = cells(&f);
    assert!(f.make_move(2, 1, CellStatus::Zero) == MoveStatus::CellValError);
    assert!(f.get_item(2, 1) == CellStatus::Cross);
    assert!(cells(&f) == before);
}

#[test]
fn fresh_board_has_no_winner() {
    let mut f = Field::new();
    assert!(f.check_win() == CellStatus::Empty);
}

#[test]
fn top_row_of_crosses_wins() {
    let mut f = Field::new();
    for x in 0..3 {
        assert!(f.make_move(x, 0, CellStatus::Cross) == MoveStatus::Success);
    }
    assert!(f.check_win() == CellStatus::Cross);
}

#[test]
fn main_diagonal_of_zeros_wins() {
    let mut f = Field::new();
    for i in 0..3 {
        assert!(f.make_move(i, i, CellStatus::Zero) == MoveStatus::Success);
    }
    assert!(f.check_win() == CellStatus::Zero);
}

#[test]
fn other_diagonal_wins() {
    let mut f = Field::new();
    assert!(f.make_move(2, 0, CellStatus::Cross) == MoveStatus::Success);
    assert!(f.make_move(1, 1, CellStatus::Cross) == MoveStatus::Success);
    assert!(f.check_win() == CellStatus::Empty);
    assert!(f.make_move(0, 2, CellStatus::Cross) == MoveStatus::Success);
    assert!(f.check_win() == CellStatus::Cross);
}

#[test]
fn middle_column_wins() {
    let mut f = Field::new();
    for y in 0..3 {
        assert!(f.make_move(1, y, CellStatus::Zero) == MoveStatus::Success);
    }
    assert!(f.check_win() == CellStatus::Zero);
}

#[test]
fn bottom_row_wins_and_mixed_line_does_not() {
    let mut f = Field::new();
    assert!(f.make_move(0, 2, CellStatus::Zero) == MoveStatus::Success);
    assert!(f.make_move(1, 2, CellStatus::Zero) == MoveStatus::Success);
    assert!(f.make_move(2, 2, CellStatus::Cross) == MoveStatus::Success);
    assert!(f.check_win() == CellStatus::Empty);
    let mut g = Field::new();
    for x in 0..3 {
        assert!(g.make_move(x, 2, CellStatus::Zero) == MoveStatus::Success);
    }
    assert!(g.check_win() == CellStatus::Zero);
}

#[test]
fn check_win_leaves_the_board() {
    let mut f = Field::new();
    assert!(f.make_move(0, 1, CellStatus::Cross) == MoveStatus::Success);
    let before = cells(&f);
    let _ = f.check_win();
    assert!(cells(&f) == before);
}

#[test]
fn render_draws_labels_and_marks() {
    let mut f = Field::new();
    assert!(f.render() == " |0|1|2|\n0| | | |\n1| | | |\n2| | | |\n");
    assert!(f.make_move(0, 0, CellStatus::Cross) == MoveStatus::Success);
    assert!(f.make_move(2, 1, CellStatus::Zero) == MoveStatus::Success);
    assert!(f.render() == " |0|1|2|\n0|X| | |\n1| | |0|\n2| | | |\n");
}
