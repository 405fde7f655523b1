use chicken_invaders::Dir;
use chicken_invaders::Position;
use chicken_invaders::RowColIter;
use chicken_invaders::HEIGHT;
use chicken_invaders::WIDTH;

#[test]
fn board_dimensions() {
    assert_eq!(WIDTH, 80);
    assert_eq!(HEIGHT, 25);
}

#[test]
fn dir_reverse() {
    assert_eq!(Dir::N.reverse(), Dir::S);
    assert_eq!(Dir::S.reverse(), Dir::N);
    assert_eq!(Dir::E.reverse(), Dir::W);
    assert_eq!(Dir::W.reverse(), Dir::E);
}

#[test]
fn dir_left_and_right() {
    assert_eq!(Dir::N.left(), Dir::W);
    assert_eq!(Dir::W.left(), Dir::S);
    assert_eq!(Dir::S.left(), Dir::E);
    assert_eq!(Dir::E.left(), Dir::N);
    assert_eq!(Dir::N.right(), Dir::E);
    assert_eq!(Dir::E.right(), Dir::S);
    assert_eq!(Dir::S.right(), Dir::W);
    assert_eq!(Dir::W.right(), Dir::N);
}

#[test]
fn legality_inside_and_outside() {
    assert!(Position { col: 0, row: 0 }.is_legal());
    assert!(Position { col: 79, row: 24 }.is_legal());
    assert!(!Position { col: 80, row: 0 }.is_legal());
    assert!(!Position { col: -1, row: 0 }.is_legal());
    assert!(!Position { col: 0, row: 25 }.is_legal());
    assert!(!Position { col: 0, row: -1 }.is_legal());
}

#[test]
fn row_col_converts_to_index_form() {
    assert_eq!(Position { col: 7, row: 3 }.row_col(), (3, 7));
    assert_eq!(Position { col: 0, row: 0 }.row_col(), (0, 0));
}

#[test]
fn neighbor_steps_one_cell() {
    let p = Position { col: 10, row: 5 };
    assert_eq!(p.neighbor(Dir::N), Position { col: 10, row: 4 });
    assert_eq!(p.neighbor(Dir::S), Position { col: 10, row: 6 });
    assert_eq!(p.neighbor(Dir::E), Position { col: 11, row: 5 });
    assert_eq!(p.neighbor(Dir::W), Position { col: 9, row: 5 });
}

#[test]
fn neighbor_can_leave_the_board() {
    let p = Position { col: 0, row: 0 };
    assert!(!p.neighbor(Dir::N).is_legal());
    assert!(!p.neighbor(Dir::W).is_legal());
    assert!(p.neighbor(Dir::S).is_legal());
    assert!(p.neighbor(Dir::E).is_legal());
}

#[test]
fn row_col_iter_walks_row_major() {
    let mut it = RowColIter::new();
    assert_eq!(it.next(), Some(Position { row: 0, col: 0 }));
    assert_eq!(it.next(), Some(Position { row: 0, col: 1 }));
    let mut it2 = RowColIter::new();
    let mut count = 0usize;
    let mut last = None;
    while let Some(p) = it2.next() {
        count += 1;
        last = Some(p);
    }
    assert_eq!(count, WIDTH * HEIGHT);
    assert_eq!(last, Some(Position { row: 24, col: 79 }));
    assert_eq!(it2.next(), None);
}
