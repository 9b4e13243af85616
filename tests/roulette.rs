use led_compass::roulette::{Side, State};

#[test]
fn roulette_walks_the_border() {
    let mut s = State::default();
    assert_eq!((s.x(), s.y()), (0, 0));
    let mut cells = Vec::new();
    for _ in 0..16 {
        s.advance();
        cells.push((s.x(), s.y()));
    }
    assert_eq!(
        cells,
        vec![
            (0, 1), (0, 2), (0, 3), (0, 4),
            (1, 4), (2, 4), (3, 4), (4, 4),
            (4, 3), (4, 2), (4, 1), (4, 0),
            (3, 0), (2, 0), (1, 0), (0, 0),
        ]
    );
    assert_eq!(s, State { direction: Side::Up, position: 4 });
}

#[test]
fn roulette_turns_at_corner() {
    let mut s = State { direction: Side::Right, position: 4 };
    s.advance();
    assert_eq!(s, State { direction: Side::Up, position: 1 });
    assert_eq!((s.x(), s.y()), (3, 0));
}
