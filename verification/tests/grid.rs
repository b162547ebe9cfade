use ffxiv_crafting::grid::GridAction;

#[test]
fn test_test_west() {
    let west = GridAction::West;
    assert_eq!(west.next_coords(&(5, 5), 10), Some((4, 5)));
    assert_eq!(west.next_coords(&(5, 5), 5), Some((4, 5)));
    assert_eq!(west.next_coords(&(0, 5), 10), None);
}

#[test]
fn test_test_east() {
    let east = GridAction::East;
    assert_eq!(east.next_coords(&(5, 5), 10), Some((6, 5)));
    assert_eq!(east.next_coords(&(5, 5), 5), None);
    assert_eq!(east.next_coords(&(0, 5), 10), Some((1, 5)));
    assert_eq!(east.next_coords(&(0, 0), 10), Some((1, 0)));
}

#[test]
fn test_test_north() {
    let north = GridAction::North;
    assert_eq!(north.next_coords(&(5, 5), 10), Some((5, 4)));
    assert_eq!(north.next_coords(&(5, 5), 5), Some((5, 4)));
    assert_eq!(north.next_coords(&(5, 0), 10), None);
    assert_eq!(north.next_coords(&(0, 0), 10), None);
}

#[test]
fn test_test_south() {
    let south = GridAction::South;
    assert_eq!(south.next_coords(&(5, 5), 10), Some((5, 6)));
    assert_eq!(south.next_coords(&(5, 5), 5), None);
    assert_eq!(south.next_coords(&(5, 0), 10), Some((5, 1)));
    assert_eq!(south.next_coords(&(0, 0), 10), Some((0, 1)));
}

#[test]
fn corner_has_two_moves() {
    let mut moves = GridAction::available_actions((0, 0), 3);
    assert_eq!(moves.to_vec(), vec![GridAction::South, GridAction::East]);
    assert_eq!(moves.next(), Some(GridAction::South));
    assert_eq!(moves.next(), Some(GridAction::East));
    assert_eq!(moves.next(), None);
    assert_eq!(GridAction::available_actions((1, 1), 3).to_vec().len(), 4);
}
