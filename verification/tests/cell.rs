use rs_life::Cell;

const CELL_DEAD: Cell = Cell { alive: false };
const CELL_ALIVE: Cell = Cell { alive: true };

#[test]
fn to_char_should_return_correct_chars() {
    assert_eq!(Cell { alive: false }.to_char(), ' ');
    assert_eq!(Cell { alive: true }.to_char(), 'O');
}

#[test]
fn next_should_return_correct_next_state() {
    // cell stays alive if 2 or 3 neighbours
    assert_eq!(Cell::next(&CELL_ALIVE, 0).alive, false);
    assert_eq!(Cell::next(&CELL_ALIVE, 1).alive, false);
    assert_eq!(Cell::next(&CELL_ALIVE, 2).alive, true);
    assert_eq!(Cell::next(&CELL_ALIVE, 3).alive, true);
    assert_eq!(Cell::next(&CELL_ALIVE, 4).alive, false);
    assert_eq!(Cell::next(&CELL_ALIVE, 5).alive, false);
    assert_eq!(Cell::next(&CELL_ALIVE, 6).alive, false);
    assert_eq!(Cell::next(&CELL_ALIVE, 7).alive, false);
    assert_eq!(Cell::next(&CELL_ALIVE, 8).alive, false);

    // cell stays dead unless 3 neighbours
    assert_eq!(Cell::next(&CELL_DEAD, 0).alive, false);
    assert_eq!(Cell::next(&CELL_DEAD, 1).alive, false);
    assert_eq!(Cell::next(&CELL_DEAD, 2).alive, false);
    assert_eq!(Cell::next(&CELL_DEAD, 3).alive, true);
    assert_eq!(Cell::next(&CELL_DEAD, 4).alive, false);
    assert_eq!(Cell::next(&CELL_DEAD, 5).alive, false);
    assert_eq!(Cell::next(&CELL_DEAD, 6).alive, false);
    assert_eq!(Cell::next(&CELL_DEAD, 7).alive, false);
    assert_eq!(Cell::next(&CELL_DEAD, 8).alive, false);
}

#[test]
fn next_should_kill_every_cell_with_more_than_eight_neighbours() {
    for neighbours in 9..=u8::MAX {
        assert_eq!(CELL_ALIVE.next(neighbours), CELL_DEAD);
        assert_eq!(CELL_DEAD.next(neighbours), CELL_DEAD);
    }
}

#[test]
fn next_should_leave_the_cell_it_reads_unchanged() {
    let cell = Cell { alive: true };
    let next = cell.next(0);
    assert_eq!(cell.alive, true);
    assert_eq!(next.alive, false);
}

#[test]
fn from_word_should_seed_a_live_cell_from_an_odd_word() {
    assert_eq!(Cell::from_word(0), CELL_DEAD);
    assert_eq!(Cell::from_word(1), CELL_ALIVE);
    assert_eq!(Cell::from_word(2), CELL_DEAD);
    assert_eq!(Cell::from_word(3), CELL_ALIVE);
    assert_eq!(Cell::from_word(0x8000_0000), CELL_DEAD);
    assert_eq!(Cell::from_word(u32::MAX - 1), CELL_DEAD);
    assert_eq!(Cell::from_word(u32::MAX), CELL_ALIVE);
}

#[test]
fn cells_should_be_equal_when_their_states_are() {
    assert_eq!(Cell { alive: true }, CELL_ALIVE);
    assert_eq!(Cell { alive: false }, CELL_DEAD);
    assert_ne!(CELL_ALIVE, CELL_DEAD);
}
