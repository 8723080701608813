use rustysynth::reverb::DelayLine;

#[test]
fn a_new_line_is_full_of_its_fill() {
    let line: DelayLine<i32, 4> = DelayLine::new(7);
    for delay in 0..=4 {
        assert_eq!(*line.read(delay), 7);
    }
    assert_eq!(line.back(), 7);
    assert_eq!(line.index_back(), 1);
}

#[test]
fn a_value_is_read_as_many_writes_later_as_its_delay() {
    let mut line: DelayLine<i32, 4> = DelayLine::new(0);
    for value in 1..=10 {
        line.write(value);
        assert_eq!(*line.read(1), value);
        assert_eq!(*line.read(2), (value - 1).max(0));
        assert_eq!(*line.read(3), (value - 2).max(0));
        assert_eq!(*line.read(4), (value - 3).max(0));
        assert_eq!(*line.read(0), (value - 3).max(0));
        assert_eq!(line.back(), (value - 2).max(0));
    }
}

#[test]
fn the_oldest_value_makes_room() {
    let mut line: DelayLine<i32, 3> = DelayLine::new(0);
    assert_eq!(line.get_write_and_step(1), 0);
    assert_eq!(line.get_write_and_step(2), 0);
    assert_eq!(line.get_write_and_step(3), 0);
    assert_eq!(line.get_write_and_step(4), 1);
    assert_eq!(line.get_write_and_step(5), 2);
    assert_eq!(line.index_back(), 0);
    line.write(6);
    assert_eq!(line.index_back(), 1);
}

#[test]
fn a_line_of_one_holds_the_last_value() {
    let mut line: DelayLine<u8, 1> = DelayLine::new(9);
    assert_eq!(line.back(), 9);
    assert_eq!(line.index_back(), 0);
    assert_eq!(line.get_write_and_step(1), 9);
    assert_eq!(*line.read(0), 1);
    assert_eq!(*line.read(1), 1);
    assert_eq!(line.back(), 1);
}
