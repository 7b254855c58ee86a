use installer::effects::{matrix_chars, spinner_braille, MatrixRain, Spinner, TypeWriter};

#[test]
fn typewriter_types() {
    let mut tw = TypeWriter::new("abc");
    assert_eq!(tw.visible_text(), "");
    assert_eq!(tw.cursor(), "█");
    tw.tick();
    assert_eq!(tw.visible_text(), "a");
    assert_eq!(tw.cursor(), " ");
    tw.tick();
    tw.tick();
    assert_eq!(tw.visible_text(), "abc");
    assert!(!tw.complete);
    assert_eq!(tw.cursor(), " ");
    tw.tick();
    assert!(tw.complete);
    assert_eq!(tw.visible_chars, 3);
    assert_eq!(tw.cursor(), "_");
    tw.tick();
    assert_eq!(tw.cursor(), " ");
    tw.visible_chars = 10;
    assert_eq!(tw.visible_text(), "abc");
}

#[test]
fn typewriter_skips() {
    let mut tw = TypeWriter::new("hello");
    tw.skip();
    assert!(tw.complete);
    assert_eq!(tw.visible_chars, 5);
    assert_eq!(tw.visible_text(), "hello");
    assert_eq!(tw.cursor(), "_");
    let mut empty = TypeWriter::new("");
    empty.tick();
    assert!(empty.complete);
}

#[test]
fn spinner_goes_round() {
    let frames = spinner_braille();
    assert_eq!(frames.len(), 8);
    let mut spinner = Spinner::braille();
    let mut i: usize = 0;
    while i < 17 {
        assert_eq!(spinner.current(), frames[i % 8]);
        spinner.tick();
        i += 1;
    }
}

#[test]
fn rain_stays_in_its_bounds() {
    let mut rain = MatrixRain::new(12, 20);
    assert_eq!(rain.columns().len(), 12);
    let mut t: usize = 0;
    while t < 500 {
        for column in rain.columns() {
            assert_eq!(column.chars().len(), 20);
            assert!(column.chars().iter().all(|c| matrix_chars().contains(c)));
            assert!((5..15).contains(&column.length()));
            assert!(column.head() >= -20);
            assert!(column.head() <= 20 + 14 + 3);
        }
        rain.tick();
        t += 1;
    }
    assert_eq!(matrix_chars().len(), 40);
    // chance is at work: not every character is the first of the rain's,
    // and not every head begins at the top of its range
    let fresh = MatrixRain::new(30, 40);
    let first: char = matrix_chars()[0];
    assert!(fresh.columns().iter().any(|c| c.chars().iter().any(|ch| *ch != first)));
    assert!(fresh.columns().iter().all(|c| c.head() < 0 && c.head() >= -40));
    assert!(fresh.columns().iter().any(|c| c.head() != -40));
    assert_eq!(fresh.height(), 40);
}
