use prettyprint::frame::Frame;

#[test]
fn gutter_prints_if_term_width_is_at_least_12() {
    let mut frame = Frame::new(12, true, true);
    assert!(frame.numbered_gutter(9999).is_some());

    let mut frame = Frame::new(11, true, true);
    assert!(frame.numbered_gutter(9999).is_none());
}

#[test]
fn large_line_numbers_modify_the_frame() {
    const CHECK: char = '✔';
    const CHAR_LEN: usize = 3; // UTF8 length of the "─" chars in `horizontal_line`'s output

    let mut frame = Frame::new(20, true, true);

    // Set normal_check to the position of the vertical-bar intersection point of a horizontal
    // line, before we print large numbers
    let header = frame.horizontal_line(CHECK);
    let header_check = header.find(CHECK).unwrap();

    // Normal number
    let small_number = frame.numbered_gutter(9999).unwrap();
    let small_blank = frame.blank_gutter().unwrap();
    assert_eq!(small_number.len(), small_blank.len());

    // Five-digit number
    let large_number = frame.numbered_gutter(10000).unwrap();
    let large_blank = frame.blank_gutter().unwrap();
    assert_eq!(large_number.len(), large_blank.len());
    assert_ne!(small_number.len(), large_number.len());

    // Set footer_check to the position of the vertical-bar intersection point of a horizontal
    // line after we print large numbers
    let footer = frame.horizontal_line(CHECK);
    let footer_check = footer.find(CHECK).unwrap();

    assert_eq!(header_check + CHAR_LEN, footer_check);

    let actual = format!(
        "*\n{}*\n{}*\n{}*\n{}*\n{}*\n{}*\n*",
        header, small_number, small_blank, large_number, large_blank, footer
    );
    let expected = "*
─────✔──────────────*
9999 │ *
     │ *
10000 │ *
      │ *
──────✔─────────────*
*";
    assert_eq!(actual, expected);
}

#[test]
fn narrow_terminal_has_no_gutter_at_all() {
    // With the grid the gutter needs 4 + 3 + 5 columns, without it 4 + 1 + 5.
    for (term_width, grid, present) in
        &[(11, true, false), (12, true, true), (9, false, false), (10, false, true)]
    {
        let mut frame = Frame::new(*term_width, true, *grid);
        assert_eq!(frame.numbered_gutter(1).is_some(), *present);
        assert_eq!(frame.blank_gutter().is_some(), *present);
        let gutter_width = if *grid { 7 } else { 5 };
        let expected = if *present { term_width - gutter_width } else { *term_width };
        assert_eq!(frame.cursor_max(), expected);
    }
    // No numbers, no gutter, however wide the terminal.
    let mut frame = Frame::new(100, false, true);
    assert!(frame.numbered_gutter(1).is_none());
    assert!(frame.blank_gutter().is_none());
    assert_eq!(frame.cursor_max(), 100);
    assert_eq!(frame.horizontal_line('┬'), "─".repeat(100));
}

#[test]
fn gutter_text_is_right_aligned() {
    let mut frame = Frame::new(12, true, true);
    assert_eq!(frame.numbered_gutter(1).unwrap(), "   1 │ ");
    assert_eq!(frame.blank_gutter().unwrap(), "     │ ");
    assert_eq!(frame.numbered_gutter(0).unwrap(), "   0 │ ");
    assert_eq!(frame.cursor_max(), 5);
    let mut frame = Frame::new(20, true, false);
    assert_eq!(frame.numbered_gutter(42).unwrap(), "  42 ");
    assert_eq!(frame.blank_gutter().unwrap(), "     ");
    assert_eq!(frame.cursor_max(), 15);
    assert_eq!(frame.horizontal_line('┼'), "─────┼──────────────");
}

#[test]
fn gutter_width_stays_at_four_then_widens_and_never_narrows() {
    let mut frame = Frame::new(20, true, true);
    for line_number in &[1, 10, 100, 1000, 9999] {
        assert_eq!(frame.numbered_gutter(*line_number).unwrap().chars().count(), 7);
        assert_eq!(frame.cursor_max(), 13);
    }
    assert_eq!(frame.numbered_gutter(123456).unwrap(), "123456 │ ");
    assert_eq!(frame.cursor_max(), 11);
    assert_eq!(frame.blank_gutter().unwrap(), "       │ ");
    // A smaller number is shown in the wider gutter.
    assert_eq!(frame.numbered_gutter(7).unwrap(), "     7 │ ");
    assert_eq!(frame.numbered_gutter(10000).unwrap(), " 10000 │ ");
    assert_eq!(frame.blank_gutter().unwrap(), "       │ ");
    assert_eq!(frame.cursor_max(), 11);
    assert_eq!(frame.horizontal_line('┴'), "───────┴────────────");
}

#[test]
fn a_gutter_wider_than_the_terminal_leaves_no_room() {
    let mut frame = Frame::new(12, true, true);
    assert_eq!(frame.numbered_gutter(123456789).unwrap(), "123456789 │ ");
    assert_eq!(frame.cursor_max(), 0);
    assert_eq!(frame.horizontal_line('┴'), "──────────┴─");
    assert_eq!(frame.numbered_gutter(12345678901).unwrap(), "12345678901 │ ");
    assert_eq!(frame.cursor_max(), 0);
    assert_eq!(frame.horizontal_line('┴'), "────────────┴");
    assert_eq!(frame.numbered_gutter(usize::MAX).unwrap(), format!("{} │ ", usize::MAX));
    assert_eq!(frame.cursor_max(), 0);
}
