use dsrv_lsp::fixtures;
use dsrv_lsp::protocol::Position;
use dsrv_lsp::utils::{byte_to_pos, pos_to_offset};
use ropey::Rope;

#[test]
fn test_byte_to_pos_simple() {
    let rope = Rope::from_str(fixtures::input_untyped_valid_simple());
    println!("Rope content:\n{}", rope);

    let pos = byte_to_pos(&rope, 7).unwrap();

    let result = Position::new(1, 2); // line 2 (0-based) and column 2 (0-based)
    println!("Position: {:#?}", pos);

    assert_eq!(pos, result, "Expected position {:#?} but got {:#?}", result, pos);
}

#[test]
fn test_byte_to_pos_complex() {
    let rope = Rope::from_str(fixtures::input_untyped_complex_with_comments());

    let pos = byte_to_pos(&rope, 523);
    let result = Position::new(18, 23);
    println!("Position: {:#?}", pos);

    assert_eq!(pos, Some(result), "Expected position {:#?} but got {:#?}", result, pos);
}

#[test]
fn test_pos_to_offset_simple() {
    let rope = Rope::from_str(fixtures::input_untyped_valid_simple());
    let pos = Position::new(1, 2); // line 2 (0-based) and column 2 (0-based)
    let offset = pos_to_offset(pos, &rope).unwrap();
    let expected_offset = 7; // 'y' in "in y"
    println!("Offset: {}", offset);
    assert_eq!(offset, expected_offset, "Expected offset {} but got {}", expected_offset, offset);
}

#[test]
fn test_pos_to_offset_complex() {
    let rope = Rope::from_str(fixtures::input_untyped_complex_with_comments());
    let pos = Position::new(18, 23);
    let offset = pos_to_offset(pos, &rope).unwrap();
    let expected_offset = 523; // 'y' in "z = x + y"
    println!("Offset: {}", offset);
    assert_eq!(offset, expected_offset, "Expected offset {} but got {}", expected_offset, offset);
}

#[test]
fn byte_to_pos_edges() {
    let rope = Rope::from_str("ab\r\ncd\u{e9}\u{2028}x");
    // past the end
    assert_eq!(byte_to_pos(&rope, 100), None);
    // end of the text is valid
    let len = rope.len_bytes();
    assert_eq!(byte_to_pos(&rope, len), Some(Position::new(2, 1)));
    // the \r of a \r\n pair is on the first line, the \n too
    assert_eq!(byte_to_pos(&rope, 2), Some(Position::new(0, 2)));
    assert_eq!(byte_to_pos(&rope, 3), Some(Position::new(0, 3)));
    assert_eq!(byte_to_pos(&rope, 4), Some(Position::new(1, 0)));
    // a byte in the middle of a two-byte char belongs to that char's line
    assert_eq!(byte_to_pos(&rope, 7), Some(Position::new(1, 3)));
}

#[test]
fn pos_to_offset_edges() {
    let rope = Rope::from_str("ab\ncd");
    assert_eq!(pos_to_offset(Position::new(2, 0), &rope), None);
    assert_eq!(pos_to_offset(Position::new(1, 2), &rope), Some(5));
    assert_eq!(pos_to_offset(Position::new(1, 3), &rope), None);
    // a column past the end of its line runs into the next line
    assert_eq!(pos_to_offset(Position::new(0, 4), &rope), Some(4));
}

#[test]
fn round_trip_on_a_document() {
    let text = fixtures::input_untyped_complex_with_comments();
    let rope = Rope::from_str(text);
    for b in 0..=text.len() {
        let pos = byte_to_pos(&rope, b).unwrap();
        assert_eq!(pos_to_offset(pos, &rope), Some(b as u32));
    }
}

#[test]
fn positions_on_their_lines_round_trip() {
    let text = "ab\r\ncd\u{e9}\u{2028}x";
    let rope = Rope::from_str(text);
    // line 0 holds "ab\r\n" (4 bytes), line 1 "cd\u{e9}\u{2028}" (7 bytes), line 2 "x"
    for (line, len) in [(0u32, 4u32), (1, 7)] {
        for character in 0..len {
            let pos = Position::new(line, character);
            let offset = pos_to_offset(pos, &rope).unwrap();
            assert_eq!(byte_to_pos(&rope, offset as usize), Some(pos));
        }
    }
    for character in 0..=1 {
        let pos = Position::new(2, character);
        let offset = pos_to_offset(pos, &rope).unwrap();
        assert_eq!(byte_to_pos(&rope, offset as usize), Some(pos));
    }
}
