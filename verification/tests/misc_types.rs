use tui_editor::{
    BorderGlyphCharacter, DefaultSize, DialogChoice, EditorBuffer, FlexBoxId, HasEditorBuffers,
    MinSize, ScrollOffset, DEFAULT_CURSOR_CHAR, DEFAULT_SYN_HI_FILE_EXT, EMPTY_STATE_FOCUS_TEXT,
    EMPTY_STATE_TEXT, SPACER, US,
};

#[test]
fn sizes_and_constants() {
    assert_eq!(MinSize::Col.value(), 65);
    assert_eq!(MinSize::Row.value(), 11);
    assert_eq!(DefaultSize::GlobalDataCacheSize.value(), 1_000_000);
    assert_eq!(SPACER, " ");
    assert_eq!(DEFAULT_SYN_HI_FILE_EXT, "md");
    assert_eq!(DEFAULT_CURSOR_CHAR, '\u{2592}');
    assert_eq!(EMPTY_STATE_TEXT, "No content added");
    assert_eq!(EMPTY_STATE_FOCUS_TEXT, "\u{1F440}");
    assert_eq!(ScrollOffset::new(1, 2), tui_editor::Position::new(1, 2));
    assert_eq!(US::new("ab").grapheme_count(), 2);
    assert_ne!(DialogChoice::Yes("ok".to_string()), DialogChoice::No);
}

#[test]
fn border_glyphs() {
    let glyphs: Vec<&str> = [
        BorderGlyphCharacter::TopRight,
        BorderGlyphCharacter::TopLeft,
        BorderGlyphCharacter::BottomRight,
        BorderGlyphCharacter::BottomLeft,
        BorderGlyphCharacter::Horizontal,
        BorderGlyphCharacter::Vertical,
        BorderGlyphCharacter::LineUpDownLeft,
        BorderGlyphCharacter::LineUpDownRight,
    ]
    .iter()
    .map(|g| g.as_ref())
    .collect();
    assert_eq!(
        glyphs,
        vec![
            "\u{256e}", "\u{256d}", "\u{256f}", "\u{2570}", "\u{2500}", "\u{2502}", "\u{2524}",
            "\u{251c}"
        ]
    );
}

struct OneBuffer {
    id: FlexBoxId,
    buffer: Option<EditorBuffer>,
}

impl HasEditorBuffers for OneBuffer {
    fn get_mut_editor_buffer(&mut self, id: FlexBoxId) -> Option<&mut EditorBuffer> {
        if id == self.id {
            self.buffer.as_mut()
        } else {
            None
        }
    }

    fn insert_editor_buffer(&mut self, id: FlexBoxId, buffer: EditorBuffer) {
        self.id = id;
        self.buffer = Some(buffer);
    }

    fn contains_editor_buffer(&self, id: FlexBoxId) -> bool {
        id == self.id && self.buffer.is_some()
    }
}

#[test]
fn a_state_can_keep_an_editor_buffer() {
    let mut state = OneBuffer { id: FlexBoxId(0), buffer: None };
    assert!(!state.contains_editor_buffer(FlexBoxId(3)));
    state.insert_editor_buffer(FlexBoxId(3), EditorBuffer::new_empty("md"));
    assert!(state.contains_editor_buffer(FlexBoxId(3)));
    assert!(state.get_mut_editor_buffer(FlexBoxId(3)).unwrap().is_empty());
    assert!(state.get_mut_editor_buffer(FlexBoxId(4)).is_none());
}
