//! The core of a terminal text editor: an inline markdown tokenizer, a
//! grapheme-aware text buffer with caret and scroll offset, an engine that
//! applies input events to the buffer and renders it into an ordered, layered
//! list of drawing operations, and the styled-text clipping that keeps every
//! painted span inside the viewport.

pub mod units;
pub mod style;
pub mod layout;
pub mod render_op;
pub mod unicode_string;
pub mod styled_text;
pub mod editor_buffer;
pub mod input_event;
pub mod editor_event;
pub mod editor_ops;
pub mod editor_engine;
pub mod editor_engine_api;
pub mod render_laws;
pub mod misc_types;
pub mod md_parser;
pub mod logger_config;

pub use units::{Position, Size};
pub use style::{ANSIBasicColor, Style, TuiColor};
pub use layout::{
    Direction, EditorEngineFlexBox, FlexBox, FlexBoxId, PartialFlexBox, RequestedSizePercent,
};
pub use render_op::{RenderOp, RenderOps, RenderPipeline, ZOrder};
pub use unicode_string::{UnicodeString, UnicodeStringSegmentSliceResult};
pub use styled_text::{List, StyleUSSpan, StyledTexts};
pub use editor_buffer::{CaretKind, EditorBuffer};
pub use input_event::{
    FocusEvent, FunctionKey, InputEvent, Key, KeyPress, ModifierKeysMask, MouseInput,
    MouseInputKind, SpecialKey,
};
pub use editor_event::{CaretDirection, EditorEvent};
pub use editor_engine_api::{
    from_syntect_to_tui, render_line_no_syntax_highlight, render_line_with_syntax_highlight,
    style_of, EditorEngineApplyResponse, DEFAULT_CURSOR_CHAR, EMPTY_STATE_FOCUS_TEXT,
    EMPTY_STATE_TEXT,
};
pub use editor_engine::{
    get_syntax_set, try_get_syntax_ref, try_get_syntax_ref_from,
    try_get_syntect_highlighted_line, ComponentRegistry, EditorArgs, EditorArgsMut,
    EditorEngine, EditorEngineArgs, EditorEngineConfigOptions, HasFocus, HighlightStyle,
    RenderArgs, RgbaColor, ShippedSyntaxSet,
};
pub use md_parser::constants::{
    BACK_TICK, BITALIC_1, BITALIC_2, BOLD_1, BOLD_2, CHECKED, ITALIC_1, ITALIC_2, LEFT_BRACKET,
    LEFT_IMAGE, LEFT_PARENTHESIS, NEW_LINE, RIGHT_BRACKET, RIGHT_IMAGE, RIGHT_PARENTHESIS,
    UNCHECKED,
};
pub use md_parser::parser_element::{
    parse_element_bold, parse_element_bold_italic, parse_element_checkbox, parse_element_code,
    parse_element_image, parse_element_italic, parse_element_link,
    parse_element_markdown_inline, parse_element_plaintext,
};
pub use md_parser::types::{HyperlinkData, MdLineFragment, ParseError, ParseErrorKind};
pub use misc_types::{
    as_str_list, BorderGlyphCharacter, DefaultSize, DialogChoice, HasEditorBuffers,
    MinSize, ScrollOffset, DEFAULT_SYN_HI_FILE_EXT, SPACER, US,
};
pub use logger_config::{
    Color, Config, ConfigBuilder, Level, LevelFilter, LevelPadding, TargetPadding, ThreadLogMode,
    ThreadPadding, TimeFormat, UtcOffset, DEFAULT_TIME_FORMAT,
};
