//! The editor engine: what it keeps between two frames, and the syntax
//! highlighting it carries with it.
use vstd::prelude::*;
use vstd::string::*;
use syntect::easy::HighlightLines;
use syntect::highlighting::{Theme, ThemeSet};
use syntect::parsing::{SyntaxReference, SyntaxSet};
use crate::editor_buffer::EditorBuffer;
use crate::layout::{EditorEngineFlexBox, FlexBox, FlexBoxId, PartialFlexBox};

use crate::units::Size;

verus! {

/// The syntaxes that the highlighter knows. Nothing is known of what it
/// holds.
#[verifier::external_type_specification]
#[verifier::external_body]
pub struct ExSyntaxSet(SyntaxSet);

/// One syntax of a set of syntaxes. Nothing is known of what it holds.
#[verifier::external_type_specification]
#[verifier::external_body]
pub struct ExSyntaxReference(SyntaxReference);

/// The colors that the highlighter gives to the scopes of a syntax. Nothing
/// is known of what it holds.
#[verifier::external_type_specification]
#[verifier::external_body]
pub struct ExTheme(Theme);

/// A second set of the same syntaxes, as `SyntaxSet::clone` makes it.
pub assume_specification[ <SyntaxSet as Clone>::clone ](syntax_set: &SyntaxSet) -> (r: SyntaxSet)
;

/// A second theme with the same settings, as `Theme::clone` makes it.
pub assume_specification[ <Theme as Clone>::clone ](theme: &Theme) -> (r: Theme)
;

/// The name of the theme that the engine asks for first.
pub const BUNDLED_THEME_NAME: &'static str = "base16-ocean.dark";

/// The syntaxes that ship with the highlighter, for lines that end in a line
/// break, as `SyntaxSet::load_defaults_newlines` loads them.
#[verifier::external_body]
fn load_default_syntax_set() -> SyntaxSet {
    SyntaxSet::load_defaults_newlines()
}

/// The syntaxes that ship with the highlighter. Only `load` and `clone` make
/// a value of this type, so that it never holds a set that somebody put
/// together by hand: the highlighter is handed shipped syntaxes alone.
#[derive(Debug)]
pub struct ShippedSyntaxSet {
    set: SyntaxSet,
}

impl ShippedSyntaxSet {
    /// The syntaxes themselves.
    pub closed spec fn spec_set(&self) -> SyntaxSet {
        self.set
    }

    /// Loads the syntaxes that ship with the highlighter.
    pub fn load() -> (r: ShippedSyntaxSet) {
        ShippedSyntaxSet { set: load_default_syntax_set() }
    }

    /// The syntaxes themselves, to be read.
    pub fn get(&self) -> (r: &SyntaxSet)
        ensures
            *r == self.spec_set(),
    {
        &self.set
    }
}

impl Clone for ShippedSyntaxSet {
    /// A second set of the same shipped syntaxes.
    fn clone(&self) -> (r: ShippedSyntaxSet) {
        ShippedSyntaxSet { set: self.set.clone() }
    }
}

/// The theme of the given name among those that ship with the highlighter,
/// as `ThemeSet::load_defaults` loads them, or nothing where none has that
/// name.
#[verifier::external_body]
fn try_load_bundled_theme(name: &str) -> Option<Theme> {
    ThemeSet::load_defaults().themes.get(name).cloned()
}

/// The theme without any setting, as `Theme::default` makes it.
#[verifier::external_body]
fn load_default_theme() -> Theme {
    Theme::default()
}

/// What a set of syntaxes holds, as far as file extensions go: for each of
/// its syntaxes, in the order in which the set keeps them, the file
/// extensions that the syntax lists.
pub uninterp spec fn syntax_set_extensions(syntax_set: SyntaxSet) -> Seq<Seq<Seq<char>>>;

/// The number of a character, with that of the small letter for a capital
/// letter of the ASCII alphabet.
pub open spec fn spec_ascii_fold(c: char) -> int {
    if 'A' <= c && c <= 'Z' {
        c as u32 + 32
    } else {
        c as u32 as int
    }
}

/// Whether two texts are the same but for the case of their ASCII letters.
pub open spec fn spec_eq_ignore_ascii_case(a: Seq<char>, b: Seq<char>) -> bool {
    &&& a.len() == b.len()
    &&& forall|i: int| 0 <= i < a.len() ==> spec_ascii_fold(#[trigger] a[i]) == spec_ascii_fold(b[i])
}

/// Whether one of the syntaxes lists the file extension, whatever the case
/// of its ASCII letters.
pub open spec fn spec_lists_extension(
    extensions: Seq<Seq<Seq<char>>>,
    file_extension: Seq<char>,
) -> bool {
    exists|i: int, j: int|
        0 <= i < extensions.len() && 0 <= j < extensions[i].len() && spec_eq_ignore_ascii_case(
            #[trigger] extensions[i][j],
            file_extension,
        )
}

/// A syntax of the set that lists the file extension, as
/// `SyntaxSet::find_syntax_by_extension` finds it. That method goes through
/// the syntaxes of the set and through the file extensions of each, and
/// compares each with the one asked for without regard to the case of ASCII
/// letters: there is a result where, and only where, one of them matches.
#[verifier::external_body]
pub fn try_get_syntax_ref<'a>(syntax_set: &'a SyntaxSet, file_extension: &str) -> (r: Option<
    &'a SyntaxReference,
>)
    ensures
        r is Some <==> spec_lists_extension(syntax_set_extensions(*syntax_set), file_extension@),
{
    syntax_set.find_syntax_by_extension(file_extension)
}

/// A color with its transparency.
#[derive(Clone, Copy, Debug, PartialEq, Eq, Hash, Structural)]
pub struct RgbaColor {
    pub r: u8,
    pub g: u8,
    pub b: u8,
    pub a: u8,
}

/// How the highlighter paints a piece of a line: two colors, and the font
/// style as a set of bits, of which the lowest is bold, the next underline
/// and the third italic.
#[derive(Clone, Copy, Debug, PartialEq, Eq, Hash, Structural)]
pub struct HighlightStyle {
    pub foreground: RgbaColor,
    pub background: RgbaColor,
    pub font_style_bits: u8,
}

/// A highlighted line: its pieces with their styles, as character sequences.
pub type HighlightedLineView = Seq<(HighlightStyle, Seq<char>)>;

/// The characters of each piece of a highlighted line.
pub open spec fn spec_highlight_texts(pieces: Seq<(HighlightStyle, String)>) -> Seq<Seq<char>> {
    pieces.map_values(|p: (HighlightStyle, String)| p.1@)
}

/// The pieces of a highlighted line as character sequences.
pub open spec fn spec_highlight_view(pieces: Seq<(HighlightStyle, String)>) -> HighlightedLineView {
    pieces.map_values(|p: (HighlightStyle, String)| (p.0, p.1@))
}

/// What came of highlighting a line, with the pieces as character sequences.
pub open spec fn spec_highlight_outcome(outcome: Option<Vec<(HighlightStyle, String)>>) -> Option<
    HighlightedLineView,
> {
    match outcome {
        Some(pieces) => Some(spec_highlight_view(pieces@)),
        None => None,
    }
}

/// The texts of the pieces of a highlighted line.
pub open spec fn spec_piece_texts(pieces: HighlightedLineView) -> Seq<Seq<char>> {
    pieces.map_values(|p: (HighlightStyle, Seq<char>)| p.1)
}

/// What the highlighter makes of one line, taken by itself, for the syntax
/// that a set of syntaxes lists for a file extension and with the colors of a
/// theme: the styled pieces it cuts the line into, or nothing where the set
/// has no such syntax or the highlighter fails.
pub uninterp spec fn syntect_highlighted_line(
    syntax_set: SyntaxSet,
    theme: Theme,
    file_extension: Seq<char>,
    line: Seq<char>,
) -> Option<Seq<(HighlightStyle, Seq<char>)>>;

/// Highlights one line for the syntax that the shipped set lists for the
/// file extension: finds the syntax with
/// `SyntaxSet::find_syntax_by_extension`, makes a highlighter for it with
/// `HighlightLines::new`, and has it cut the line into styled pieces with
/// `HighlightLines::highlight_line`. Nothing comes back where the set has no
/// such syntax or the highlighter fails. The syntax is looked up in the very
/// set that then parses the line, as the highlighter asks. What comes back
/// is what `syntect_highlighted_line` names: a new highlighter is made for
/// each line, so the outcome rests on the set, the theme, the extension and
/// the line alone. The highlighter hands out consecutive slices of the line
/// from its start, and may stop before its end: the pieces, one after the
/// other, are the beginning of the line.
#[verifier::external_body]
fn highlight_line_with_syntect(
    syntaxes: &ShippedSyntaxSet,
    theme: &Theme,
    file_extension: &str,
    line: &str,
) -> (r: Option<Vec<(HighlightStyle, String)>>)
    ensures
        spec_highlight_outcome(r) == syntect_highlighted_line(
            syntaxes.spec_set(),
            *theme,
            file_extension@,
            line@,
        ),
        r is Some ==> spec_highlight_texts(r->0@).flatten().is_prefix_of(line@),
{
    let syntax = syntaxes.set.find_syntax_by_extension(file_extension)?;
    let pieces = HighlightLines::new(syntax, theme).highlight_line(line, &syntaxes.set).ok()?;
    Some(pieces.into_iter().map(|(s, text)| (HighlightStyle {
        foreground: RgbaColor { r: s.foreground.r, g: s.foreground.g, b: s.foreground.b, a: s.foreground.a },
        background: RgbaColor { r: s.background.r, g: s.background.g, b: s.background.b, a: s.background.a },
        font_style_bits: s.font_style.bits(),
    }, text.to_string())).collect())
}

/// The pieces, where there are any and they are, one after the other, the
/// whole line; nothing else.
pub open spec fn spec_whole_line(outcome: Option<HighlightedLineView>, line: Seq<char>) -> Option<
    HighlightedLineView,
> {
    match outcome {
        Some(pieces) => if spec_piece_texts(pieces).flatten() == line {
            Some(pieces)
        } else {
            None
        },
        None => None,
    }
}

/// What a line is painted from: the pieces that the highlighter cuts it
/// into, where highlighting is switched on, one of the syntaxes lists the
/// file extension, and the highlighter gives pieces that make the whole
/// line; nothing in every other case, and the line is painted plain.
pub open spec fn spec_highlighted_line_of(
    syntax_highlight_enabled: bool,
    syntax_set: SyntaxSet,
    theme: Theme,
    file_extension: Seq<char>,
    line: Seq<char>,
) -> Option<HighlightedLineView> {
    if syntax_highlight_enabled && spec_lists_extension(
        syntax_set_extensions(syntax_set),
        file_extension,
    ) {
        spec_whole_line(syntect_highlighted_line(syntax_set, theme, file_extension, line), line)
    } else {
        None
    }
}

/// Whether the pieces, which are the beginning of the line, are the whole
/// line.
fn pieces_cover_line(pieces: &Vec<(HighlightStyle, String)>, line: &str) -> (r: bool)
    requires
        spec_highlight_texts(pieces@).flatten().is_prefix_of(line@),
    ensures
        r == (spec_highlight_texts(pieces@).flatten() == line@),
{
    let ghost texts = spec_highlight_texts(pieces@);
    let length: usize = line.unicode_len();
    let mut covered: usize = 0;
    let mut i: usize = 0;
    assert(texts.take(0) =~= Seq::<Seq<char>>::empty());
    while i < pieces.len()
        invariant
            i <= pieces.len(),
            texts == spec_highlight_texts(pieces@),
            texts.len() == pieces.len(),
            texts.flatten().is_prefix_of(line@),
            length == line@.len(),
            covered == texts.take(i as int).flatten().len(),
        decreases pieces.len() - i,
    {
        proof {
            crate::unicode_string::lemma_flatten_split(texts, i + 1);
            assert(texts.take(i + 1) =~= texts.take(i as int).push(texts[i as int]));
            texts.take(i as int).lemma_flatten_push(texts[i as int]);
            assert(texts[i as int] == pieces@[i as int].1@);
        }
        covered = covered + pieces[i].1.as_str().unicode_len();
        i += 1;
    }
    assert(texts.take(pieces.len() as int) =~= texts);
    assert(line@.subrange(0, line@.len() as int) =~= line@);
    covered == length
}

/// What an editor is asked to do and not to do.
#[derive(Clone, Copy, Debug, PartialEq, Eq, Hash, Structural)]
pub struct EditorEngineConfigOptions {
    /// Whether the text may have more than one line.
    pub multiline: bool,
    /// Whether lines are highlighted where a syntax is known.
    pub syntax_highlight: bool,
}

impl Default for EditorEngineConfigOptions {
    fn default() -> (r: EditorEngineConfigOptions)
        ensures
            r == (EditorEngineConfigOptions { multiline: true, syntax_highlight: true }),
    {
        EditorEngineConfigOptions { multiline: true, syntax_highlight: true }
    }
}

/// What an editor keeps between two frames: the box it last painted into,
/// its options, and the syntaxes and the theme for highlighting, which are
/// costly to load and are loaded once.
#[derive(Debug)]
pub struct EditorEngine {
    /// Set by `render_engine`.
    pub current_box: EditorEngineFlexBox,
    pub config_options: EditorEngineConfigOptions,
    pub syntax_set: ShippedSyntaxSet,
    pub theme: Theme,
}

impl EditorEngine {
    /// An engine with the given options that has painted nothing yet. It
    /// loads the syntaxes that ship with the highlighter and asks for the
    /// bundled theme; where that is not to be had, it takes the theme
    /// without settings.
    pub fn new(config_options: EditorEngineConfigOptions) -> (r: EditorEngine)
        ensures
            r.config_options == config_options,
            r.current_box == PartialFlexBox::spec_of(FlexBox::spec_default()),
    {
        let theme = match try_load_bundled_theme(BUNDLED_THEME_NAME) {
            Some(theme) => theme,
            None => load_default_theme(),
        };
        EditorEngine {
            current_box: PartialFlexBox::default(),
            config_options,
            syntax_set: ShippedSyntaxSet::load(),
            theme,
        }
    }

    /// The number of columns of the box that was painted last.
    pub fn viewport_width(&self) -> (r: u32)
        ensures
            r == self.current_box.style_adjusted_bounds_size.col_count,
    {
        self.current_box.style_adjusted_bounds_size.col_count
    }

    /// The number of rows of the box that was painted last.
    pub fn viewport_height(&self) -> (r: u32)
        ensures
            r == self.current_box.style_adjusted_bounds_size.row_count,
    {
        self.current_box.style_adjusted_bounds_size.row_count
    }

    /// The size of the box that was painted last.
    pub open spec fn spec_viewport(&self) -> Size {
        self.current_box.style_adjusted_bounds_size
    }
}

impl Clone for EditorEngine {
    /// A second engine with the same box and options, and with copies of the
    /// syntaxes and of the theme.
    fn clone(&self) -> (r: EditorEngine)
        ensures
            r.current_box == self.current_box,
            r.config_options == self.config_options,
    {
        EditorEngine {
            current_box: self.current_box,
            config_options: self.config_options,
            syntax_set: self.syntax_set.clone(),
            theme: self.theme.clone(),
        }
    }
}

impl Default for EditorEngine {
    fn default() -> (r: EditorEngine)
        ensures
            r.config_options == (EditorEngineConfigOptions {
                multiline: true,
                syntax_highlight: true,
            }),
            r.current_box == PartialFlexBox::spec_of(FlexBox::spec_default()),
    {
        EditorEngine::new(EditorEngineConfigOptions { multiline: true, syntax_highlight: true })
    }
}

/// The syntaxes of an engine.
pub fn get_syntax_set(engine: &EditorEngine) -> (r: &SyntaxSet)
    ensures
        *r == engine.syntax_set.spec_set(),
{
    engine.syntax_set.get()
}

/// A syntax that the engine knows for the file extension of the buffer.
/// There is one where, and only where, one of the syntaxes of the engine
/// lists that file extension.
pub fn try_get_syntax_ref_from<'a>(editor_engine: &'a EditorEngine, editor_buffer: &EditorBuffer) -> (r:
    Option<&'a SyntaxReference>)
    ensures
        r is Some <==> spec_lists_extension(
            syntax_set_extensions(editor_engine.syntax_set.spec_set()),
            editor_buffer@.file_extension,
        ),
{
    let syntax_set = get_syntax_set(editor_engine);
    let file_extension = editor_buffer.get_file_extension();
    try_get_syntax_ref(syntax_set, file_extension)
}

/// The line cut into styled pieces, where highlighting is switched on, one
/// of the syntaxes of the engine lists the file extension of the buffer, and
/// the highlighter gives pieces that are, one after the other, the whole
/// line. In every other case there is nothing, and the line is to be painted
/// plain.
pub fn try_get_syntect_highlighted_line(
    syntax_highlight_enabled: bool,
    editor_engine: &EditorEngine,
    editor_buffer: &EditorBuffer,
    line: &str,
) -> (r: Option<Vec<(HighlightStyle, String)>>)
    ensures
        spec_highlight_outcome(r) == spec_highlighted_line_of(
            syntax_highlight_enabled,
            editor_engine.syntax_set.spec_set(),
            editor_engine.theme,
            editor_buffer@.file_extension,
            line@,
        ),
        r is Some ==> spec_highlight_texts(r->0@).flatten() == line@,
{
    if !syntax_highlight_enabled {
        return None;
    }
    if try_get_syntax_ref_from(editor_engine, editor_buffer).is_none() {
        return None;
    }
    match highlight_line_with_syntect(
        &editor_engine.syntax_set,
        &editor_engine.theme,
        editor_buffer.get_file_extension(),
        line,
    ) {
        Some(pieces) => {
            proof {
                assert(spec_piece_texts(spec_highlight_view(pieces@)) =~= spec_highlight_texts(
                    pieces@,
                ));
            }
            if pieces_cover_line(&pieces, line) {
                Some(pieces)
            } else {
                None
            }
        },
        None => None,
    }
}

/// Which box of the layout holds the focus, if any does.
#[derive(Clone, Copy, Debug, PartialEq, Eq)]
pub struct HasFocus {
    pub maybe_id: Option<FlexBoxId>,
}

impl HasFocus {
    /// Whether the box of the given name holds the focus.
    pub open spec fn spec_does_id_have_focus(&self, id: FlexBoxId) -> bool {
        self.maybe_id == Some(id)
    }

    pub fn does_id_have_focus(&self, id: FlexBoxId) -> (r: bool)
        ensures
            r == self.spec_does_id_have_focus(id),
    {
        match self.maybe_id {
            Some(focused) => focused.0 == id.0,
            None => false,
        }
    }

    /// Gives the focus to the box of the given name.
    pub fn set_id(&mut self, id: FlexBoxId)
        ensures
            final(self).maybe_id == Some(id),
    {
        self.maybe_id = Some(id);
    }
}

impl Default for HasFocus {
    fn default() -> (r: HasFocus)
        ensures
            r.maybe_id is None,
    {
        HasFocus { maybe_id: None }
    }
}

/// What the components of a window share with the engines they hold.
#[derive(Clone, Copy, Debug, PartialEq, Eq)]
pub struct ComponentRegistry {
    pub has_focus: HasFocus,
}

impl Default for ComponentRegistry {
    fn default() -> (r: ComponentRegistry)
        ensures
            r.has_focus.maybe_id is None,
    {
        ComponentRegistry { has_focus: HasFocus { maybe_id: None } }
    }
}

/// What the engine needs to apply an event or to paint a frame.
pub struct EditorEngineArgs<'a, S> {
    pub editor_buffer: &'a EditorBuffer,
    pub editor_engine: &'a mut EditorEngine,
    pub component_registry: &'a ComponentRegistry,
    pub shared_global_data: &'a S,
    pub self_id: FlexBoxId,
}

/// What the parts of the engine that paint need.
pub struct RenderArgs<'a> {
    pub editor_buffer: &'a EditorBuffer,
    pub component_registry: &'a ComponentRegistry,
    pub editor_engine: &'a EditorEngine,
}

/// An engine and a buffer that may be changed.
pub struct EditorArgsMut<'a> {
    pub editor_engine: &'a mut EditorEngine,
    pub editor_buffer: &'a mut EditorBuffer,
}

/// An engine and a buffer that are only read.
pub struct EditorArgs<'a> {
    pub editor_engine: &'a EditorEngine,
    pub editor_buffer: &'a EditorBuffer,
}

} // verus!
