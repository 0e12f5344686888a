//! The delimiters of the inline grammar.
use vstd::prelude::*;

verus! {

pub const BITALIC_1: &'static str = "***";

pub const BITALIC_2: &'static str = "___";

pub const BOLD_1: &'static str = "**";

pub const BOLD_2: &'static str = "__";

pub const ITALIC_1: &'static str = "*";

pub const ITALIC_2: &'static str = "_";

pub const BACK_TICK: &'static str = "`";

pub const LEFT_BRACKET: &'static str = "[";

pub const RIGHT_BRACKET: &'static str = "]";

pub const LEFT_PARENTHESIS: &'static str = "(";

pub const RIGHT_PARENTHESIS: &'static str = ")";

pub const LEFT_IMAGE: &'static str = "![";

pub const RIGHT_IMAGE: &'static str = "]";

pub const CHECKED: &'static str = "[x]";

pub const UNCHECKED: &'static str = "[ ]";

pub const NEW_LINE: &'static str = "\n";

/// What each delimiter is, character by character.
pub proof fn lemma_delimiters()
    ensures
        BITALIC_1@ == seq!['*', '*', '*'],
        BITALIC_2@ == seq!['_', '_', '_'],
        BOLD_1@ == seq!['*', '*'],
        BOLD_2@ == seq!['_', '_'],
        ITALIC_1@ == seq!['*'],
        ITALIC_2@ == seq!['_'],
        BACK_TICK@ == seq!['`'],
        LEFT_BRACKET@ == seq!['['],
        RIGHT_BRACKET@ == seq![']'],
        LEFT_PARENTHESIS@ == seq!['('],
        RIGHT_PARENTHESIS@ == seq![')'],
        LEFT_IMAGE@ == seq!['!', '['],
        RIGHT_IMAGE@ == seq![']'],
        CHECKED@ == seq!['[', 'x', ']'],
        UNCHECKED@ == seq!['[', ' ', ']'],
        NEW_LINE@ == seq!['\n'],
{
    reveal_strlit("***");
    reveal_strlit("___");
    reveal_strlit("**");
    reveal_strlit("__");
    reveal_strlit("*");
    reveal_strlit("_");
    reveal_strlit("`");
    reveal_strlit("[");
    reveal_strlit("]");
    reveal_strlit("(");
    reveal_strlit(")");
    reveal_strlit("![");
    reveal_strlit("[x]");
    reveal_strlit("[ ]");
    reveal_strlit("\n");
    assert(BITALIC_1@ =~= seq!['*', '*', '*']);
    assert(BITALIC_2@ =~= seq!['_', '_', '_']);
    assert(BOLD_1@ =~= seq!['*', '*']);
    assert(BOLD_2@ =~= seq!['_', '_']);
    assert(ITALIC_1@ =~= seq!['*']);
    assert(ITALIC_2@ =~= seq!['_']);
    assert(BACK_TICK@ =~= seq!['`']);
    assert(LEFT_BRACKET@ =~= seq!['[']);
    assert(RIGHT_BRACKET@ =~= seq![']']);
    assert(LEFT_PARENTHESIS@ =~= seq!['(']);
    assert(RIGHT_PARENTHESIS@ =~= seq![')']);
    assert(LEFT_IMAGE@ =~= seq!['!', '[']);
    assert(RIGHT_IMAGE@ =~= seq![']']);
    assert(CHECKED@ =~= seq!['[', 'x', ']']);
    assert(UNCHECKED@ =~= seq!['[', ' ', ']']);
    assert(NEW_LINE@ =~= seq!['\n']);
}

} // verus!
