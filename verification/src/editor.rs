//! The detached scenario editor's vocabulary: layouts, sections, actions,
//! confirmations, and the widget identifiers and labels they are shown with.

use vstd::prelude::*;
use vstd::string::*;

use crate::transfer::push_char;

verus! {

#[derive(Clone, Copy, Debug, PartialEq, Eq, Structural)]
pub enum EditorLayoutKind {
    Wide,
    Compact,
}

#[derive(Clone, Copy, Debug, PartialEq, Eq, Structural)]
pub enum EditorSection {
    Worlds,
    Rules,
    Validation,
}

#[derive(Clone, Copy, Debug, PartialEq, Eq, Structural)]
pub enum EditorAction {
    SelectSection(EditorSection),
    SelectWorld(usize),
    Revert,
    FactoryDefaults,
    RegenerateFromSeed,
    Load,
    Save,
    Cancel,
    ApplyAndRestart,
    Confirm,
    DismissConfirmation,
}

#[derive(Clone, Copy, Debug, PartialEq, Eq, Structural)]
pub enum ConfirmationAction {
    Revert,
    FactoryDefaults,
    RegenerateFromSeed,
    LoadDirty,
    OverwriteSave,
    CancelDirty,
    ApplyAndRestart,
}

#[derive(Clone, Copy, Debug, PartialEq, Eq, Structural)]
pub enum WidgetKind {
    Section,
    Preview,
    Field,
    Status,
    Confirmation,
    Action(EditorAction),
}

/// Why the editor refused a request.
#[derive(Clone, Copy, Debug, PartialEq, Eq, Structural)]
pub enum EditorError {
    /// The scenario store failed; its message is the editor's store message.
    Store,
    /// A stored scenario could not be decoded or validated, or the draft
    /// could not be encoded.
    Codec,
    /// The draft does not validate.
    Validation,
    UnknownWidget,
    InvalidText,
    NoConfirmation,
    StaleConfirmation,
    ConfirmationActive,
}

/// A confirmed editor request the session carries out: close the editor, or
/// restart with the validated scenario.
#[derive(Clone, Debug, PartialEq, Eq)]
pub enum ConfirmedEditorAction<S> {
    Cancel,
    ApplyAndRestart(S),
}

pub open spec fn action_text(action: EditorAction) -> Seq<char> {
    match action {
        EditorAction::SelectSection(_) => "action.select_section"@,
        EditorAction::SelectWorld(_) => "action.select_world"@,
        EditorAction::Revert => "action.revert"@,
        EditorAction::FactoryDefaults => "action.factory_defaults"@,
        EditorAction::RegenerateFromSeed => "action.regenerate"@,
        EditorAction::Load => "action.load"@,
        EditorAction::Save => "action.save"@,
        EditorAction::Cancel => "action.cancel"@,
        EditorAction::ApplyAndRestart => "action.apply"@,
        EditorAction::Confirm => "action.confirm"@,
        EditorAction::DismissConfirmation => "action.dismiss_confirmation"@,
    }
}

/// The widget identifier of an action control.
pub fn action_id(action: EditorAction) -> (id: &'static str)
    ensures
        id@ == action_text(action),
{
    match action {
        EditorAction::SelectSection(_) => "action.select_section",
        EditorAction::SelectWorld(_) => "action.select_world",
        EditorAction::Revert => "action.revert",
        EditorAction::FactoryDefaults => "action.factory_defaults",
        EditorAction::RegenerateFromSeed => "action.regenerate",
        EditorAction::Load => "action.load",
        EditorAction::Save => "action.save",
        EditorAction::Cancel => "action.cancel",
        EditorAction::ApplyAndRestart => "action.apply",
        EditorAction::Confirm => "action.confirm",
        EditorAction::DismissConfirmation => "action.dismiss_confirmation",
    }
}

pub open spec fn section_text(section: EditorSection) -> Seq<char> {
    match section {
        EditorSection::Worlds => "WORLDS"@,
        EditorSection::Rules => "RULES"@,
        EditorSection::Validation => "VALIDATION"@,
    }
}

pub fn section_label(section: EditorSection) -> (label: &'static str)
    ensures
        label@ == section_text(section),
{
    match section {
        EditorSection::Worlds => "WORLDS",
        EditorSection::Rules => "RULES",
        EditorSection::Validation => "VALIDATION",
    }
}

pub open spec fn confirmation_text(action: ConfirmationAction) -> Seq<char> {
    match action {
        ConfirmationAction::Revert => "DISCARD DRAFT CHANGES AND REVERT?"@,
        ConfirmationAction::FactoryDefaults => "REPLACE THE DRAFT WITH FACTORY DEFAULTS?"@,
        ConfirmationAction::RegenerateFromSeed => "REPLACE ALL WORLD EDITS FROM THE SEED?"@,
        ConfirmationAction::LoadDirty => "DISCARD DRAFT CHANGES AND LOAD THE SAVED SLOT?"@,
        ConfirmationAction::OverwriteSave => "REPLACE THE OCCUPIED SAVE SLOT?"@,
        ConfirmationAction::CancelDirty => "DISCARD DRAFT CHANGES AND CLOSE THE EDITOR?"@,
        ConfirmationAction::ApplyAndRestart =>
            "DISCARD THE RUNNING SESSION AND START THIS SCENARIO?"@,
    }
}

/// The question a confirmation asks.
pub fn confirmation_message(action: ConfirmationAction) -> (message: &'static str)
    ensures
        message@ == confirmation_text(action),
{
    match action {
        ConfirmationAction::Revert => "DISCARD DRAFT CHANGES AND REVERT?",
        ConfirmationAction::FactoryDefaults => "REPLACE THE DRAFT WITH FACTORY DEFAULTS?",
        ConfirmationAction::RegenerateFromSeed => "REPLACE ALL WORLD EDITS FROM THE SEED?",
        ConfirmationAction::LoadDirty => "DISCARD DRAFT CHANGES AND LOAD THE SAVED SLOT?",
        ConfirmationAction::OverwriteSave => "REPLACE THE OCCUPIED SAVE SLOT?",
        ConfirmationAction::CancelDirty => "DISCARD DRAFT CHANGES AND CLOSE THE EDITOR?",
        ConfirmationAction::ApplyAndRestart =>
            "DISCARD THE RUNNING SESSION AND START THIS SCENARIO?",
    }
}


fn chars_of(text: &str) -> (chars: Vec<char>)
    ensures
        chars@ == text@,
{
    let length = text.unicode_len();
    let mut chars: Vec<char> = Vec::new();
    let mut index: usize = 0;
    while index < length
        invariant
            length == text@.len(),
            index <= length,
            chars@ == text@.subrange(0, index as int),
        decreases length - index,
    {
        chars.push(text.get_char(index));
        proof {
            assert(chars@ =~= text@.subrange(0, index + 1));
        }
        index = index + 1;
    }
    assert(text@.subrange(0, length as int) =~= text@);
    chars
}

/// Whether `chars[start..end]` spells `literal`.
fn segment_is(chars: &Vec<char>, start: usize, end: usize, literal: &str) -> (same: bool)
    requires
        start <= end <= chars@.len(),
    ensures
        same == (chars@.subrange(start as int, end as int) == literal@),
{
    let length = literal.unicode_len();
    if end - start != length {
        return false;
    }
    let mut index: usize = 0;
    while index < length
        invariant
            start <= end <= chars@.len(),
            end - start == length,
            length == literal@.len(),
            index <= length,
            forall|i: int| 0 <= i < index ==> chars@[start + i] == literal@[i],
        decreases length - index,
    {
        if chars[start + index] != literal.get_char(index) {
            assert(chars@.subrange(start as int, end as int)[index as int] != literal@[index as int]);
            return false;
        }
        index = index + 1;
    }
    assert(chars@.subrange(start as int, end as int) =~= literal@);
    true
}

/// Appends `chars[start..end]` to `output`.
fn push_segment(output: &mut String, chars: &Vec<char>, start: usize, end: usize)
    requires
        start <= end <= chars@.len(),
    ensures
        final(output)@ == old(output)@ + chars@.subrange(start as int, end as int),
{
    let mut index = start;
    while index < end
        invariant
            start <= index <= end <= chars@.len(),
            output@ == old(output)@ + chars@.subrange(start as int, index as int),
        decreases end - index,
    {
        push_char(output, chars[index]);
        proof {
            assert(chars@.subrange(start as int, index + 1) =~= chars@.subrange(
                start as int,
                index as int,
            ).push(chars@[index as int]));
            assert(output@ =~= old(output)@ + chars@.subrange(start as int, index + 1));
        }
        index = index + 1;
    }
}

/// Whether `text` begins with `prefix`.
pub open spec fn has_prefix(text: Seq<char>, prefix: Seq<char>) -> bool {
    prefix.len() <= text.len() && text.subrange(0, prefix.len() as int) == prefix
}

/// The first position at or after `from` where `text` holds `c`, if any.
pub open spec fn find_from(text: Seq<char>, c: char, from: int) -> Option<int> {
    if exists|i: int| from <= i < text.len() && text[i] == c {
        Some(
            choose|i: int|
                from <= i < text.len() && text[i] == c && forall|j: int|
                    from <= j < i ==> text[j] != c,
        )
    } else {
        None
    }
}

/// The first position at or after `from` where `text` holds something
/// other than a dot, or its length.
pub open spec fn skip_dots_from(text: Seq<char>, from: int) -> int {
    if exists|i: int| from <= i < text.len() && text[i] != '.' {
        choose|i: int|
            from <= i < text.len() && text[i] != '.' && forall|j: int| from <= j < i ==> text[j] == '.'
    } else {
        text.len() as int
    }
}

/// The field-name aliases of a world issue.
pub open spec fn world_suffix(suffix: Seq<char>) -> Seq<char> {
    if suffix == "position"@ {
        "x"@
    } else if suffix == "fields"@ {
        "atmosphere"@
    } else {
        suffix
    }
}

/// The widget a validation issue about `field` points at: `rules.X` is the
/// rule widget `rule.X`, `worlds[I].F` is the world widget `world.I.F` (with
/// `position` shown in `x` and `fields` in `atmosphere`), and anything else
/// names its widget directly.
pub open spec fn issue_widget_id(field: Seq<char>) -> Seq<char> {
    if has_prefix(field, "rules."@) {
        "rule."@ + field.subrange(6, field.len() as int)
    } else if has_prefix(field, "worlds["@) && find_from(field, ']', 7) is Some {
        let close = find_from(field, ']', 7)->0;
        let start = skip_dots_from(field, close + 1);
        "world."@ + field.subrange(7, close) + "."@ + world_suffix(
            field.subrange(start, field.len() as int),
        )
    } else {
        field
    }
}

pub fn widget_id_for_issue(field: &str) -> (id: String)
    ensures
        id@ == issue_widget_id(field@),
{
    proof {
        reveal_strlit("rules.");
        reveal_strlit("worlds[");
    }
    let chars = chars_of(field);
    let length = chars.len();
    if length >= 6 && segment_is(&chars, 0, 6, "rules.") {
        let mut output = String::from_str("rule.");
        push_segment(&mut output, &chars, 6, length);
        return output;
    }
    if length >= 7 && segment_is(&chars, 0, 7, "worlds[") {
        let mut close: usize = 7;
        while close < length && chars[close] != ']'
            invariant
                7 <= close <= length,
                length == chars@.len(),
                forall|j: int| 7 <= j < close ==> chars@[j] != ']',
            decreases length - close,
        {
            close = close + 1;
        }
        if close < length {
            assert(find_from(field@, ']', 7) == Some(close as int)) by {
                assert(field@[close as int] == ']');
            }
            let mut start = close + 1;
            while start < length && chars[start] == '.'
                invariant
                    close + 1 <= start <= length,
                    length == chars@.len(),
                    forall|j: int| close + 1 <= j < start ==> chars@[j] == '.',
                decreases length - start,
            {
                start = start + 1;
            }
            assert(skip_dots_from(field@, close + 1) == start as int) by {
                if start < length {
                    assert(field@[start as int] != '.');
                }
            }
            let mut output = String::from_str("world.");
            push_segment(&mut output, &chars, 7, close);
            push_char(&mut output, '.');
            if segment_is(&chars, start, length, "position") {
                output.append("x");
            } else if segment_is(&chars, start, length, "fields") {
                output.append("atmosphere");
            } else {
                push_segment(&mut output, &chars, start, length);
            }
            proof {
                reveal_strlit("world.");
                reveal_strlit(".");
            }
            return output;
        }
    }
    String::from_str(field)
}

/// `text` cut to at most `maximum` of its leading characters.
pub open spec fn leading(text: Seq<char>, maximum: nat) -> Seq<char> {
    if maximum < text.len() {
        text.subrange(0, maximum as int)
    } else {
        text
    }
}

/// A label that fits `maximum` bytes is kept; a longer one is cut to its
/// first `maximum` characters, or, when there is room, to `maximum - 3`
/// characters and an ellipsis.
pub open spec fn truncated(text: Seq<char>, byte_len: nat, maximum: nat) -> Seq<char> {
    if byte_len <= maximum {
        text
    } else if maximum <= 3 {
        leading(text, maximum)
    } else {
        leading(text, (maximum - 3) as nat) + "..."@
    }
}

fn leading_chars(text: &str, maximum: usize) -> (output: String)
    ensures
        output@ == leading(text@, maximum as nat),
{
    let length = text.unicode_len();
    let count = if maximum < length {
        maximum
    } else {
        length
    };
    let chars = chars_of(text);
    let mut output = String::new();
    push_segment(&mut output, &chars, 0, count);
    assert(text@.subrange(0, length as int) =~= text@);
    output
}

pub fn truncate_ascii(value: &str, maximum: usize) -> (output: String)
    ensures
        output@ == truncated(value@, value.len() as nat, maximum as nat),
{
    if value.len() <= maximum {
        return value.to_owned();
    }
    if maximum <= 3 {
        return leading_chars(value, maximum);
    }
    let mut output = leading_chars(value, maximum - 3);
    output.append("...");
    output
}

} // verus!
