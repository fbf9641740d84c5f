//! Document blocks: their metadata, the events of their text fields, and
//! the menu entries they offer.

use vstd::prelude::*;
use vstd::string::*;

verus! {

/// Events of a block's text field.
pub enum TextualNodeEvent {
    /// The content changed to the given text.
    Change(String),
    /// The content became empty.
    Empty,
    /// A `/` was typed, which opens the slash menu.
    SlashTyped,
    Backspace,
    Delete,
    Enter,
    Focus,
    Blur,
}

/// A block with a text field that reacts to the field's events.
pub trait TextualNodeDelegate {
    /// Records whether the field has focus.
    fn set_focused(&mut self, focused: bool);

    /// Reacts to an event of the field.
    fn on_textual_event(&mut self, event: TextualNodeEvent);

    /// The field gained focus: record it, then react to `Focus`.
    fn handle_focus(&mut self) {
        self.set_focused(true);
        self.on_textual_event(TextualNodeEvent::Focus);
    }

    /// The field lost focus: record it, then react to `Blur`.
    fn handle_blur(&mut self) {
        self.set_focused(false);
        self.on_textual_event(TextualNodeEvent::Blur);
    }
}

/// An entry of a block's menu, with the action `A` it runs.
pub struct NodeMenuItem<A> {
    pub id: String,
    pub label: String,
    pub icon_path: &'static str,
    pub action: A,
}

impl<A> NodeMenuItem<A> {
    pub fn new(id: &str, label: &str, icon_path: &'static str, action: A) -> (r: Self)
        ensures
            r.id@ == id@,
            r.label@ == label@,
            r.icon_path == icon_path,
            r.action == action,
    {
        NodeMenuItem {
            id: String::from_str(id),
            label: String::from_str(label),
            icon_path,
            action,
        }
    }
}

/// A block that offers menu entries.
pub trait NodeMenuProvider<A> {
    fn menu_items(&self) -> Vec<NodeMenuItem<A>>;
}

/// The content and level of a heading block.
pub struct HeadingMetadata {
    pub content: String,
    pub level: u32,
}

impl Default for HeadingMetadata {
    fn default() -> (r: Self)
        ensures
            r.content@ == Seq::<char>::empty(),
            r.level == 1,
    {
        HeadingMetadata { content: String::new(), level: 1 }
    }
}

/// The content of a text block.
pub struct TextMetadata {
    pub content: String,
}

impl Default for TextMetadata {
    fn default() -> (r: Self)
        ensures
            r.content@ == Seq::<char>::empty(),
    {
        TextMetadata { content: String::new() }
    }
}

/// A divider block; it has no content.
pub struct DividerNode;

/// What comes before the last `c` of `s`, when `s` holds one.
pub open spec fn before_last(s: Seq<char>, c: char) -> Option<Seq<char>>
    decreases s.len(),
{
    if s.len() == 0 {
        None
    } else if s.last() == c {
        Some(s.drop_last())
    } else {
        before_last(s.drop_last(), c)
    }
}

/// The text with its slash command removed: what comes before its last
/// `/`, or the whole text when it has none.
pub fn remove_slash_command(text: &str) -> (r: String)
    ensures
        r@ == match before_last(text@, '/') {
            Some(p) => p,
            None => text@,
        },
{
    let n = text.unicode_len();
    let mut end: usize = n;
    proof {
        assert(text@.subrange(0, n as int) =~= text@);
    }
    while end > 0 && text.get_char(end - 1) != '/'
        invariant
            end <= n,
            n == text@.len(),
            before_last(text@, '/') == before_last(text@.subrange(0, end as int), '/'),
        decreases end,
    {
        proof {
            assert(text@.subrange(0, end as int).drop_last() =~= text@.subrange(0, end - 1));
        }
        end = end - 1;
    }
    if end == 0 {
        proof {
            assert(text@.subrange(0, 0) =~= Seq::<char>::empty());
        }
        String::from_str(text)
    } else {
        proof {
            assert(text@.subrange(0, end as int).drop_last() =~= text@.subrange(0, end - 1));
        }
        String::from_str(text.substring_char(0, end - 1))
    }
}

/// The position of the last `c` in `s`, if any.
pub open spec fn last_index(s: Seq<char>, c: char) -> Option<int>
    decreases s.len(),
{
    if s.len() == 0 {
        None
    } else if s.last() == c {
        Some(s.len() - 1)
    } else {
        last_index(s.drop_last(), c)
    }
}

/// The search typed after a slash command: the text after the last `/`,
/// when that slash ends the text or is followed by something other than a
/// space; otherwise no slash command is being typed.
pub open spec fn slash_query(s: Seq<char>) -> Option<Seq<char>> {
    match last_index(s, '/') {
        Some(p) => if p + 1 == s.len() || s[p + 1] != ' ' {
            Some(s.subrange(p + 1, s.len() as int))
        } else {
            None
        },
        None => None,
    }
}

/// The search of the slash menu for the text of a block's field, or none
/// when the menu is not to be shown.
pub fn slash_menu_query(text: &str) -> (r: Option<String>)
    ensures
        r matches Some(q) ==> slash_query(text@) == Some(q@),
        r is None ==> slash_query(text@) is None,
{
    let n = text.unicode_len();
    let mut end: usize = n;
    proof {
        assert(text@.subrange(0, n as int) =~= text@);
    }
    while end > 0 && text.get_char(end - 1) != '/'
        invariant
            end <= n,
            n == text@.len(),
            last_index(text@, '/') == last_index(text@.subrange(0, end as int), '/'),
        decreases end,
    {
        proof {
            assert(text@.subrange(0, end as int).drop_last() =~= text@.subrange(0, end - 1));
        }
        end = end - 1;
    }
    if end == 0 {
        proof {
            assert(text@.subrange(0, 0) =~= Seq::<char>::empty());
        }
        None
    } else if end == n || text.get_char(end) != ' ' {
        Some(String::from_str(text.substring_char(end, n)))
    } else {
        None
    }
}

/// What a text block does in response to an event of its field.
#[derive(Clone, Copy, Debug, PartialEq, Eq, Structural)]
pub enum TextAction {
    /// Nothing.
    Nothing,
    /// Open the slash menu.
    OpenMenu,
    /// Remove the block, move the focus to the end of the block before it,
    /// and record a change.
    RemoveAndFocusPrevious,
    /// Trim the content, leave the field, insert an empty text block after
    /// this one, and record a change.
    InsertTextAfter,
    /// Record a change.
    MarkChanged,
}

/// The action for `event` given whether the slash menu is open and whether
/// the document holds blocks.
pub open spec fn text_action_for(event: TextualNodeEvent, menu_open: bool, has_nodes: bool) -> TextAction {
    match event {
        TextualNodeEvent::SlashTyped => if menu_open {
            TextAction::Nothing
        } else {
            TextAction::OpenMenu
        },
        TextualNodeEvent::Empty => if has_nodes {
            TextAction::RemoveAndFocusPrevious
        } else {
            TextAction::Nothing
        },
        TextualNodeEvent::Enter => if menu_open {
            TextAction::Nothing
        } else {
            TextAction::InsertTextAfter
        },
        TextualNodeEvent::Change(_) => TextAction::MarkChanged,
        _ => TextAction::Nothing,
    }
}

/// Decides what a text block does for an event of its field.
pub fn text_event_action(event: &TextualNodeEvent, menu_open: bool, has_nodes: bool) -> (r: TextAction)
    ensures
        r == text_action_for(*event, menu_open, has_nodes),
{
    match event {
        TextualNodeEvent::SlashTyped => if menu_open {
            TextAction::Nothing
        } else {
            TextAction::OpenMenu
        },
        TextualNodeEvent::Empty => if has_nodes {
            TextAction::RemoveAndFocusPrevious
        } else {
            TextAction::Nothing
        },
        TextualNodeEvent::Enter => if menu_open {
            TextAction::Nothing
        } else {
            TextAction::InsertTextAfter
        },
        TextualNodeEvent::Change(_) => TextAction::MarkChanged,
        _ => TextAction::Nothing,
    }
}

} // verus!
