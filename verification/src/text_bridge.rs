//! The hidden text area that carries native text input for the focused
//! editor: what a sync writes into it.

use vstd::prelude::*;

verus! {

/// What the bridge needs of the focused editor: its text and its selection
/// as character offsets.
pub struct EditorSnapshot {
    pub text: String,
    pub selection_start: usize,
    pub selection_end: usize,
}

/// The writes of one sync: a new value for the text area when it differs
/// from what it holds, the selection to set, and whether the text area takes
/// focus (`true`) or gives it up (`false`).
pub struct BridgeSync {
    pub set_value: Option<String>,
    pub selection: Option<(u32, u32)>,
    pub focus: bool,
}

/// The view of an optional string.
pub open spec fn opt_text(s: Option<String>) -> Option<Seq<char>> {
    match s {
        Some(t) => Some(t@),
        None => None,
    }
}

/// Plans syncing the text area, which currently holds `current`, with the
/// focused editor: with an editor, its text (only when different), its
/// selection (offsets as `u32`, wrapping as `as` does) and focus; without
/// one, clearing a non-empty text area and giving up focus.
pub fn text_bridge_sync(current: &str, editor: Option<&EditorSnapshot>) -> (s: BridgeSync)
    ensures
        match editor {
            Some(e) => {
                &&& opt_text(s.set_value) == (if current@ == e.text@ {
                    None
                } else {
                    Some(e.text@)
                })
                &&& s.selection == Some((e.selection_start as u32, e.selection_end as u32))
                &&& s.focus
            },
            None => {
                &&& opt_text(s.set_value) == (if current@.len() == 0 {
                    None
                } else {
                    Some(Seq::<char>::empty())
                })
                &&& s.selection is None
                &&& !s.focus
            },
        },
{
    match editor {
        Some(e) => {
            let held = current.to_owned();
            let set_value = if held == e.text {
                None
            } else {
                Some(e.text.clone())
            };
            BridgeSync {
                set_value,
                selection: Some((e.selection_start as u32, e.selection_end as u32)),
                focus: true,
            }
        },
        None => {
            let set_value = if current.is_empty() {
                None
            } else {
                Some(String::new())
            };
            BridgeSync { set_value, selection: None, focus: false }
        },
    }
}

} // verus!
