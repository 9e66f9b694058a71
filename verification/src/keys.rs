//! Which system key a mapping names. Pressing the key belongs to the program
//! around the library.
use vstd::prelude::*;
use vstd::string::StrSliceExecFns;
use vstd::string::StringExecFns;
use crate::text::same_text;

verus! {

/// A key to click.
#[derive(Clone, Copy, Debug, PartialEq, Eq, Structural)]
pub enum Key {
    Space,
    Return,
    UpArrow,
    DownArrow,
    LeftArrow,
    RightArrow,
    /// The key that types this character.
    Layout(char),
}

/// The key a name selects: `Space`, `Enter` or `Return`, the four arrows by
/// direction, or the character of a name made of one ASCII character (a
/// one-byte name). Other names select none.
pub open spec fn key_for_name(s: Seq<char>) -> Option<Key> {
    if s == "Space"@ {
        Some(Key::Space)
    } else if s == "Enter"@ || s == "Return"@ {
        Some(Key::Return)
    } else if s == "Up"@ {
        Some(Key::UpArrow)
    } else if s == "Down"@ {
        Some(Key::DownArrow)
    } else if s == "Left"@ {
        Some(Key::LeftArrow)
    } else if s == "Right"@ {
        Some(Key::RightArrow)
    } else if s.len() == 1 && (s[0] as u32) < 128 {
        Some(Key::Layout(s[0]))
    } else {
        None
    }
}

/// Every name of one ASCII character selects the key that types that
/// character, and the named keys are selected by their names.
pub proof fn lemma_one_character_names_type_that_character(s: Seq<char>)
    ensures
        s.len() == 1 && (s[0] as u32) < 128 ==> key_for_name(s) == Some(Key::Layout(s[0])),
        s == "Space"@ ==> key_for_name(s) == Some(Key::Space),
        s == "Enter"@ || s == "Return"@ ==> key_for_name(s) == Some(Key::Return),
        s == "Up"@ ==> key_for_name(s) == Some(Key::UpArrow),
        s == "Down"@ ==> key_for_name(s) == Some(Key::DownArrow),
        s == "Left"@ ==> key_for_name(s) == Some(Key::LeftArrow),
        s == "Right"@ ==> key_for_name(s) == Some(Key::RightArrow),
{
    reveal_strlit("Space");
    reveal_strlit("Enter");
    reveal_strlit("Return");
    reveal_strlit("Up");
    reveal_strlit("Down");
    reveal_strlit("Left");
    reveal_strlit("Right");
    if s == "Enter"@ || s == "Return"@ {
        assert(s[0] != "Space"@[0]);
    }
    if s == "Up"@ {
        assert(s.len() != "Space"@.len() && s.len() != "Enter"@.len() && s.len() != "Return"@.len());
    }
    if s == "Down"@ {
        assert(s.len() != "Space"@.len() && s.len() != "Enter"@.len() && s.len() != "Return"@.len());
        assert(s.len() != "Up"@.len());
    }
    if s == "Left"@ {
        assert(s.len() != "Space"@.len() && s.len() != "Enter"@.len() && s.len() != "Return"@.len());
        assert(s.len() != "Up"@.len());
        assert(s[0] != "Down"@[0]);
    }
    if s == "Right"@ {
        assert(s[0] != "Space"@[0] && s[0] != "Enter"@[0]);
        assert(s.len() != "Return"@.len() && s.len() != "Up"@.len() && s.len() != "Down"@.len());
        assert(s.len() != "Left"@.len());
    }
    if s.len() == 1 {
        assert(s.len() != "Space"@.len() && s.len() != "Enter"@.len() && s.len() != "Return"@.len());
        assert(s.len() != "Up"@.len() && s.len() != "Down"@.len() && s.len() != "Left"@.len());
        assert(s.len() != "Right"@.len());
    }
}

/// The key for a space.
pub fn send_space() -> (r: Key)
    ensures
        r == Key::Space,
{
    Key::Space
}

/// The key that `name` selects; `None` for an unknown name.
pub fn send_key(name: &str) -> (r: Option<Key>)
    ensures
        r == key_for_name(name@),
{
    let owned = String::from_str(name);
    if same_text(&owned, "Space") {
        Some(Key::Space)
    } else if same_text(&owned, "Enter") || same_text(&owned, "Return") {
        Some(Key::Return)
    } else if same_text(&owned, "Up") {
        Some(Key::UpArrow)
    } else if same_text(&owned, "Down") {
        Some(Key::DownArrow)
    } else if same_text(&owned, "Left") {
        Some(Key::LeftArrow)
    } else if same_text(&owned, "Right") {
        Some(Key::RightArrow)
    } else if name.unicode_len() == 1 && (name.get_char(0) as u32) < 128 {
        Some(Key::Layout(name.get_char(0)))
    } else {
        None
    }
}

} // verus!
