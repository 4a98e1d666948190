use crate::text::push_str;
use vstd::prelude::*;

verus! {

/// Whether a shortcut is configured for translating the selection (an empty one is none).
pub fn should_register(shortcut: &str) -> (r: bool)
    ensures
        r == (shortcut@.len() > 0),
{
    !shortcut.is_empty()
}

/// The message of a failed shortcut update.
pub fn update_error(detail: &str) -> (r: String)
    ensures
        r@ == "更新快捷键失败："@ + detail@,
{
    let mut r = String::new();
    push_str(&mut r, "更新快捷键失败：");
    push_str(&mut r, detail);
    r
}

} // verus!
