use vstd::prelude::*;
use crate::config::{keycode_for, keycode_table, modifiers_mask, modifiers_mask_spec, Config, MODIFIER_FILTER};
use crate::text::lowercase;

verus! {

/// What the hotkey listener watches for: a keycode, the modifier flags that must be held with
/// it, and the terminal to open when they are pressed.
pub struct HotkeyContext {
    pub keycode: u16,
    pub modifier_mask: u64,
    pub terminal_app: String,
}

/// The listener context for a configuration; `None` when the configured key has no keycode.
pub fn hotkey_context(cfg: &Config) -> (r: Option<HotkeyContext>)
    ensures
        match keycode_table(lowercase(cfg.hotkey.key@)) {
            Some(k) => r matches Some(ctx) && ctx.keycode == k && ctx.modifier_mask
                == modifiers_mask_spec(cfg.hotkey.modifiers@) && ctx.terminal_app@
                == cfg.terminal.app@,
            None => r is None,
        },
{
    match keycode_for(cfg.hotkey.key.as_str()) {
        Some(keycode) => {
            let modifier_mask = modifiers_mask(cfg.hotkey.modifiers.as_slice());
            Some(HotkeyContext { keycode, modifier_mask, terminal_app: cfg.terminal.app.clone() })
        },
        None => None,
    }
}

/// Whether a key-down event with this keycode and these event flags is the hotkey: the keycode
/// is the context's, and the modifier flags held, ignoring all other flags, are exactly its mask.
pub fn hotkey_matches(ctx: &HotkeyContext, keycode: u16, flags: u64) -> (r: bool)
    ensures
        r == (keycode == ctx.keycode && (flags & MODIFIER_FILTER) == ctx.modifier_mask),
{
    keycode == ctx.keycode && (flags & MODIFIER_FILTER) == ctx.modifier_mask
}

} // verus!
