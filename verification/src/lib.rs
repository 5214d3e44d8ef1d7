//! Verified core of the spell wheel mod for Elden Ring: the FMG message-file
//! reader and the glyph ranges built from the item names, the sprite layouts
//! and colour statistics of the menu icons, the settings and their reload,
//! the controller and keyboard state, and the per-frame rules that pick the
//! open wheel and apply the player's selection.
pub mod utf16;
pub mod text;
pub mod glyphs;
pub mod icons;
pub mod font;
pub mod debugging;
pub mod settings;
pub mod items;
pub mod spells;
pub mod gamepad;
pub mod keyboard;
pub mod rendering;
pub mod tick;
pub mod expanded_memory_slots;
