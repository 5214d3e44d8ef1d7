//! Which characters the item-name files use, so that fonts carry their glyphs.
pub mod fmg;
pub mod builder;
pub mod generic_reader;
pub mod font_manager;
pub mod reader;
pub mod modded_reader;
pub mod vanilla_reader;
