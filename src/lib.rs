//! A kana flashcard quiz: a fixed glyph-to-reading table in ten categories, and a session
//! that draws glyphs from the enabled categories, judges typed readings and keeps score.

pub mod kana;
pub mod quiz;
pub mod selection;
