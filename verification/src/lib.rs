//! Text-scramble animations and the interaction rules of the site's heading and
//! project links, together with the template rendering entry points.

pub mod glyphs;
pub mod text;
pub mod scramble;
pub mod heading;
pub mod links;
pub mod render;
