//! Rendering engine for a status-bar weather widget.
//!
//! The library turns an already-fetched weather snapshot into two textual
//! artifacts: a short inline label and a multi-line, box-drawn, markup-annotated
//! tooltip. Its central invariant is alignment: every line of a composed
//! tooltip occupies the same number of display columns once markup is
//! stripped, for any city name, icon choice and forecast size.

pub mod boxdraw;
pub mod envelope;
pub mod icons;
pub mod markup;
pub mod numfmt;
pub mod template;
pub mod theme;
pub mod tooltip;
pub mod urlenc;
pub mod width;
