//! The screens and the command loop of a small device application, with every
//! decision they take stated as a contract and proved.
//!
//! The device's own toolkit (drawing, touch dispatch, transport) stays outside:
//! this crate says what to draw, what a received packet means, what to answer
//! to a command and what to do next, all in plain values.

pub mod apdu;
pub mod app_loop;
pub mod c_text;
pub mod canvas;
pub mod counts;
pub mod demo;
pub mod keyboard;
pub mod nav;
pub mod seph;
