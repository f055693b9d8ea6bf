//! A tick-driven idle economy: incrementors that accumulate and bank clicks, a shop that
//! unlocks and upgrades them, and bounded histories of what was banked.

pub mod economy;
pub mod incrementor;
pub mod shop;
