//! Decision logic of a box that plays audio folders selected by RFID figures.

pub mod buttons;
pub mod leds;
pub mod player;
pub mod rfid;
pub mod sleep;
pub mod tags;
