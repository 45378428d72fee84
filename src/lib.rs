//! Label printing for a USB label printer: date normalisation, timestamp
//! text, label rendering, printer discovery over sysfs entries and the
//! decisions of a print session.

pub mod text;
pub mod calendar;
pub mod clock;
pub mod label;
pub mod discovery;
pub mod session;
