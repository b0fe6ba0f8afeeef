//! Verified core of the MeteoStation dashboards: time bucketing, link and
//! signal state, frame selection, colour rules, time windows and selection,
//! the capped time series, and the text and geometry the views display.

pub mod barometer;
pub mod calib;
pub mod clock;
pub mod connection;
pub mod frame;
pub mod geometry;
pub mod image_cache;
pub mod iterm2;
pub mod keys;
pub mod link;
pub mod live;
pub mod metric;
pub mod minute;
pub mod model;
pub mod options;
pub mod selection;
pub mod series;
pub mod text;
pub mod theme;
pub mod window;
