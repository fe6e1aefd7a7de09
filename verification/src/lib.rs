//! Verified core of termrain: a terminal weather forecast and rain-radar viewer.
//!
//! The modules here hold the decisions and the data transformations of the
//! application; fetching, terminal drawing and floating-point geometry live in
//! the surrounding application crate.
#![allow(unused_imports)]

pub mod area;
pub mod controls;
pub mod geo;
pub mod geocoding;
pub mod i18n;
pub mod icon;
pub mod jma;
pub mod nowcast;
pub mod open_meteo;
pub mod panels;
pub mod palette;
pub mod provider;
pub mod rainviewer;
pub mod raster;
pub mod text;
pub mod tiles;
pub mod time;
