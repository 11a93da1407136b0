pub mod lang;
pub mod labels;
pub mod phase;
pub mod poems;
pub mod raster;
pub mod texture;
pub mod trig;
pub mod ui;
