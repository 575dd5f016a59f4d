//! Decision logic of the CS2 overlay controller: the bomb state scan, the
//! bomb timer and bomb label overlays, recoil compensation, the engine build
//! information and the application defaults.

pub mod settings;

pub mod bomb;
pub mod bomb_scan;
pub mod overlay;
pub mod build_info;
pub mod recoil;
