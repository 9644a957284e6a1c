pub mod bagua;
pub mod compass;
pub mod error;
pub mod ganzhi;
pub mod jiuxing;
pub mod language;
pub mod planet;
pub mod shengsi;
pub mod solar_terms;
pub mod test_mods;
pub mod utils;
pub mod wuxing;
