pub mod modules;
pub mod profiles;
pub mod update;
