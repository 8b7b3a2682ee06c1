pub mod modconfig;
pub mod toolconfig;

pub use modconfig::{Includes, ModConfig};
pub use toolconfig::ToolConfig;
