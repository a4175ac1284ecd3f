pub mod app;
pub mod player;
pub mod server;

pub use self::app::{AppConfig, AppConfigCrude};
pub use self::player::{PlayerOption, PlayerOptionCrude};
pub use self::server::{HostId, ServerConfig, ServerConfigCrude};
