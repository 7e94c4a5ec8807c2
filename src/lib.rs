//! Start-up lifecycle of a desktop application: the decisions that the
//! toolkit's startup, activation and exit notifications lead to.

pub mod lifecycle;
pub mod run;

pub use lifecycle::{Action, Bootstrap, Event, Phase, STYLE_PATH};
pub use run::replay;
