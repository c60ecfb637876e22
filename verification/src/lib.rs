//! Runtime core of an event-driven real-time game: a priority-aware event
//! bus coupled to a fixed-timestep scheduler, plus the domain model (maps,
//! units, factions) that the events speak about.

mod channel;
mod clock;
pub mod engine;
pub mod events;
pub mod faction;
pub mod map;
pub mod scheduler;
pub mod unit;
pub mod validator;

pub use faction::Faction;
pub use faction::FactionType;
pub use faction::Relationship;

pub use map::Cell;
pub use map::CellType;
pub use map::GameMap;
pub use map::MapPosition;
pub use map::Position;

pub use unit::Unit;
pub use unit::UnitStatus;
pub use unit::UnitType;

pub use engine::Engine;
pub use engine::PlainReceiver;

pub use scheduler::GameLoop;
pub use scheduler::LoopConfig;

pub use validator::OutputValidator;
pub use validator::PixelValidator;
pub use validator::ValidationResult;

pub use events::EngineError;
pub use events::EventBus;
pub use events::GameEvent;
pub use events::LogLevel;
pub use events::PrioritizedEvent;
pub use events::Priority;
