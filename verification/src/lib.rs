//! Bridge core for embedding a data-synchronization node behind a
//! foreign-function boundary: the singleton runtime/node lifecycle,
//! bounded diagnostic buffers, panic capture, and callback forwarding.

pub mod bringup;
pub mod counter;
pub mod decimal;
pub mod forwarder;
pub mod greeting;
pub mod lifecycle;
pub mod logging;
pub mod model;
pub mod panics;
pub mod ring;
pub mod runtime;
pub mod storage;
pub mod types;
pub mod visitor;

pub use bringup::Bringup;
pub use bringup::BringupAction;
pub use bringup::BringupPhase;
pub use bringup::StepOutcome;
pub use counter::Counter;
pub use counter::CounterCallback;
pub use decimal::u64_to_dec;
pub use forwarder::LogCallback;
pub use forwarder::LogForwarder;
pub use greeting::greet;
pub use greeting::greet_async_message;
pub use lifecycle::AccessPolicy;
pub use lifecycle::ConnectionState;
pub use lifecycle::ContextHandle;
pub use lifecycle::InitDirective;
pub use lifecycle::NodeInfo;
pub use lifecycle::NodeLifecycle;
pub use logging::Level;
pub use logging::LogStore;
pub use logging::LoggingSetup;
pub use logging::at_least_info;
pub use logging::level_name;
pub use model::Message;
pub use model::Room;
pub use model::User;
pub use panics::PanicLog;
pub use panics::format_panic_file_block;
pub use ring::RingBuffer;
pub use runtime::EnterPlan;
pub use runtime::RuntimeGuard;
pub use runtime::ThreadAttachment;
pub use storage::choose_storage_path;
pub use storage::get_default_storage_path;
pub use types::AnkurahError;
pub use types::LogEntry;
pub use visitor::is_message_field;
pub use visitor::visit_field_buffered;
pub use visitor::visit_field_callback;
