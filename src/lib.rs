//! Debounced multi-sensor notifier.
//!
//! Each sensor line is watched by a [`watcher::Watcher`] state machine that
//! debounces edges and reports the settled level as a [`event::SensorEvent`].
//! Events travel through a single-slot [`channel::EventChannel`] to one
//! [`manager::OutputBank`], which mirrors every sensor on its output line.
//! The asynchronous driver (edge waits, timers, pins, logging) lives outside
//! this crate and only performs the actions these machines ask for.
pub mod channel;
pub mod event;
pub mod level;
pub mod manager;
pub mod sim;
pub mod startup;
pub mod watcher;
