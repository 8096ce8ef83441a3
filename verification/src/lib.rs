//! Acquisition and classification pipeline for a four-electrode EEG headband:
//! connection, calibration and capture states, a command dispatcher whose
//! handlers update one shared context, and a consensus rule over the latest
//! predictions that drives a smart bulb.
//!
//! The crate never inspects a signal sample: every type that carries samples
//! is generic over the sample type.

pub mod brainbit;
pub mod channels;
pub mod commands;
pub mod context;
pub mod dispatcher;
pub mod errors;
pub mod event_handlers;
pub mod events;
pub mod impedance;
pub mod main_state_machine;
pub mod inference;
pub mod model_service;
pub mod mock_headset;
pub mod models;
pub mod ports;
pub mod runtime;
pub mod state_machine;
pub mod tapo;
pub mod text;
pub mod use_cases;
