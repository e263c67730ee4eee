//! The logic of Buzz's agent gateway: turns that run as jobs of a host gateway,
//! turns on a shared session, the worker that the gateway drives, and the local
//! control service of the desktop with its command-line client.
//!
//! The library does no input or output. Where outside work and decisions alternate,
//! it offers a machine that says what to do next and is told what happened.

pub mod text;
pub mod ids;
pub mod json;
pub mod framing;
pub mod wire;
pub mod outcome;

pub mod gateway_api;
pub mod turn_executor;

pub mod shared_gateway;
pub mod shared_turn;
pub mod shared_history;
pub mod publish;

pub mod gwp_worker;
pub mod worker_history;

pub mod control_client;
pub mod managed_agents;
pub mod provision;
pub mod provision_history;
pub mod local_control;
pub mod service_start;
