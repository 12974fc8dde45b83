//! An asynchronous file-compression job subsystem.
//!
//! A client uploads an artifact, requests compression of it at a chosen
//! level, and polls for completion.  The job lifecycle controller creates a
//! job record in state `Compressing`, hands a unit of work to a scheduler,
//! and reconciles the terminal status (`Passed` or `Failed`) once the work
//! finishes.  The record store and the blob store are modelled in memory so
//! that every rule of the lifecycle is stated and proved; the compression
//! engine is flate2, called through a small trusted boundary.

pub mod app;
pub mod blob;
pub mod dtos;
pub mod engine;
pub mod errors;
pub mod handlers;
pub mod helpers;
pub mod lifecycle;
pub mod models;
pub mod scheduler;
pub mod services;
pub mod text;
