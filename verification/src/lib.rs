//! Per-user storage volumes backed by loopback-mounted filesystem images,
//! with quota enforcement, a virtual path namespace, and non-blocking
//! backup/restore job orchestration.
//!
//! The crate is organised around four cooperating pieces:
//! a quota guard (pure validation of byte ceilings), a path resolver
//! (virtual client paths to physical mount paths), a volume lifecycle
//! manager (provision / resize / mount / delete, expressed as checked
//! command plans that a host driver executes), and a job orchestrator
//! (persisted job records fed by a progress relay).

pub mod clock;
pub mod crypto;
pub mod encoding;
pub mod errors;
pub mod files;
pub mod hash;
pub mod hostinfo;
pub mod ids;
pub mod jobs;
pub mod lifecycle;
pub mod mount_actions;
pub mod mount_handlers;
pub mod mount_dtos;
pub mod mounts;
pub mod paths;
pub mod quota;
pub mod secret;
pub mod store;
pub mod strutil;
pub mod traits;
pub mod user_actions;
pub mod user_handlers;
pub mod user_dtos;
pub mod users;
