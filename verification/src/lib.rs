//! Supervision core of a single-host virtual-machine manager.
//!
//! The crate holds the decisions of the supervisor: identifiers and the names
//! derived from them, the directory layout, the registries, and the state
//! machines of the actor runtime, the image cache and the instances. Every
//! function carries a contract that Verus proves.

pub mod assoc;
pub mod config;
pub mod download;
pub mod id;
pub mod image_cache;
pub mod image_manager;
pub mod instance;
pub mod ipv4;
pub mod logger;
pub mod machine;
pub mod machine_id;
pub mod net;
pub mod network;
pub mod progress_router;
pub mod script;
pub mod server;
pub mod sha256;
pub mod share_dir;
pub mod supervisor;
pub mod task_actor;
pub mod task_group;
pub mod text;
pub mod text_table;
pub mod vmm_dirs;
pub mod yaml;
