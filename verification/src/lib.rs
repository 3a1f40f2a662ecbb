//! Types and helpers for the Proxmox VE API.
use vstd::prelude::*;

pub mod text;

pub mod access;
pub mod array_keys;
pub mod cluster;
pub mod lxc;
pub mod network;
pub mod paths;
pub mod node;
pub mod qemu;
pub mod qemu_config;
pub mod qemu_props;
pub mod query;
pub mod sdn;
pub mod sdn_pending;
pub mod storage;
pub mod tags;
pub mod tasks;
