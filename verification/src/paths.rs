//! The paths under which the API serves each request that takes path
//! parameters. Parameters are put into the path as they are; numbers are
//! written in decimal.
use vstd::prelude::*;
use vstd::string::*;

use crate::text::{decimal, push_decimal};

verus! {

/// The path of the request for: Generate a new API token for a specific user. NOTE: returns API token
/// value, which needs to be stored as it cannot be retrieved afterwards!
pub fn create_token_path(userid: &str, tokenid: &str) -> (r: String)
    ensures
        r@ == "/api2/extjs/access/users/"@ + userid@ + "/token/"@ + tokenid@,
{
    let mut path = String::from_str("/api2/extjs/access/users/");
    path.push_str(userid);
    path.push_str("/token/");
    path.push_str(tokenid);
    path
}

/// The path of the request for: Read subscription info.
pub fn get_subscription_path(node: &str) -> (r: String)
    ensures
        r@ == "/api2/extjs/nodes/"@ + node@ + "/subscription"@,
{
    let mut path = String::from_str("/api2/extjs/nodes/");
    path.push_str(node);
    path.push_str("/subscription");
    path
}

/// The path of the request for: Read task list for one node (finished tasks).
pub fn get_task_list_path(node: &str) -> (r: String)
    ensures
        r@ == "/api2/extjs/nodes/"@ + node@ + "/tasks"@,
{
    let mut path = String::from_str("/api2/extjs/nodes/");
    path.push_str(node);
    path.push_str("/tasks");
    path
}

/// The path of the request for: Read task log.
pub fn get_task_log_path(node: &str, upid: &str) -> (r: String)
    ensures
        r@ == "/api2/extjs/nodes/"@ + node@ + "/tasks/"@ + upid@ + "/log"@,
{
    let mut path = String::from_str("/api2/extjs/nodes/");
    path.push_str(node);
    path.push_str("/tasks/");
    path.push_str(upid);
    path.push_str("/log");
    path
}

/// The path of the request for: Read task status.
pub fn get_task_status_path(node: &str, upid: &str) -> (r: String)
    ensures
        r@ == "/api2/extjs/nodes/"@ + node@ + "/tasks/"@ + upid@ + "/status"@,
{
    let mut path = String::from_str("/api2/extjs/nodes/");
    path.push_str(node);
    path.push_str("/tasks/");
    path.push_str(upid);
    path.push_str("/status");
    path
}

/// The path of the request for: LXC container index (per node).
pub fn list_lxc_path(node: &str) -> (r: String)
    ensures
        r@ == "/api2/extjs/nodes/"@ + node@ + "/lxc"@,
{
    let mut path = String::from_str("/api2/extjs/nodes/");
    path.push_str(node);
    path.push_str("/lxc");
    path
}

/// The path of the request for: List available networks
pub fn list_networks_path(node: &str) -> (r: String)
    ensures
        r@ == "/api2/extjs/nodes/"@ + node@ + "/network"@,
{
    let mut path = String::from_str("/api2/extjs/nodes/");
    path.push_str(node);
    path.push_str("/network");
    path
}

/// The path of the request for: Virtual machine index (per node).
pub fn list_qemu_path(node: &str) -> (r: String)
    ensures
        r@ == "/api2/extjs/nodes/"@ + node@ + "/qemu"@,
{
    let mut path = String::from_str("/api2/extjs/nodes/");
    path.push_str(node);
    path.push_str("/qemu");
    path
}

/// The path of the request for: Get status for all datastores.
pub fn list_storages_path(node: &str) -> (r: String)
    ensures
        r@ == "/api2/extjs/nodes/"@ + node@ + "/storage"@,
{
    let mut path = String::from_str("/api2/extjs/nodes/");
    path.push_str(node);
    path.push_str("/storage");
    path
}

/// The path of the request for: Get container configuration.
pub fn lxc_get_config_path(node: &str, vmid: u32) -> (r: String)
    ensures
        r@ == "/api2/extjs/nodes/"@ + node@ + "/lxc/"@ + decimal(vmid as nat) + "/config"@,
{
    let mut path = String::from_str("/api2/extjs/nodes/");
    path.push_str(node);
    path.push_str("/lxc/");
    push_decimal(&mut path, vmid as u64);
    path.push_str("/config");
    path
}

/// The path of the request for: Get virtual machine status.
pub fn lxc_get_status_path(node: &str, vmid: u32) -> (r: String)
    ensures
        r@ == "/api2/extjs/nodes/"@ + node@ + "/lxc/"@ + decimal(vmid as nat) + "/status/current"@,
{
    let mut path = String::from_str("/api2/extjs/nodes/");
    path.push_str(node);
    path.push_str("/lxc/");
    push_decimal(&mut path, vmid as u64);
    path.push_str("/status/current");
    path
}

/// The path of the request for: Migrate the container to another node. Creates a new migration task.
pub fn migrate_lxc_path(node: &str, vmid: u32) -> (r: String)
    ensures
        r@ == "/api2/extjs/nodes/"@ + node@ + "/lxc/"@ + decimal(vmid as nat) + "/migrate"@,
{
    let mut path = String::from_str("/api2/extjs/nodes/");
    path.push_str(node);
    path.push_str("/lxc/");
    push_decimal(&mut path, vmid as u64);
    path.push_str("/migrate");
    path
}

/// The path of the request for: Migrate virtual machine. Creates a new migration task.
pub fn migrate_qemu_path(node: &str, vmid: u32) -> (r: String)
    ensures
        r@ == "/api2/extjs/nodes/"@ + node@ + "/qemu/"@ + decimal(vmid as nat) + "/migrate"@,
{
    let mut path = String::from_str("/api2/extjs/nodes/");
    path.push_str(node);
    path.push_str("/qemu/");
    push_decimal(&mut path, vmid as u64);
    path.push_str("/migrate");
    path
}

/// The path of the request for: Read node status
pub fn node_status_path(node: &str) -> (r: String)
    ensures
        r@ == "/api2/extjs/nodes/"@ + node@ + "/status"@,
{
    let mut path = String::from_str("/api2/extjs/nodes/");
    path.push_str(node);
    path.push_str("/status");
    path
}

/// The path of the request for: Get the virtual machine configuration with pending configuration changes
/// applied. Set the 'current' parameter to get the current configuration
/// instead.
pub fn qemu_get_config_path(node: &str, vmid: u32) -> (r: String)
    ensures
        r@ == "/api2/extjs/nodes/"@ + node@ + "/qemu/"@ + decimal(vmid as nat) + "/config"@,
{
    let mut path = String::from_str("/api2/extjs/nodes/");
    path.push_str(node);
    path.push_str("/qemu/");
    push_decimal(&mut path, vmid as u64);
    path.push_str("/config");
    path
}

/// The path of the request for: Get virtual machine status.
pub fn qemu_get_status_path(node: &str, vmid: u32) -> (r: String)
    ensures
        r@ == "/api2/extjs/nodes/"@ + node@ + "/qemu/"@ + decimal(vmid as nat) + "/status/current"@,
{
    let mut path = String::from_str("/api2/extjs/nodes/");
    path.push_str(node);
    path.push_str("/qemu/");
    push_decimal(&mut path, vmid as u64);
    path.push_str("/status/current");
    path
}

/// The path of the request for: Get preconditions for migration.
pub fn qemu_migrate_preconditions_path(node: &str, vmid: u32) -> (r: String)
    ensures
        r@ == "/api2/extjs/nodes/"@ + node@ + "/qemu/"@ + decimal(vmid as nat) + "/migrate"@,
{
    let mut path = String::from_str("/api2/extjs/nodes/");
    path.push_str(node);
    path.push_str("/qemu/");
    push_decimal(&mut path, vmid as u64);
    path.push_str("/migrate");
    path
}

/// The path of the request for: Migrate the container to another cluster. Creates a new migration task.
/// EXPERIMENTAL feature!
pub fn remote_migrate_lxc_path(node: &str, vmid: u32) -> (r: String)
    ensures
        r@ == "/api2/extjs/nodes/"@ + node@ + "/lxc/"@ + decimal(vmid as nat) + "/remote_migrate"@,
{
    let mut path = String::from_str("/api2/extjs/nodes/");
    path.push_str(node);
    path.push_str("/lxc/");
    push_decimal(&mut path, vmid as u64);
    path.push_str("/remote_migrate");
    path
}

/// The path of the request for: Migrate virtual machine to a remote cluster. Creates a new migration
/// task. EXPERIMENTAL feature!
pub fn remote_migrate_qemu_path(node: &str, vmid: u32) -> (r: String)
    ensures
        r@ == "/api2/extjs/nodes/"@ + node@ + "/qemu/"@ + decimal(vmid as nat) + "/remote_migrate"@,
{
    let mut path = String::from_str("/api2/extjs/nodes/");
    path.push_str(node);
    path.push_str("/qemu/");
    push_decimal(&mut path, vmid as u64);
    path.push_str("/remote_migrate");
    path
}

/// The path of the request for: Shutdown the container. This will trigger a clean shutdown of the
/// container, see lxc-stop(1) for details.
pub fn shutdown_lxc_async_path(node: &str, vmid: u32) -> (r: String)
    ensures
        r@ == "/api2/extjs/nodes/"@ + node@ + "/lxc/"@ + decimal(vmid as nat) + "/status/shutdown"@,
{
    let mut path = String::from_str("/api2/extjs/nodes/");
    path.push_str(node);
    path.push_str("/lxc/");
    push_decimal(&mut path, vmid as u64);
    path.push_str("/status/shutdown");
    path
}

/// The path of the request for: Shutdown virtual machine. This is similar to pressing the power button
/// on a physical machine. This will send an ACPI event for the guest OS,
/// which should then proceed to a clean shutdown.
pub fn shutdown_qemu_async_path(node: &str, vmid: u32) -> (r: String)
    ensures
        r@ == "/api2/extjs/nodes/"@ + node@ + "/qemu/"@ + decimal(vmid as nat) + "/status/shutdown"@,
{
    let mut path = String::from_str("/api2/extjs/nodes/");
    path.push_str(node);
    path.push_str("/qemu/");
    push_decimal(&mut path, vmid as u64);
    path.push_str("/status/shutdown");
    path
}

/// The path of the request for: Start the container.
pub fn start_lxc_async_path(node: &str, vmid: u32) -> (r: String)
    ensures
        r@ == "/api2/extjs/nodes/"@ + node@ + "/lxc/"@ + decimal(vmid as nat) + "/status/start"@,
{
    let mut path = String::from_str("/api2/extjs/nodes/");
    path.push_str(node);
    path.push_str("/lxc/");
    push_decimal(&mut path, vmid as u64);
    path.push_str("/status/start");
    path
}

/// The path of the request for: Start virtual machine.
pub fn start_qemu_async_path(node: &str, vmid: u32) -> (r: String)
    ensures
        r@ == "/api2/extjs/nodes/"@ + node@ + "/qemu/"@ + decimal(vmid as nat) + "/status/start"@,
{
    let mut path = String::from_str("/api2/extjs/nodes/");
    path.push_str(node);
    path.push_str("/qemu/");
    push_decimal(&mut path, vmid as u64);
    path.push_str("/status/start");
    path
}

/// The path of the request for: Stop the container. This will abruptly stop all processes running in the
/// container.
pub fn stop_lxc_async_path(node: &str, vmid: u32) -> (r: String)
    ensures
        r@ == "/api2/extjs/nodes/"@ + node@ + "/lxc/"@ + decimal(vmid as nat) + "/status/stop"@,
{
    let mut path = String::from_str("/api2/extjs/nodes/");
    path.push_str(node);
    path.push_str("/lxc/");
    push_decimal(&mut path, vmid as u64);
    path.push_str("/status/stop");
    path
}

/// The path of the request for: Stop virtual machine. The qemu process will exit immediately. This is
/// akin to pulling the power plug of a running computer and may damage the
/// VM data.
pub fn stop_qemu_async_path(node: &str, vmid: u32) -> (r: String)
    ensures
        r@ == "/api2/extjs/nodes/"@ + node@ + "/qemu/"@ + decimal(vmid as nat) + "/status/stop"@,
{
    let mut path = String::from_str("/api2/extjs/nodes/");
    path.push_str(node);
    path.push_str("/qemu/");
    push_decimal(&mut path, vmid as u64);
    path.push_str("/status/stop");
    path
}

/// The path of the request for: Stop a task.
pub fn stop_task_path(node: &str, upid: &str) -> (r: String)
    ensures
        r@ == "/api2/extjs/nodes/"@ + node@ + "/tasks/"@ + upid@,
{
    let mut path = String::from_str("/api2/extjs/nodes/");
    path.push_str(node);
    path.push_str("/tasks/");
    path.push_str(upid);
    path
}

} // verus!
