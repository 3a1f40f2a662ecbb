use pve_api_types::paths::{
    create_token_path, get_task_log_path, lxc_get_config_path, start_qemu_async_path,
    stop_task_path,
};
use pve_api_types::text::push_decimal;

#[test]
fn paths_hold_their_parameters() {
    assert_eq!(lxc_get_config_path("pve1", 100), "/api2/extjs/nodes/pve1/lxc/100/config");
    assert_eq!(start_qemu_async_path("node", 0), "/api2/extjs/nodes/node/qemu/0/status/start");
    assert_eq!(
        create_token_path("root@pam", "tok"),
        "/api2/extjs/access/users/root@pam/token/tok"
    );
    assert_eq!(
        get_task_log_path("n", "UPID:n:1"),
        "/api2/extjs/nodes/n/tasks/UPID:n:1/log"
    );
    assert_eq!(stop_task_path("n", "U"), "/api2/extjs/nodes/n/tasks/U");
}

#[test]
fn decimal_writing() {
    for n in [0u64, 7, 10, 99, 100, 4294967295, u64::MAX] {
        let mut s = String::from("x");
        push_decimal(&mut s, n);
        assert_eq!(s, format!("x{}", n));
    }
}
