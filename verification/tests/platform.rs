use probe_client::platform::gather_register_data;

#[test]
fn register_data_reports_boot_time() {
    let d = gather_register_data().expect("boot time should be readable on this host");
    assert!(d.boot_time > 0);
}
