use obdium::dicts::{list_pids, PidInfo};

fn info(pid: &'static str, name: &'static str) -> PidInfo {
    PidInfo { supported: false, pid, mode: "01", unit: "", pid_name: name, formula: "" }
}

#[test]
fn supported_pids_come_first() {
    let table = vec![info("01", "Monitor status"), info("04", "Engine load"), info("05", "Coolant"), info("0C", "RPM")];
    let supported = vec!["0C".to_string(), "04".to_string()];
    let listed = list_pids(&table, &supported);
    let order: Vec<(&str, bool)> = listed.iter().map(|p| (p.pid, p.supported)).collect();
    assert_eq!(order, vec![("04", true), ("0C", true), ("01", false), ("05", false)]);
}

#[test]
fn nothing_supported_keeps_the_table_order() {
    let table = vec![info("01", "Monitor status"), info("04", "Engine load")];
    let listed = list_pids(&table, &Vec::new());
    let order: Vec<&str> = listed.iter().map(|p| p.pid).collect();
    assert_eq!(order, vec!["01", "04"]);
    assert!(listed.iter().all(|p| !p.supported));
}

#[test]
fn the_pid_table() {
    let table = obdium::dicts::pid_infos();
    assert_eq!(table.len(), 165);
    assert_eq!(table[0].pid, "01");
    assert_eq!(table[0].pid_name, "Monitor status since DTCs cleared");
    let listed = list_pids(&table, &vec!["0C".to_string()]);
    assert_eq!(listed.len(), 165);
    assert!(listed[0].supported);
    assert_eq!(listed[0].pid, "0C");
}
