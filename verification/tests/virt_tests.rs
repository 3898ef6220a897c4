use al1s::virt::connect::{connect_step, connect_wmi_with_fallback, ConnectAction, ConnectEvent, ConnectPhase};
use al1s::virt::getvm::{get_vm_info, LookupFailure, VmDetails, VmInfoRecord, VmInfoResponse, WmiFailure, BYTES_PER_GIB};
use al1s::virt::list::{get_vm_list, vm_list_outcome, ListFailure, VmRecord, VmSummary};

fn row(element_name: &str, name: &str, state: u16) -> VmRecord {
    VmRecord { element_name: element_name.to_string(), name: name.to_string(), enabled_state: state }
}

fn info(element_name: &str, name: &str, cpus: u32, bytes: u64) -> VmInfoRecord {
    VmInfoRecord {
        element_name: element_name.to_string(),
        name: name.to_string(),
        number_of_processors: cpus,
        memory_size_bytes: bytes,
    }
}

#[test]
fn list_keeps_guests_in_order_and_drops_the_host() {
    let rows = vec![
        row("HOST01", "HOST01", 2),
        row("web", "5D3A-11", 2),
        row("db", "77AB-02", 3),
    ];
    let list = get_vm_list(&rows);
    assert_eq!(
        list.vms,
        vec![
            VmSummary { name: "web".to_string(), id: "5D3A-11".to_string(), state: 2 },
            VmSummary { name: "db".to_string(), id: "77AB-02".to_string(), state: 3 },
        ]
    );
}

#[test]
fn list_of_nothing_is_empty() {
    assert!(get_vm_list(&Vec::new()).vms.is_empty());
    assert!(get_vm_list(&vec![row("h", "h", 2)]).vms.is_empty());
}

#[test]
fn lookup_matches_id_ignoring_ascii_case() {
    let rows = vec![
        info("HOST01", "HOST01", 8, 0),
        info("web", "5d3a-11", 2, 4 * BYTES_PER_GIB + 5),
    ];
    let out = get_vm_info("5D3A-11", Ok(rows));
    assert_eq!(
        out,
        VmInfoResponse::Found(VmDetails {
            name: "web".to_string(),
            id: "5d3a-11".to_string(),
            cpu_count: 2,
            total_bytes: 4 * 1073741824 + 5,
            total_gb: 4,
        })
    );
}

#[test]
fn lookup_takes_the_first_match() {
    let rows = vec![info("first", "ID", 1, 1073741823), info("second", "id", 4, 0)];
    match get_vm_info("Id", Ok(rows)) {
        VmInfoResponse::Found(d) => {
            assert_eq!(d.name, "first");
            assert_eq!(d.total_gb, 0);
            assert_eq!(d.total_bytes, 1073741823);
        }
        other => panic!("unexpected {:?}", other),
    }
}

#[test]
fn lookup_errors() {
    assert_eq!(
        get_vm_info("x", Err(WmiFailure::Connection("Failed to initialize COM library: no".to_string()))),
        VmInfoResponse::Error { kind: LookupFailure::Connection, message: "Failed to initialize COM library: no".to_string() }
    );
    assert_eq!(
        get_vm_info("x", Err(WmiFailure::Query("access denied".to_string()))),
        VmInfoResponse::Error { kind: LookupFailure::Query, message: "Failed to query WMI: access denied".to_string() }
    );
    assert_eq!(
        get_vm_info("x", Ok(Vec::new())),
        VmInfoResponse::Error { kind: LookupFailure::NoVms, message: "No VMs found in Hyper-V".to_string() }
    );
    assert_eq!(
        get_vm_info("abc", Ok(vec![info("web", "abd", 1, 1)])),
        VmInfoResponse::Error { kind: LookupFailure::NotFound, message: "VM with ID abc not found".to_string() }
    );
}

#[test]
fn connection_prefers_v2() {
    let (phase, action) = connect_wmi_with_fallback();
    assert_eq!(phase, ConnectPhase::InitializingCom);
    assert_eq!(action, ConnectAction::InitializeCom);
    let (phase, action) = connect_step(phase, ConnectEvent::ComReady);
    assert_eq!(phase, ConnectPhase::OpeningV2);
    assert_eq!(action, ConnectAction::OpenNamespace("ROOT\\virtualization\\v2".to_string()));
    let (phase, action) = connect_step(phase, ConnectEvent::NamespaceOpened);
    assert_eq!(phase, ConnectPhase::Finished);
    assert_eq!(action, ConnectAction::Connected("ROOT\\virtualization\\v2".to_string()));
}

#[test]
fn connection_falls_back_to_legacy() {
    let (phase, _) = connect_wmi_with_fallback();
    let (phase, _) = connect_step(phase, ConnectEvent::ComReady);
    let (phase, action) = connect_step(phase, ConnectEvent::NamespaceFailed("invalid namespace".to_string()));
    assert_eq!(phase, ConnectPhase::OpeningLegacy);
    assert_eq!(action, ConnectAction::OpenNamespace("ROOT\\virtualization".to_string()));
    let (phase, action) = connect_step(phase, ConnectEvent::NamespaceOpened);
    assert_eq!(phase, ConnectPhase::Finished);
    assert_eq!(action, ConnectAction::Connected("ROOT\\virtualization".to_string()));
}

#[test]
fn connection_failures() {
    let (phase, action) = connect_step(ConnectPhase::InitializingCom, ConnectEvent::ComFailed("0x80004005".to_string()));
    assert_eq!(phase, ConnectPhase::Finished);
    assert_eq!(action, ConnectAction::Failed("Failed to initialize COM library: 0x80004005".to_string()));
    let (phase, action) = connect_step(ConnectPhase::OpeningLegacy, ConnectEvent::NamespaceFailed("gone".to_string()));
    assert_eq!(phase, ConnectPhase::Finished);
    assert_eq!(action, ConnectAction::Failed("Failed to connect to WMI (v2 & legacy): gone".to_string()));
}

#[test]
fn list_outcome_reports_each_failure() {
    let ok = vm_list_outcome(Ok(vec![row("h", "h", 2), row("a", "b", 3)])).unwrap();
    assert_eq!(ok.vms, vec![VmSummary { name: "a".to_string(), id: "b".to_string(), state: 3 }]);
    assert_eq!(
        vm_list_outcome(Err(ListFailure::Com("0x1".to_string()))),
        Err("Failed to initialize COM library: 0x1".to_string())
    );
    assert_eq!(
        vm_list_outcome(Err(ListFailure::Namespace("invalid namespace".to_string()))),
        Err("Failed to connect to WMI: invalid namespace".to_string())
    );
    assert_eq!(
        vm_list_outcome(Err(ListFailure::Query("denied".to_string()))),
        Err("Failed to query WMI: denied".to_string())
    );
}
