use al1s::host::{get_hostname, read_hostname};
use al1s::routes::{get_vm_reply, hostname_reply, list_reply, root_body, HostnameBody, ListBody, VmBody};
use al1s::virt::getvm::{LookupFailure, VmDetails, VmInfoResponse};
use al1s::virt::list::{VmList, VmSummary};

#[test]
fn hostname_from_command_output() {
    assert_eq!(get_hostname(Some(b"DESKTOP-42\r\n".to_vec())), "DESKTOP-42");
    assert_eq!(get_hostname(Some(b"  srv \n".to_vec())), "srv");
    assert_eq!(get_hostname(Some(vec![0x66, 0xFF])), "");
    assert_eq!(get_hostname(None), "");
    assert_eq!(get_hostname(Some(Vec::new())), "");
}

#[test]
fn hostname_trims_unicode_white_space_at_both_ends() {
    assert_eq!(get_hostname(Some("\u{3000}a b\u{85}\u{2009}".as_bytes().to_vec())), "a b");
    assert_eq!(get_hostname(Some(b" \t\n".to_vec())), "");
    assert_eq!(get_hostname(Some(b"x".to_vec())), "x");
    assert_eq!(get_hostname(Some("h\u{e9}te".as_bytes().to_vec())), "h\u{e9}te");
    assert_eq!(get_hostname(Some(vec![0xC3, 0xA9])), "\u{e9}");
    assert_eq!(get_hostname(Some(vec![0xC3])), "");
}

fn details() -> VmDetails {
    VmDetails { name: "web".to_string(), id: "ID1".to_string(), cpu_count: 2, total_bytes: 10, total_gb: 0 }
}

#[test]
fn found_machine_answers_200_with_data() {
    let reply = get_vm_reply(VmInfoResponse::Found(details()), 7);
    assert_eq!(reply.status_code, 200);
    assert_eq!(reply.body, VmBody::Data { data: details(), time: 7, status: "success".to_string() });
}

#[test]
fn missing_machine_answers_404_with_error() {
    let reply = get_vm_reply(
        VmInfoResponse::Error { kind: LookupFailure::NotFound, message: "VM with ID x not found".to_string() },
        3,
    );
    assert_eq!(reply.status_code, 404);
    assert_eq!(
        reply.body,
        VmBody::Error { error: "VM with ID x not found".to_string(), time: 3, status: "error".to_string() }
    );
}

#[test]
fn no_machines_answers_404() {
    let reply = get_vm_reply(
        VmInfoResponse::Error { kind: LookupFailure::NoVms, message: "No VMs found in Hyper-V".to_string() },
        1,
    );
    assert_eq!(reply.status_code, 404);
}

#[test]
fn management_failures_answer_500() {
    for kind in [LookupFailure::Connection, LookupFailure::Query] {
        let reply = get_vm_reply(VmInfoResponse::Error { kind, message: "boom".to_string() }, 4);
        assert_eq!(reply.status_code, 500);
        assert_eq!(reply.body, VmBody::Error { error: "boom".to_string(), time: 4, status: "error".to_string() });
    }
}

#[test]
fn read_hostname_reports_failures() {
    assert_eq!(read_hostname(None), None);
    assert_eq!(read_hostname(Some(vec![0xFF])), None);
    assert_eq!(read_hostname(Some(b" srv\n".to_vec())), Some("srv".to_string()));
}

#[test]
fn hostname_reply_answers_200_or_500() {
    let ok = hostname_reply(Some("srv".to_string()), 12);
    assert_eq!(ok.status_code, 200);
    assert_eq!(ok.body, HostnameBody::Data { hostname: "srv".to_string(), time: 12, status: "success".to_string() });
    let failed = hostname_reply(None, 9);
    assert_eq!(failed.status_code, 500);
    assert_eq!(
        failed.body,
        HostnameBody::Error { error: "Failed to read the host name".to_string(), time: 9, status: "error".to_string() }
    );
}

#[test]
fn list_reply_answers_200_or_500() {
    let list = VmList { vms: vec![VmSummary { name: "a".to_string(), id: "b".to_string(), state: 2 }] };
    let ok = list_reply(Ok(list.clone()), 5);
    assert_eq!(ok.status_code, 200);
    assert_eq!(ok.body, ListBody::Data { data: list, time: 5, status: "success".to_string() });
    let failed = list_reply(Err("Failed to query WMI: denied".to_string()), 6);
    assert_eq!(failed.status_code, 500);
    assert_eq!(
        failed.body,
        ListBody::Error { error: "Failed to query WMI: denied".to_string(), time: 6, status: "error".to_string() }
    );
}

#[test]
fn root_body_at_a_time() {
    let r = root_body(1_700_000_000_123);
    assert_eq!(r.status, "success");
    assert_eq!(r.timestamp, 1_700_000_000_123);
}
