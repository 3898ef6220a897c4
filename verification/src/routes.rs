//! The bodies and status codes that the HTTP endpoints answer with.
use vstd::prelude::*;
use crate::virt::getvm::{LookupFailure, VmDetails, VmInfoResponse};
use crate::virt::list::VmList;

verus! {

/// HTTP status of a successful request.
pub const STATUS_OK: u16 = 200;

/// HTTP status of a login whose credentials were refused.
pub const STATUS_UNAUTHORIZED: u16 = 401;

/// HTTP status of a request for a virtual machine that cannot be shown.
pub const STATUS_NOT_FOUND: u16 = 404;

/// HTTP status of a request that failed on the server's side.
pub const STATUS_INTERNAL_SERVER_ERROR: u16 = 500;

/// The body of `GET /`: a status and the current time in milliseconds
/// since the Unix epoch.
#[derive(Debug, Clone, PartialEq, Eq)]
pub struct RootBody {
    pub status: String,
    pub timestamp: i64,
}

/// The body of `GET /host/hostname`: the host name, or the error.
#[derive(Debug, Clone, PartialEq, Eq)]
pub enum HostnameBody {
    Data { hostname: String, time: u128, status: String },
    Error { error: String, time: u128, status: String },
}

/// The status code and body of `GET /host/hostname`.
#[derive(Debug, Clone, PartialEq, Eq)]
pub struct HostnameReply {
    pub status_code: u16,
    pub body: HostnameBody,
}

/// The body of `GET /virt/list`: the listing, or the error.
#[derive(Debug, Clone, PartialEq, Eq)]
pub enum ListBody {
    Data { data: VmList, time: u128, status: String },
    Error { error: String, time: u128, status: String },
}

/// The status code and body of `GET /virt/list`.
#[derive(Debug, Clone, PartialEq, Eq)]
pub struct ListReply {
    pub status_code: u16,
    pub body: ListBody,
}

/// The body of `GET /virt/vm/:id`: the details, or the error.
#[derive(Debug, Clone, PartialEq, Eq)]
pub enum VmBody {
    Data { data: VmDetails, time: u128, status: String },
    Error { error: String, time: u128, status: String },
}

/// The status code and body of `GET /virt/vm/:id`.
#[derive(Debug, Clone, PartialEq, Eq)]
pub struct VmReply {
    pub status_code: u16,
    pub body: VmBody,
}

/// The answer to `GET /` at the given time.
pub fn root_body(timestamp_millis: i64) -> (r: RootBody)
    ensures
        r.status@ == "success"@,
        r.timestamp == timestamp_millis,
{
    RootBody { status: String::from_str("success"), timestamp: timestamp_millis }
}

/// The message of a `GET /host/hostname` that could not read the name.
pub open spec fn hostname_failure_message() -> Seq<char> {
    "Failed to read the host name"@
}

/// The answer to `GET /host/hostname`, which took `time_ms` milliseconds:
/// the name with status 200 when it could be read, and an error with
/// status 500 otherwise.
pub fn hostname_reply(hostname: Option<String>, time_ms: u128) -> (r: HostnameReply)
    ensures
        r.status_code == (if hostname is Some {
            STATUS_OK
        } else {
            STATUS_INTERNAL_SERVER_ERROR
        }),
        match hostname {
            Some(h) => r.body matches HostnameBody::Data { hostname, time, status } && hostname == h
                && time == time_ms && status@ == "success"@,
            None => r.body matches HostnameBody::Error { error, time, status } && error@
                == hostname_failure_message() && time == time_ms && status@ == "error"@,
        },
{
    match hostname {
        Some(h) => HostnameReply {
            status_code: STATUS_OK,
            body: HostnameBody::Data { hostname: h, time: time_ms, status: String::from_str("success") },
        },
        None => HostnameReply {
            status_code: STATUS_INTERNAL_SERVER_ERROR,
            body: HostnameBody::Error {
                error: String::from_str("Failed to read the host name"),
                time: time_ms,
                status: String::from_str("error"),
            },
        },
    }
}

/// The answer to `GET /virt/list`, which took `time_ms` milliseconds: the
/// listing with status 200, or the error of the management service with
/// status 500.
pub fn list_reply(list: Result<VmList, String>, time_ms: u128) -> (r: ListReply)
    ensures
        r.status_code == (if list is Ok {
            STATUS_OK
        } else {
            STATUS_INTERNAL_SERVER_ERROR
        }),
        match list {
            Ok(l) => r.body matches ListBody::Data { data, time, status } && data == l && time
                == time_ms && status@ == "success"@,
            Err(e) => r.body matches ListBody::Error { error, time, status } && error == e && time
                == time_ms && status@ == "error"@,
        },
{
    match list {
        Ok(l) => ListReply {
            status_code: STATUS_OK,
            body: ListBody::Data { data: l, time: time_ms, status: String::from_str("success") },
        },
        Err(e) => ListReply {
            status_code: STATUS_INTERNAL_SERVER_ERROR,
            body: ListBody::Error { error: e, time: time_ms, status: String::from_str("error") },
        },
    }
}

/// Whether a failed lookup is the server's fault (the management service
/// could not be reached or queried) rather than a missing machine.
pub open spec fn is_server_failure(kind: LookupFailure) -> bool {
    kind is Connection || kind is Query
}

/// The status code of a lookup's answer: 200 when found, 500 when the
/// management service failed, 404 when there is no such machine.
pub open spec fn vm_status(info: VmInfoResponse) -> u16 {
    match info {
        VmInfoResponse::Found(_) => STATUS_OK,
        VmInfoResponse::Error { kind, .. } => if is_server_failure(kind) {
            STATUS_INTERNAL_SERVER_ERROR
        } else {
            STATUS_NOT_FOUND
        },
    }
}

/// The answer to `GET /virt/vm/:id`, which took `time_ms` milliseconds: the
/// details with status 200 when the machine was found; otherwise the error
/// message, with status 500 when the management service could not be
/// reached or queried and 404 when no such machine exists.
pub fn get_vm_reply(info: VmInfoResponse, time_ms: u128) -> (r: VmReply)
    ensures
        r.status_code == vm_status(info),
        match info {
            VmInfoResponse::Found(d) => r.body matches VmBody::Data { data, time, status } && data
                == d && time == time_ms && status@ == "success"@,
            VmInfoResponse::Error { message, .. } => r.body matches VmBody::Error {
                error,
                time,
                status,
            } && error == message && time == time_ms && status@ == "error"@,
        },
{
    match info {
        VmInfoResponse::Found(d) => VmReply {
            status_code: STATUS_OK,
            body: VmBody::Data { data: d, time: time_ms, status: String::from_str("success") },
        },
        VmInfoResponse::Error { kind, message } => {
            let status_code = match kind {
                LookupFailure::Connection | LookupFailure::Query => STATUS_INTERNAL_SERVER_ERROR,
                LookupFailure::NoVms | LookupFailure::NotFound => STATUS_NOT_FOUND,
            };
            VmReply {
                status_code,
                body: VmBody::Error { error: message, time: time_ms, status: String::from_str("error") },
            }
        },
    }
}

} // verus!
