//! Looking up one virtual machine by its id.
use vstd::prelude::*;
use crate::text::{ascii_case_eq, concat_str, eq_ignore_ascii_case};

verus! {

/// Bytes in one gibibyte.
pub const BYTES_PER_GIB: u64 = 1073741824;

/// One row of the `Msvm_ComputerSystem` class as read for the details view.
#[derive(Debug, Clone, PartialEq, Eq)]
pub struct VmInfoRecord {
    pub element_name: String,
    pub name: String,
    pub number_of_processors: u32,
    pub memory_size_bytes: u64,
}

/// The details of one virtual machine: display name, id, processor count,
/// memory in bytes and in whole gibibytes.
#[derive(Debug, Clone, PartialEq, Eq)]
pub struct VmDetails {
    pub name: String,
    pub id: String,
    pub cpu_count: u32,
    pub total_bytes: u64,
    pub total_gb: u64,
}

/// Why a lookup shows no details: the management service could not be
/// reached, its query failed, it knows no virtual machines, or none has
/// the requested id.
#[derive(Debug, Clone, PartialEq, Eq)]
pub enum LookupFailure {
    Connection,
    Query,
    NoVms,
    NotFound,
}

/// The answer to a lookup: the details, or why there are none with a
/// message.
#[derive(Debug, Clone, PartialEq, Eq)]
pub enum VmInfoResponse {
    Found(VmDetails),
    Error { kind: LookupFailure, message: String },
}

/// Why the rows could not be read: no connection to the management
/// service could be made, or the query itself failed (with its message).
#[derive(Debug, Clone, PartialEq, Eq)]
pub enum WmiFailure {
    Connection(String),
    Query(String),
}

/// The index of the first row whose instance name matches `id`, ignoring
/// ASCII case.
pub open spec fn first_match(rows: Seq<VmInfoRecord>, id: Seq<char>) -> Option<int>
    decreases rows.len(),
{
    if rows.len() == 0 {
        None
    } else {
        match first_match(rows.drop_last(), id) {
            Some(k) => Some(k),
            None => if ascii_case_eq(rows.last().name@, id) {
                Some(rows.len() - 1)
            } else {
                None
            },
        }
    }
}

/// The details describe the given row.
pub open spec fn describes(d: VmDetails, r: VmInfoRecord) -> bool {
    &&& d.name@ == r.element_name@
    &&& d.id@ == r.name@
    &&& d.cpu_count == r.number_of_processors
    &&& d.total_bytes == r.memory_size_bytes
    &&& d.total_gb == r.memory_size_bytes / BYTES_PER_GIB
}

/// The response is the error of the given kind with the given message.
pub open spec fn is_error(out: VmInfoResponse, kind: LookupFailure, msg: Seq<char>) -> bool {
    out matches VmInfoResponse::Error { kind: k, message } && k == kind && message@ == msg
}

/// The lookup's answer for the id and the rows (or failure) read.
pub open spec fn vm_info_answer(
    vm_id: Seq<char>,
    query: Result<Vec<VmInfoRecord>, WmiFailure>,
    out: VmInfoResponse,
) -> bool {
    match query {
        Err(WmiFailure::Connection(e)) => is_error(out, LookupFailure::Connection, e@),
        Err(WmiFailure::Query(e)) => is_error(out, LookupFailure::Query, "Failed to query WMI: "@ + e@),
        Ok(rows) => rows_answer(vm_id, rows@, out),
    }
}

/// The lookup's answer for the id and the rows read.
pub open spec fn rows_answer(vm_id: Seq<char>, rows: Seq<VmInfoRecord>, out: VmInfoResponse) -> bool {
    if rows.len() == 0 {
        is_error(out, LookupFailure::NoVms, "No VMs found in Hyper-V"@)
    } else {
        match first_match(rows, vm_id) {
            Some(k) => out matches VmInfoResponse::Found(d) && describes(d, rows[k]),
            None => is_error(out, LookupFailure::NotFound, "VM with ID "@ + vm_id + " not found"@),
        }
    }
}

/// The first match, when there is one, is an index of a matching row, and
/// no earlier row matches.
pub proof fn lemma_first_match(rows: Seq<VmInfoRecord>, id: Seq<char>)
    ensures
        match first_match(rows, id) {
            Some(k) => 0 <= k < rows.len() && ascii_case_eq(rows[k].name@, id) && forall|j: int|
                0 <= j < k ==> !ascii_case_eq(#[trigger] rows[j].name@, id),
            None => forall|j: int| 0 <= j < rows.len() ==> !ascii_case_eq(#[trigger] rows[j].name@, id),
        },
    decreases rows.len(),
{
    if rows.len() > 0 {
        lemma_first_match(rows.drop_last(), id);
        assert(forall|j: int| 0 <= j < rows.len() - 1 ==> rows.drop_last()[j] == rows[j]);
    }
}

/// What a lookup answers, in terms of the rows read:
/// - details only when the rows were read, taken from the first row whose
///   instance name matches the id ignoring ASCII case (display name, id,
///   processors, bytes, and bytes in whole gibibytes);
/// - whenever some row matches, the details;
/// - "not found" only when the rows were read, there are some, and none
///   matches;
/// - the connection, query and "no machines" errors exactly for a failed
///   connection, a failed query and an empty set of rows.
pub proof fn lemma_vm_info_meaning(
    vm_id: Seq<char>,
    query: Result<Vec<VmInfoRecord>, WmiFailure>,
    out: VmInfoResponse,
)
    requires
        vm_info_answer(vm_id, query, out),
    ensures
        out matches VmInfoResponse::Found(d) ==> (query matches Ok(rows) && exists|k: int|
            0 <= k < rows@.len() && ascii_case_eq(#[trigger] rows@[k].name@, vm_id) && (forall|j: int|
                0 <= j < k ==> !ascii_case_eq(#[trigger] rows@[j].name@, vm_id)) && d.name@
                == rows@[k].element_name@ && d.id@ == rows@[k].name@ && d.cpu_count
                == rows@[k].number_of_processors && d.total_bytes == rows@[k].memory_size_bytes
                && d.total_gb * 1073741824 <= d.total_bytes < (d.total_gb + 1) * 1073741824),
        query matches Ok(rows) && (exists|k: int|
            0 <= k < rows@.len() && ascii_case_eq(#[trigger] rows@[k].name@, vm_id)) ==> out is Found,
        out matches VmInfoResponse::Error { kind: LookupFailure::NotFound, .. } ==> (
        query matches Ok(rows) && rows@.len() > 0 && forall|j: int|
            0 <= j < rows@.len() ==> !ascii_case_eq(#[trigger] rows@[j].name@, vm_id)),
        (out matches VmInfoResponse::Error { kind: LookupFailure::Connection, .. }) <==> (
        query matches Err(WmiFailure::Connection(_))),
        (out matches VmInfoResponse::Error { kind: LookupFailure::Query, .. }) <==> (
        query matches Err(WmiFailure::Query(_))),
        (out matches VmInfoResponse::Error { kind: LookupFailure::NoVms, .. }) <==> (
        query matches Ok(rows) && rows@.len() == 0),
{
    if let Ok(rows) = query {
        lemma_first_match(rows@, vm_id);
        if let Some(k) = first_match(rows@, vm_id) {
            assert(ascii_case_eq(rows@[k].name@, vm_id));
        }
    }
}

/// Looks up the virtual machine whose id is `vm_id` (ignoring ASCII case)
/// among the rows read from the management service, or reports why none
/// can be shown.
pub fn get_vm_info(vm_id: &str, query: Result<Vec<VmInfoRecord>, WmiFailure>) -> (out: VmInfoResponse)
    ensures
        vm_info_answer(vm_id@, query, out),
        out matches VmInfoResponse::Found(d) ==> ascii_case_eq(d.id@, vm_id@),
        out matches VmInfoResponse::Found(d) ==> d.total_gb * BYTES_PER_GIB <= d.total_bytes < (d.total_gb + 1) * BYTES_PER_GIB,
{
    match query {
        Err(WmiFailure::Connection(e)) => VmInfoResponse::Error {
            kind: LookupFailure::Connection,
            message: e,
        },
        Err(WmiFailure::Query(e)) => VmInfoResponse::Error {
            kind: LookupFailure::Query,
            message: concat_str("Failed to query WMI: ", e.as_str()),
        },
        Ok(rows) => find_vm(vm_id, &rows),
    }
}

/// Looks up `vm_id` among rows that were read successfully.
fn find_vm(vm_id: &str, rows: &Vec<VmInfoRecord>) -> (out: VmInfoResponse)
    ensures
        rows_answer(vm_id@, rows@, out),
        out matches VmInfoResponse::Found(d) ==> ascii_case_eq(d.id@, vm_id@),
{
    if rows.len() == 0 {
        return VmInfoResponse::Error {
            kind: LookupFailure::NoVms,
            message: String::from_str("No VMs found in Hyper-V"),
        };
    }
    let n = rows.len();
    let mut i: usize = 0;
    while i < n
        invariant
            n == rows@.len(),
            i <= n,
            first_match(rows@.take(i as int), vm_id@) is None,
        decreases n - i,
    {
        proof {
            assert(rows@.take(i + 1).drop_last() =~= rows@.take(i as int));
        }
        if eq_ignore_ascii_case(rows[i].name.as_str(), vm_id) {
            let row = &rows[i];
            let d = VmDetails {
                name: row.element_name.clone(),
                id: row.name.clone(),
                cpu_count: row.number_of_processors,
                total_bytes: row.memory_size_bytes,
                total_gb: row.memory_size_bytes / BYTES_PER_GIB,
            };
            proof {
                lemma_first_match_extends(rows@, vm_id@, i as int);
            }
            return VmInfoResponse::Found(d);
        }
        i = i + 1;
    }
    proof {
        assert(rows@.take(n as int) =~= rows@);
    }
    let prefix = concat_str("VM with ID ", vm_id);
    VmInfoResponse::Error {
        kind: LookupFailure::NotFound,
        message: concat_str(prefix.as_str(), " not found"),
    }
}

/// When no row before `i` matches and row `i` does, the first match of
/// the whole sequence is `i`.
proof fn lemma_first_match_extends(rows: Seq<VmInfoRecord>, id: Seq<char>, i: int)
    requires
        0 <= i < rows.len(),
        first_match(rows.take(i), id) is None,
        ascii_case_eq(rows[i].name@, id),
    ensures
        first_match(rows, id) == Some(i),
    decreases rows.len(),
{
    if i + 1 == rows.len() {
        assert(rows.drop_last() =~= rows.take(i));
    } else {
        assert(rows.drop_last().take(i) =~= rows.take(i));
        lemma_first_match_extends(rows.drop_last(), id, i);
    }
}

} // verus!
