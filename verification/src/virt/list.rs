//! The list of virtual machines shown to clients.
use vstd::prelude::*;
use crate::text::concat_str;

verus! {

/// One row of the `Msvm_ComputerSystem` class: the display name, the
/// instance name (the host itself is the row whose two names agree), and
/// the enabled state.
#[derive(Debug, Clone, PartialEq, Eq)]
pub struct VmRecord {
    pub element_name: String,
    pub name: String,
    pub enabled_state: u16,
}

/// A virtual machine as listed to clients: display name, id, state.
#[derive(Debug, Clone, PartialEq, Eq)]
pub struct VmSummary {
    pub name: String,
    pub id: String,
    pub state: u16,
}

/// The listing returned to clients.
#[derive(Debug, Clone, PartialEq, Eq)]
pub struct VmList {
    pub vms: Vec<VmSummary>,
}

impl View for VmRecord {
    type V = (Seq<char>, Seq<char>, u16);

    open spec fn view(&self) -> (Seq<char>, Seq<char>, u16) {
        (self.element_name@, self.name@, self.enabled_state)
    }
}

impl View for VmSummary {
    type V = (Seq<char>, Seq<char>, u16);

    open spec fn view(&self) -> (Seq<char>, Seq<char>, u16) {
        (self.name@, self.id@, self.state)
    }
}

/// The summaries as plain values.
pub open spec fn summaries_view(s: Seq<VmSummary>) -> Seq<(Seq<char>, Seq<char>, u16)> {
    s.map_values(|v: VmSummary| v@)
}

/// A row describes a virtual machine, not the host: its display name
/// differs from its instance name.
pub open spec fn is_guest(r: (Seq<char>, Seq<char>, u16)) -> bool {
    r.0 != r.1
}

/// The rows that describe virtual machines, in query order, each as
/// (display name, id, state).
pub open spec fn listed(rows: Seq<VmRecord>) -> Seq<(Seq<char>, Seq<char>, u16)>
    decreases rows.len(),
{
    if rows.len() == 0 {
        Seq::empty()
    } else {
        let rest = listed(rows.drop_last());
        if is_guest(rows.last()@) {
            rest.push(rows.last()@)
        } else {
            rest
        }
    }
}

/// Builds the listing from the rows of the `Msvm_ComputerSystem` query:
/// every row whose display name differs from its instance name, in order.
pub fn get_vm_list(rows: &Vec<VmRecord>) -> (out: VmList)
    ensures
        summaries_view(out.vms@) == listed(rows@),
        summaries_view(out.vms@) == rows@.map_values(
            |r: VmRecord| (r.element_name@, r.name@, r.enabled_state),
        ).filter(|t: (Seq<char>, Seq<char>, u16)| t.0 != t.1),
{
    proof {
        lemma_listed_is_guest_filter(rows@);
    }
    let mut vms: Vec<VmSummary> = Vec::new();
    let n = rows.len();
    let mut i: usize = 0;
    while i < n
        invariant
            n == rows@.len(),
            i <= n,
            summaries_view(vms@) == listed(rows@.take(i as int)),
        decreases n - i,
    {
        let row = &rows[i];
        proof {
            assert(rows@.take(i + 1).drop_last() =~= rows@.take(i as int));
        }
        if row.element_name != row.name {
            vms.push(VmSummary {
                name: row.element_name.clone(),
                id: row.name.clone(),
                state: row.enabled_state,
            });
            proof {
                assert(summaries_view(vms@) =~= summaries_view(vms@.drop_last()).push(vms@.last()@));
            }
        }
        i = i + 1;
    }
    proof {
        assert(rows@.take(n as int) =~= rows@);
    }
    VmList { vms }
}

/// Why the rows for the listing could not be read, with the message of
/// the management service: the COM library could not be initialized, the
/// `v2` virtualization namespace could not be opened, or the query failed.
#[derive(Debug, Clone, PartialEq, Eq)]
pub enum ListFailure {
    Com(String),
    Namespace(String),
    Query(String),
}

/// The message reported for a failed listing.
pub open spec fn list_failure_message(f: ListFailure) -> Seq<char> {
    match f {
        ListFailure::Com(e) => "Failed to initialize COM library: "@ + e@,
        ListFailure::Namespace(e) => "Failed to connect to WMI: "@ + e@,
        ListFailure::Query(e) => "Failed to query WMI: "@ + e@,
    }
}

/// The listing for the rows read, or the message of the failure that kept
/// them from being read.
pub fn vm_list_outcome(rows: Result<Vec<VmRecord>, ListFailure>) -> (out: Result<VmList, String>)
    ensures
        match rows {
            Ok(r) => out matches Ok(l) && summaries_view(l.vms@) == listed(r@),
            Err(f) => out matches Err(m) && m@ == list_failure_message(f),
        },
{
    match rows {
        Ok(r) => Ok(get_vm_list(&r)),
        Err(ListFailure::Com(e)) => Err(concat_str("Failed to initialize COM library: ", e.as_str())),
        Err(ListFailure::Namespace(e)) => Err(concat_str("Failed to connect to WMI: ", e.as_str())),
        Err(ListFailure::Query(e)) => Err(concat_str("Failed to query WMI: ", e.as_str())),
    }
}

/// The listing is exactly the guest rows, in query order: every row whose
/// display name differs from its instance name appears, as (display name,
/// instance name, state), and no other row does.
pub proof fn lemma_listed_is_guest_filter(rows: Seq<VmRecord>)
    ensures
        listed(rows) == rows.map_values(
            |r: VmRecord| (r.element_name@, r.name@, r.enabled_state),
        ).filter(|t: (Seq<char>, Seq<char>, u16)| t.0 != t.1),
    decreases rows.len(),
{
    let f = |r: VmRecord| (r.element_name@, r.name@, r.enabled_state);
    let g = |t: (Seq<char>, Seq<char>, u16)| t.0 != t.1;
    reveal_with_fuel(Seq::filter, 1);
    if rows.len() > 0 {
        lemma_listed_is_guest_filter(rows.drop_last());
        assert(rows.map_values(f).drop_last() =~= rows.drop_last().map_values(f));
        assert(rows.map_values(f).last() == f(rows.last()));
    } else {
        assert(rows.map_values(f) =~= Seq::<(Seq<char>, Seq<char>, u16)>::empty());
    }
}

/// Every listed virtual machine comes from a row whose two names differ,
/// and every such row is listed: the listing keeps exactly the guests.
pub proof fn lemma_listed_are_guests(rows: Seq<VmRecord>)
    ensures
        forall|k: int| 0 <= k < listed(rows).len() ==> is_guest(#[trigger] listed(rows)[k]),
        listed(rows).len() <= rows.len(),
    decreases rows.len(),
{
    if rows.len() > 0 {
        lemma_listed_are_guests(rows.drop_last());
    }
}

} // verus!
