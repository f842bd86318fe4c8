//! The report of a VMCS's guest state: a heading, then one line for each
//! reported field, its label, `=` and its value as sixteen hexadecimal
//! digits. The fields are read from the VMCS by the host; the report is
//! formed here from the values read.
use vstd::prelude::*;
use crate::text::{hex_text, push_hex};
use crate::vmcs_setup::VmcsField;

verus! {

/// The number of lines of the report after its heading.
pub const REPORT_LINES: usize = 63;

/// The label of line `i` of the report, and the field it shows.
pub open spec fn report_line(i: int) -> (Seq<char>, VmcsField) {
    if i == 0 {
        ("activity_state"@, VmcsField::GuestActivityState)
    } else
    if i == 1 {
        ("bndcfgs"@, VmcsField::GuestBndcfgs)
    } else
    if i == 2 {
        ("cr0"@, VmcsField::GuestCr0)
    } else
    if i == 3 {
        ("cr3"@, VmcsField::GuestCr3)
    } else
    if i == 4 {
        ("cr4"@, VmcsField::GuestCr4)
    } else
    if i == 5 {
        ("cs_ar"@, VmcsField::GuestCsArBytes)
    } else
    if i == 6 {
        ("cs_base"@, VmcsField::GuestCsBase)
    } else
    if i == 7 {
        ("cs_limit"@, VmcsField::GuestCsLimit)
    } else
    if i == 8 {
        ("cs_selector"@, VmcsField::GuestCsSelector)
    } else
    if i == 9 {
        ("ds_ar"@, VmcsField::GuestDsArBytes)
    } else
    if i == 10 {
        ("ds_base"@, VmcsField::GuestDsBase)
    } else
    if i == 11 {
        ("ds_limit"@, VmcsField::GuestDsLimit)
    } else
    if i == 12 {
        ("ds_sel"@, VmcsField::GuestDsSelector)
    } else
    if i == 13 {
        ("es_ar"@, VmcsField::GuestEsArBytes)
    } else
    if i == 14 {
        ("es_base"@, VmcsField::GuestEsBase)
    } else
    if i == 15 {
        ("es_limit"@, VmcsField::GuestEsLimit)
    } else
    if i == 16 {
        ("es_selector"@, VmcsField::GuestEsSelector)
    } else
    if i == 17 {
        ("fs_ar"@, VmcsField::GuestFsArBytes)
    } else
    if i == 18 {
        ("fs_base"@, VmcsField::GuestFsBase)
    } else
    if i == 19 {
        ("fs_limit"@, VmcsField::GuestFsLimit)
    } else
    if i == 20 {
        ("fs_selector"@, VmcsField::GuestFsSelector)
    } else
    if i == 21 {
        ("gs_ar"@, VmcsField::GuestGsArBytes)
    } else
    if i == 22 {
        ("gs_base"@, VmcsField::GuestGsBase)
    } else
    if i == 23 {
        ("gs_limit"@, VmcsField::GuestGsLimit)
    } else
    if i == 24 {
        ("gs_selector"@, VmcsField::GuestGsSelector)
    } else
    if i == 25 {
        ("ss_ar"@, VmcsField::GuestSsArBytes)
    } else
    if i == 26 {
        ("ss_base"@, VmcsField::GuestSsBase)
    } else
    if i == 27 {
        ("ss_limit"@, VmcsField::GuestSsLimit)
    } else
    if i == 28 {
        ("ss_sel"@, VmcsField::GuestSsSelector)
    } else
    if i == 29 {
        ("gdtr_base"@, VmcsField::GuestGdtrBase)
    } else
    if i == 30 {
        ("gdtr_limit"@, VmcsField::GuestGdtrLimit)
    } else
    if i == 31 {
        ("idtr_base"@, VmcsField::GuestIdtrBase)
    } else
    if i == 32 {
        ("idtr_limit"@, VmcsField::GuestIdtrLimit)
    } else
    if i == 33 {
        ("dr7"@, VmcsField::GuestDr7)
    } else
    if i == 34 {
        ("ia32_debugctl"@, VmcsField::GuestIa32Debugctl)
    } else
    if i == 35 {
        ("ia32_efer"@, VmcsField::GuestIa32Efer)
    } else
    if i == 36 {
        ("ia32_pat"@, VmcsField::GuestIa32Pat)
    } else
    if i == 37 {
        ("ia32_perf_global_ctrl"@, VmcsField::GuestIa32PerfGlobalCtrl)
    } else
    if i == 38 {
        ("intrpt_state"@, VmcsField::GuestInterruptibilityState)
    } else
    if i == 39 {
        ("intr_status"@, VmcsField::GuestIntrStatus)
    } else
    if i == 40 {
        ("ldtr_ar"@, VmcsField::GuestLdtrArBytes)
    } else
    if i == 41 {
        ("ldtr_base"@, VmcsField::GuestLdtrBase)
    } else
    if i == 42 {
        ("ldtr_limit"@, VmcsField::GuestLdtrLimit)
    } else
    if i == 43 {
        ("ldtr_sel"@, VmcsField::GuestLdtrSelector)
    } else
    if i == 44 {
        ("guest_lin_addr"@, VmcsField::GuestLinearAddress)
    } else
    if i == 45 {
        ("pdptr0"@, VmcsField::GuestPdptr0)
    } else
    if i == 46 {
        ("pdptr1"@, VmcsField::GuestPdptr1)
    } else
    if i == 47 {
        ("pdptr2"@, VmcsField::GuestPdptr2)
    } else
    if i == 48 {
        ("pdptr3"@, VmcsField::GuestPdptr3)
    } else
    if i == 49 {
        ("pending_dbt_exceptions"@, VmcsField::GuestPendingDbgExceptions)
    } else
    if i == 50 {
        ("guest_phys_addr"@, VmcsField::GuestPhysicalAddress)
    } else
    if i == 51 {
        ("pml_index"@, VmcsField::GuestPmlIndex)
    } else
    if i == 52 {
        ("rflags"@, VmcsField::GuestRflags)
    } else
    if i == 53 {
        ("rip"@, VmcsField::GuestRip)
    } else
    if i == 54 {
        ("rsp"@, VmcsField::GuestRsp)
    } else
    if i == 55 {
        ("systeneter_cs"@, VmcsField::GuestSysenterCs)
    } else
    if i == 56 {
        ("sysenter_eip"@, VmcsField::GuestSysenterEip)
    } else
    if i == 57 {
        ("sysenter_esp"@, VmcsField::GuestSysenterEsp)
    } else
    if i == 58 {
        ("tr_ar"@, VmcsField::GuestTrArBytes)
    } else
    if i == 59 {
        ("tr_base"@, VmcsField::GuestTrBase)
    } else
    if i == 60 {
        ("tr_limit"@, VmcsField::GuestTrLimit)
    } else
    if i == 61 {
        ("tr_selector"@, VmcsField::GuestTrSelector)
    } else {
        ("vmcs_link_ptr"@, VmcsField::VmcsLinkPointer)
    }
}

/// Line `i` of the report, as its label and the field it shows.
pub fn report_entry(i: usize) -> (r: (&'static str, VmcsField))
    requires
        i < REPORT_LINES,
    ensures
        r.0@ == report_line(i as int).0,
        r.1 == report_line(i as int).1,
{
    if i == 0 {
        ("activity_state", VmcsField::GuestActivityState)
    } else
    if i == 1 {
        ("bndcfgs", VmcsField::GuestBndcfgs)
    } else
    if i == 2 {
        ("cr0", VmcsField::GuestCr0)
    } else
    if i == 3 {
        ("cr3", VmcsField::GuestCr3)
    } else
    if i == 4 {
        ("cr4", VmcsField::GuestCr4)
    } else
    if i == 5 {
        ("cs_ar", VmcsField::GuestCsArBytes)
    } else
    if i == 6 {
        ("cs_base", VmcsField::GuestCsBase)
    } else
    if i == 7 {
        ("cs_limit", VmcsField::GuestCsLimit)
    } else
    if i == 8 {
        ("cs_selector", VmcsField::GuestCsSelector)
    } else
    if i == 9 {
        ("ds_ar", VmcsField::GuestDsArBytes)
    } else
    if i == 10 {
        ("ds_base", VmcsField::GuestDsBase)
    } else
    if i == 11 {
        ("ds_limit", VmcsField::GuestDsLimit)
    } else
    if i == 12 {
        ("ds_sel", VmcsField::GuestDsSelector)
    } else
    if i == 13 {
        ("es_ar", VmcsField::GuestEsArBytes)
    } else
    if i == 14 {
        ("es_base", VmcsField::GuestEsBase)
    } else
    if i == 15 {
        ("es_limit", VmcsField::GuestEsLimit)
    } else
    if i == 16 {
        ("es_selector", VmcsField::GuestEsSelector)
    } else
    if i == 17 {
        ("fs_ar", VmcsField::GuestFsArBytes)
    } else
    if i == 18 {
        ("fs_base", VmcsField::GuestFsBase)
    } else
    if i == 19 {
        ("fs_limit", VmcsField::GuestFsLimit)
    } else
    if i == 20 {
        ("fs_selector", VmcsField::GuestFsSelector)
    } else
    if i == 21 {
        ("gs_ar", VmcsField::GuestGsArBytes)
    } else
    if i == 22 {
        ("gs_base", VmcsField::GuestGsBase)
    } else
    if i == 23 {
        ("gs_limit", VmcsField::GuestGsLimit)
    } else
    if i == 24 {
        ("gs_selector", VmcsField::GuestGsSelector)
    } else
    if i == 25 {
        ("ss_ar", VmcsField::GuestSsArBytes)
    } else
    if i == 26 {
        ("ss_base", VmcsField::GuestSsBase)
    } else
    if i == 27 {
        ("ss_limit", VmcsField::GuestSsLimit)
    } else
    if i == 28 {
        ("ss_sel", VmcsField::GuestSsSelector)
    } else
    if i == 29 {
        ("gdtr_base", VmcsField::GuestGdtrBase)
    } else
    if i == 30 {
        ("gdtr_limit", VmcsField::GuestGdtrLimit)
    } else
    if i == 31 {
        ("idtr_base", VmcsField::GuestIdtrBase)
    } else
    if i == 32 {
        ("idtr_limit", VmcsField::GuestIdtrLimit)
    } else
    if i == 33 {
        ("dr7", VmcsField::GuestDr7)
    } else
    if i == 34 {
        ("ia32_debugctl", VmcsField::GuestIa32Debugctl)
    } else
    if i == 35 {
        ("ia32_efer", VmcsField::GuestIa32Efer)
    } else
    if i == 36 {
        ("ia32_pat", VmcsField::GuestIa32Pat)
    } else
    if i == 37 {
        ("ia32_perf_global_ctrl", VmcsField::GuestIa32PerfGlobalCtrl)
    } else
    if i == 38 {
        ("intrpt_state", VmcsField::GuestInterruptibilityState)
    } else
    if i == 39 {
        ("intr_status", VmcsField::GuestIntrStatus)
    } else
    if i == 40 {
        ("ldtr_ar", VmcsField::GuestLdtrArBytes)
    } else
    if i == 41 {
        ("ldtr_base", VmcsField::GuestLdtrBase)
    } else
    if i == 42 {
        ("ldtr_limit", VmcsField::GuestLdtrLimit)
    } else
    if i == 43 {
        ("ldtr_sel", VmcsField::GuestLdtrSelector)
    } else
    if i == 44 {
        ("guest_lin_addr", VmcsField::GuestLinearAddress)
    } else
    if i == 45 {
        ("pdptr0", VmcsField::GuestPdptr0)
    } else
    if i == 46 {
        ("pdptr1", VmcsField::GuestPdptr1)
    } else
    if i == 47 {
        ("pdptr2", VmcsField::GuestPdptr2)
    } else
    if i == 48 {
        ("pdptr3", VmcsField::GuestPdptr3)
    } else
    if i == 49 {
        ("pending_dbt_exceptions", VmcsField::GuestPendingDbgExceptions)
    } else
    if i == 50 {
        ("guest_phys_addr", VmcsField::GuestPhysicalAddress)
    } else
    if i == 51 {
        ("pml_index", VmcsField::GuestPmlIndex)
    } else
    if i == 52 {
        ("rflags", VmcsField::GuestRflags)
    } else
    if i == 53 {
        ("rip", VmcsField::GuestRip)
    } else
    if i == 54 {
        ("rsp", VmcsField::GuestRsp)
    } else
    if i == 55 {
        ("systeneter_cs", VmcsField::GuestSysenterCs)
    } else
    if i == 56 {
        ("sysenter_eip", VmcsField::GuestSysenterEip)
    } else
    if i == 57 {
        ("sysenter_esp", VmcsField::GuestSysenterEsp)
    } else
    if i == 58 {
        ("tr_ar", VmcsField::GuestTrArBytes)
    } else
    if i == 59 {
        ("tr_base", VmcsField::GuestTrBase)
    } else
    if i == 60 {
        ("tr_limit", VmcsField::GuestTrLimit)
    } else
    if i == 61 {
        ("tr_selector", VmcsField::GuestTrSelector)
    } else {
        ("vmcs_link_ptr", VmcsField::VmcsLinkPointer)
    }
}

/// The first `n` lines of the report, with `values[i]` the value of the
/// field of line `i`.
pub open spec fn report_body(values: Seq<u64>, n: nat) -> Seq<char>
    decreases n,
{
    if n == 0 {
        Seq::empty()
    } else {
        let i = n - 1;
        report_body(values, i as nat) + report_line(i).0 + "="@ + hex_text(values[i] as nat, 16) + "\n"@
    }
}

/// The fields the report shows, in the order of its lines: the host reads
/// them, in this order, for [`vmcs_report`].
pub fn report_fields() -> (r: Vec<VmcsField>)
    ensures
        r@.len() == REPORT_LINES,
        forall|i: int| 0 <= i < REPORT_LINES ==> #[trigger] r@[i] == report_line(i).1,
{
    let mut fields: Vec<VmcsField> = Vec::new();
    let mut i: usize = 0;
    while i < REPORT_LINES
        invariant
            i <= REPORT_LINES,
            fields@.len() == i,
            forall|k: int| 0 <= k < i ==> #[trigger] fields@[k] == report_line(k).1,
        decreases REPORT_LINES - i,
    {
        let (_, field) = report_entry(i);
        fields.push(field);
        i = i + 1;
    }
    fields
}

/// The report of a VMCS whose reported fields hold `values`, in the order
/// of [`report_fields`].
pub fn vmcs_report(values: &Vec<u64>) -> (r: String)
    requires
        values@.len() == REPORT_LINES,
    ensures
        r@ == "GUEST VM STATE\n"@ + report_body(values@, REPORT_LINES as nat),
{
    let mut s = String::from_str("GUEST VM STATE\n");
    let mut i: usize = 0;
    while i < REPORT_LINES
        invariant
            i <= REPORT_LINES,
            values@.len() == REPORT_LINES,
            s@ == "GUEST VM STATE\n"@ + report_body(values@, i as nat),
        decreases REPORT_LINES - i,
    {
        let (label, _) = report_entry(i);
        s.append(label);
        s.append("=");
        push_hex(&mut s, values[i], 16);
        s.append("\n");
        proof {
            assert(s@ =~= "GUEST VM STATE\n"@ + report_body(values@, (i + 1) as nat));
        }
        i = i + 1;
    }
    s
}

} // verus!
