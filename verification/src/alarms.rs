//! Decoding of the alarm and warning bit fields of the diagnostic page into
//! a flat, priority-ordered alert list.
//!
//! Ten conditions are enumerated in a fixed order: temperature-high,
//! temperature-low, voltage-high, voltage-low, bias-high, bias-low,
//! tx-power-high, tx-power-low, rx-power-high, rx-power-low. Condition `i`
//! lives in bit `7 - i % 8` of byte `112 + i / 8` (alarms) and of byte
//! `116 + i / 8` (warnings). A set alarm bit takes precedence over the
//! corresponding warning bit in the flat list.

use vstd::prelude::*;

verus! {

/// Severity of one reported condition.
#[derive(Clone, Copy, Debug, PartialEq, Eq, Structural)]
pub enum Severity {
    Alarm,
    Warning,
}

/// One entry of the flat alert list. `condition` indexes the fixed order of
/// the ten (channel, direction) conditions described in the module
/// documentation.
#[derive(Clone, Copy, Debug, PartialEq, Eq, Structural)]
pub struct Alert {
    pub condition: u8,
    pub severity: Severity,
}

/// Whether the alarm bit of condition `i` is set in the diagnostic page.
pub open spec fn alarm_flag(diag: Seq<u8>, i: int) -> bool
    recommends
        diag.len() == 256,
        0 <= i < 10,
{
    (diag[112 + i / 8] >> ((7 - i % 8) as u8)) & 1 == 1
}

/// Whether the warning bit of condition `i` is set in the diagnostic page.
pub open spec fn warning_flag(diag: Seq<u8>, i: int) -> bool
    recommends
        diag.len() == 256,
        0 <= i < 10,
{
    (diag[116 + i / 8] >> ((7 - i % 8) as u8)) & 1 == 1
}

/// The alert list for the conditions `i..10`, in condition order: an alarm
/// entry where the alarm bit is set, else a warning entry where the warning
/// bit is set, else nothing.
pub open spec fn alerts_from(diag: Seq<u8>, i: int) -> Seq<Alert>
    recommends
        diag.len() == 256,
    decreases 10 - i,
{
    if i < 0 || i >= 10 {
        Seq::empty()
    } else {
        let rest = alerts_from(diag, i + 1);
        if alarm_flag(diag, i) {
            seq![Alert { condition: i as u8, severity: Severity::Alarm }] + rest
        } else if warning_flag(diag, i) {
            seq![Alert { condition: i as u8, severity: Severity::Warning }] + rest
        } else {
            rest
        }
    }
}

/// The full flat, priority-ordered alert list of a diagnostic page.
pub open spec fn alerts_of(diag: Seq<u8>) -> Seq<Alert>
    recommends
        diag.len() == 256,
{
    alerts_from(diag, 0)
}

/// Build the flat alert list of a diagnostic page. Every entry reports one
/// of the ten conditions.
pub fn decode_alerts(diag: &Vec<u8>) -> (r: Vec<Alert>)
    requires
        diag.len() == 256,
    ensures
        r@ == alerts_of(diag@),
        forall|k: int| 0 <= k < r@.len() ==> (#[trigger] r@[k]).condition < 10,
{
    let mut r: Vec<Alert> = Vec::new();
    let mut i: usize = 0;
    while i < 10
        invariant
            diag.len() == 256,
            i <= 10,
            r@ + alerts_from(diag@, i as int) == alerts_of(diag@),
        decreases 10 - i,
    {
        let register: usize = i / 8;
        let bit: u8 = 7 - (i % 8) as u8;
        let ghost prev = r@;
        if (diag[112 + register] >> bit) & 1 == 1 {
            r.push(Alert { condition: i as u8, severity: Severity::Alarm });
            proof {
                assert(r@ + alerts_from(diag@, i + 1) =~= prev + alerts_from(diag@, i as int));
            }
        } else if (diag[116 + register] >> bit) & 1 == 1 {
            r.push(Alert { condition: i as u8, severity: Severity::Warning });
            proof {
                assert(r@ + alerts_from(diag@, i + 1) =~= prev + alerts_from(diag@, i as int));
            }
        }
        i = i + 1;
    }
    proof {
        lemma_alerts_from_bounds(diag@, 0);
    }
    r
}

/// Every entry of `alerts_from(diag, j)` reports a condition in `j..10`.
proof fn lemma_alerts_from_bounds(diag: Seq<u8>, j: int)
    requires
        0 <= j,
    ensures
        forall|k: int|
            0 <= k < alerts_from(diag, j).len() ==> j <= (#[trigger] alerts_from(diag, j)[k])
                .condition < 10,
    decreases 10 - j,
{
    if j < 10 {
        lemma_alerts_from_bounds(diag, j + 1);
    }
}

/// A singleton sequence contains exactly its one element.
proof fn lemma_singleton_contains(h: Alert, x: Alert)
    ensures
        seq![h].contains(x) <==> x == h,
{
    assert(seq![h][0] == h);
    if seq![h].contains(x) {
        let k = choose|k: int| 0 <= k < seq![h].len() && seq![h][k] == x;
        assert(k == 0);
    }
}

/// Exactly which entries the alert list holds for condition `i`, starting
/// from any condition `j` at or before `i`.
proof fn lemma_alerts_from_contains(diag: Seq<u8>, j: int, i: int)
    requires
        0 <= j <= i < 10,
    ensures
        alerts_from(diag, j).contains(
            (Alert { condition: i as u8, severity: Severity::Alarm }),
        ) <==> alarm_flag(diag, i),
        alerts_from(diag, j).contains(
            (Alert { condition: i as u8, severity: Severity::Warning }),
        ) <==> (!alarm_flag(diag, i) && warning_flag(diag, i)),
    decreases 10 - j,
{
    broadcast use vstd::seq_lib::lemma_seq_concat_contains_all_elements;

    let alarm_i = Alert { condition: i as u8, severity: Severity::Alarm };
    let warn_i = Alert { condition: i as u8, severity: Severity::Warning };
    let rest = alerts_from(diag, j + 1);
    lemma_alerts_from_bounds(diag, j + 1);
    if j == i {
        assert(forall|k: int|
            0 <= k < rest.len() ==> (#[trigger] rest[k]).condition != i as u8);
        assert(!rest.contains(alarm_i));
        assert(!rest.contains(warn_i));
        if alarm_flag(diag, j) {
            let head = Alert { condition: j as u8, severity: Severity::Alarm };
            lemma_singleton_contains(head, alarm_i);
            lemma_singleton_contains(head, warn_i);
            assert(alerts_from(diag, j) == seq![head] + rest);
        } else if warning_flag(diag, j) {
            let head = Alert { condition: j as u8, severity: Severity::Warning };
            lemma_singleton_contains(head, alarm_i);
            lemma_singleton_contains(head, warn_i);
            assert(alerts_from(diag, j) == seq![head] + rest);
        }
    } else {
        assert(j as u8 != i as u8);
        lemma_alerts_from_contains(diag, j + 1, i);
        if alarm_flag(diag, j) {
            let head = Alert { condition: j as u8, severity: Severity::Alarm };
            lemma_singleton_contains(head, alarm_i);
            lemma_singleton_contains(head, warn_i);
            assert(alerts_from(diag, j) == seq![head] + rest);
        } else if warning_flag(diag, j) {
            let head = Alert { condition: j as u8, severity: Severity::Warning };
            lemma_singleton_contains(head, alarm_i);
            lemma_singleton_contains(head, warn_i);
            assert(alerts_from(diag, j) == seq![head] + rest);
        }
    }
}

/// The alert list holds an alarm entry for condition `i` exactly when its
/// alarm bit is set, and a warning entry exactly when its warning bit is set
/// while its alarm bit is clear.
pub proof fn lemma_alerts_exact(diag: Seq<u8>, i: int)
    requires
        0 <= i < 10,
    ensures
        alerts_of(diag).contains(
            (Alert { condition: i as u8, severity: Severity::Alarm }),
        ) <==> alarm_flag(diag, i),
        alerts_of(diag).contains(
            (Alert { condition: i as u8, severity: Severity::Warning }),
        ) <==> (!alarm_flag(diag, i) && warning_flag(diag, i)),
{
    lemma_alerts_from_contains(diag, 0, i);
}

/// Alarm precedence: when both the alarm and the warning bit of a condition
/// are set, the flat list reports the alarm and suppresses the warning.
pub proof fn lemma_alarm_precedence(diag: Seq<u8>, i: int)
    requires
        0 <= i < 10,
        alarm_flag(diag, i),
        warning_flag(diag, i),
    ensures
        alerts_of(diag).contains((Alert { condition: i as u8, severity: Severity::Alarm })),
        !alerts_of(diag).contains((Alert { condition: i as u8, severity: Severity::Warning })),
{
    lemma_alerts_exact(diag, i);
}

} // verus!
