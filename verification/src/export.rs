//! The snapshot exporter's encoding: the persisted layout is a JSON object
//! with exactly the fields `packet_count`, `byte_count` and `duration`
//! (elapsed seconds, three decimals), and the console summary is one line
//! with the same three values. Both encodings are functions of the
//! snapshot's fields alone.

use vstd::prelude::*;
use crate::metrics::NetworkMetricsSnapshot;

verus! {

/// The decimal digit character for `d` (`d < 10`).
pub open spec fn digit_char(d: nat) -> char {
    if d == 0 { '0' }
    else if d == 1 { '1' }
    else if d == 2 { '2' }
    else if d == 3 { '3' }
    else if d == 4 { '4' }
    else if d == 5 { '5' }
    else if d == 6 { '6' }
    else if d == 7 { '7' }
    else if d == 8 { '8' }
    else { '9' }
}

/// The decimal numeral of `n`, most significant digit first, no leading
/// zeroes (a single `'0'` for zero).
pub open spec fn dec_chars(n: nat) -> Seq<char>
    decreases n,
{
    if n < 10 {
        seq![digit_char(n)]
    } else {
        dec_chars(n / 10).push(digit_char(n % 10))
    }
}

/// The milliseconds `millis` as decimal seconds: the whole seconds, a point,
/// and exactly three fractional digits.
pub open spec fn seconds_chars(millis: nat) -> Seq<char> {
    dec_chars(millis / 1000) + "."@ + frac3_chars(millis % 1000)
}

/// The sub-second part `f` (`f < 1000`) as exactly three digits.
pub open spec fn frac3_chars(f: nat) -> Seq<char> {
    if f < 10 {
        "00"@ + dec_chars(f)
    } else if f < 100 {
        "0"@ + dec_chars(f)
    } else {
        dec_chars(f)
    }
}

/// The persisted snapshot layout: a JSON object with exactly the fields
/// `packet_count`, `byte_count` and `duration`.
pub open spec fn snapshot_json_chars(pc: nat, bc: nat, millis: nat) -> Seq<char> {
    "{\n  \"packet_count\": "@ + dec_chars(pc)
        + ",\n  \"byte_count\": "@ + dec_chars(bc)
        + ",\n  \"duration\": "@ + seconds_chars(millis)
        + "\n}"@
}

/// The one-line console summary: frame count, byte count, elapsed duration.
pub open spec fn summary_chars(pc: nat, bc: nat, millis: nat) -> Seq<char> {
    "Packets: "@ + dec_chars(pc)
        + ", Bytes: "@ + dec_chars(bc)
        + ", Duration: "@ + seconds_chars(millis)
        + "s"@
}

/// The one-character string holding the decimal digit `d`.
fn digit_str(d: u8) -> (r: &'static str)
    requires
        d < 10,
    ensures
        r@ == seq![digit_char(d as nat)],
{
    proof {
        reveal_strlit("0");
        reveal_strlit("1");
        reveal_strlit("2");
        reveal_strlit("3");
        reveal_strlit("4");
        reveal_strlit("5");
        reveal_strlit("6");
        reveal_strlit("7");
        reveal_strlit("8");
        reveal_strlit("9");
    }
    let r = match d {
        0 => "0",
        1 => "1",
        2 => "2",
        3 => "3",
        4 => "4",
        5 => "5",
        6 => "6",
        7 => "7",
        8 => "8",
        _ => "9",
    };
    proof {
        assert(r@ =~= seq![digit_char(d as nat)]);
    }
    r
}

/// The decimal numeral of `n` as a string.
pub fn to_decimal(n: u128) -> (r: String)
    ensures
        r@ == dec_chars(n as nat),
    decreases n,
{
    if n < 10 {
        digit_str(n as u8).to_owned()
    } else {
        let mut s = to_decimal(n / 10);
        s.append(digit_str((n % 10) as u8));
        proof {
            assert(s@ =~= dec_chars(n as nat));
        }
        s
    }
}

/// The milliseconds `millis` rendered as decimal seconds with exactly three
/// fractional digits.
pub fn seconds_string(millis: u128) -> (r: String)
    ensures
        r@ == seconds_chars(millis as nat),
{
    let mut s = to_decimal(millis / 1000);
    s.append(".");
    let f = millis % 1000;
    if f < 10 {
        s.append("00");
    } else if f < 100 {
        s.append("0");
    }
    let frac = to_decimal(f);
    s.append(frac.as_str());
    proof {
        assert(s@ =~= seconds_chars(millis as nat));
    }
    s
}

/// Encode a snapshot in the persisted layout, ready to replace the previous
/// contents of the export destination.
pub fn encode_snapshot(s: &NetworkMetricsSnapshot) -> (r: String)
    ensures
        r@ == snapshot_json_chars(
            s.packet_count as nat,
            s.byte_count as nat,
            s.duration_millis as nat,
        ),
{
    let mut out = String::new();
    out.append("{\n  \"packet_count\": ");
    let pc = to_decimal(s.packet_count as u128);
    out.append(pc.as_str());
    out.append(",\n  \"byte_count\": ");
    let bc = to_decimal(s.byte_count as u128);
    out.append(bc.as_str());
    out.append(",\n  \"duration\": ");
    let dur = seconds_string(s.duration_millis);
    out.append(dur.as_str());
    out.append("\n}");
    proof {
        assert(out@ =~= snapshot_json_chars(
            s.packet_count as nat,
            s.byte_count as nat,
            s.duration_millis as nat,
        ));
    }
    out
}

/// Render a snapshot as the scheduler's one-line console summary.
pub fn summary_line(s: &NetworkMetricsSnapshot) -> (r: String)
    ensures
        r@ == summary_chars(
            s.packet_count as nat,
            s.byte_count as nat,
            s.duration_millis as nat,
        ),
{
    let mut out = String::new();
    out.append("Packets: ");
    let pc = to_decimal(s.packet_count as u128);
    out.append(pc.as_str());
    out.append(", Bytes: ");
    let bc = to_decimal(s.byte_count as u128);
    out.append(bc.as_str());
    out.append(", Duration: ");
    let dur = seconds_string(s.duration_millis);
    out.append(dur.as_str());
    out.append("s");
    proof {
        assert(out@ =~= summary_chars(
            s.packet_count as nat,
            s.byte_count as nat,
            s.duration_millis as nat,
        ));
    }
    out
}

/// Export idempotence: the persisted encoding is a function of the
/// snapshot's fields alone, so exporting one snapshot twice — or two
/// snapshots with equal fields — yields byte-identical output both times.
pub proof fn lemma_export_deterministic(a: NetworkMetricsSnapshot, b: NetworkMetricsSnapshot)
    requires
        a.packet_count == b.packet_count,
        a.byte_count == b.byte_count,
        a.duration_millis == b.duration_millis,
    ensures
        snapshot_json_chars(a.packet_count as nat, a.byte_count as nat, a.duration_millis as nat)
            == snapshot_json_chars(
            b.packet_count as nat,
            b.byte_count as nat,
            b.duration_millis as nat,
        ),
{
}

} // verus!
