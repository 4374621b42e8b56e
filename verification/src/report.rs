//! The reporter: one live trace line per syscall entry, or a summary table
//! of all recorded figures, sorted by descending total time, with every
//! printed character pinned down by the specification.

use vstd::prelude::*;
use vstd::string::StringExecFns;
use vstd::arithmetic::div_mod::{lemma_div_is_ordered, lemma_div_multiples_vanish};
use vstd::arithmetic::mul::lemma_mul_inequality;
use vstd::seq_lib::to_multiset_update;
use crate::arch::{Arch, decode, decode_spec};
use crate::stats::{Session, SyscallEntry};
use crate::textfmt::{
    dec_digits, dec_len, left_padded, lemma_dec_digits_len, lemma_repeat_char_len, pow10,
    push_spaces, push_u64, push_u64_padded, push_u64_zero_extended, zero_extended,
};

verus! {

/// The share of `part` in `whole`, in hundredths of a percent, measured
/// against the whole and capped at one hundred percent. A zero `whole`
/// yields zero rather than a division failure.
pub open spec fn percent_hundredths_spec(part: u64, whole: u64) -> u64 {
    if whole == 0 {
        0
    } else if part > whole {
        10000
    } else {
        ((part * 10000) / (whole as int)) as u64
    }
}

/// A summary percentage never exceeds one hundred percent, whatever share
/// of the session's wall-clock time a row claims.
pub proof fn lemma_percent_at_most_hundred(part: u64, whole: u64)
    ensures
        percent_hundredths_spec(part, whole) <= 10000,
{
    if whole != 0 && part <= whole {
        lemma_mul_inequality(part as int, whole as int, 10000);
        lemma_div_is_ordered(part * 10000, whole * 10000, whole as int);
        lemma_div_multiples_vanish(10000, whole as int);
    }
}

/// Computes the capped percentage in hundredths.
pub fn percent_hundredths(part: u64, whole: u64) -> (r: u64)
    ensures
        r == percent_hundredths_spec(part, whole),
        r <= 10000,
{
    proof {
        lemma_percent_at_most_hundred(part, whole);
    }
    if whole == 0 {
        0
    } else if part > whole {
        10000
    } else {
        let wide: u128 = (part as u128) * 10000 / (whole as u128);
        wide as u64
    }
}

/// The average time one call took, in whole microseconds.
pub open spec fn avg_usecs_spec(total_us: u64, count: u64) -> u64 {
    if count == 0 {
        0
    } else {
        (total_us / count) as u64
    }
}

/// Computes the average microseconds per call.
pub fn average_usecs(total_us: u64, count: u64) -> (r: u64)
    ensures
        r == avg_usecs_spec(total_us, count),
{
    if count == 0 {
        0
    } else {
        total_us / count
    }
}

/// A percentage in hundredths rendered with two decimals: `12.34`.
pub open spec fn percent_seq(h: u64) -> Seq<char> {
    dec_digits((h / 100) as nat) + seq!['.'] + zero_extended((h % 100) as nat, 2)
}

/// A count of microseconds rendered as seconds with six decimals.
pub open spec fn seconds_seq(us: u64) -> Seq<char> {
    dec_digits((us / 1000000) as nat) + seq!['.'] + zero_extended((us % 1000000) as nat, 6)
}

/// Appends a two-decimal percentage, left-padded with spaces to `width`.
fn push_percent_padded(out: &mut String, h: u64, width: usize)
    ensures
        final(out)@ == old(out)@ + left_padded(percent_seq(h), width as nat),
{
    let units = h / 100;
    let frac = h % 100;
    let l = dec_len(units);
    proof {
        assert(pow10(2) == 100) by {
            reveal_with_fuel(pow10, 3);
        }
        lemma_dec_digits_len(frac as nat, 2);
        lemma_repeat_char_len('0', (2 - dec_digits(frac as nat).len()) as nat);
        assert(zero_extended(frac as nat, 2).len() == 2);
    }
    if l < usize::MAX - 3 && l + 3 < width {
        push_spaces(out, width - (l + 3));
    }
    push_u64(out, units);
    out.append(".");
    push_u64_zero_extended(out, frac, 2);
    proof {
        reveal_strlit(".");
        lemma_repeat_char_len(' ', (width - percent_seq(h).len()) as nat);
        assert(out@ =~= old(out)@ + left_padded(percent_seq(h), width as nat));
    }
}

/// Appends a six-decimal seconds figure, left-padded with spaces to
/// `width`.
fn push_seconds_padded(out: &mut String, us: u64, width: usize)
    ensures
        final(out)@ == old(out)@ + left_padded(seconds_seq(us), width as nat),
{
    let units = us / 1000000;
    let frac = us % 1000000;
    let l = dec_len(units);
    proof {
        assert(pow10(6) == 1000000) by {
            reveal_with_fuel(pow10, 7);
        }
        lemma_dec_digits_len(frac as nat, 6);
        lemma_repeat_char_len('0', (6 - dec_digits(frac as nat).len()) as nat);
        assert(zero_extended(frac as nat, 6).len() == 6);
    }
    if l < usize::MAX - 7 && l + 7 < width {
        push_spaces(out, width - (l + 7));
    }
    push_u64(out, units);
    out.append(".");
    push_u64_zero_extended(out, frac, 6);
    proof {
        reveal_strlit(".");
        lemma_repeat_char_len(' ', (width - seconds_seq(us).len()) as nat);
        assert(out@ =~= old(out)@ + left_padded(seconds_seq(us), width as nat));
    }
}

/// One summary row: percent of session time, total seconds, average
/// microseconds per call, call count, error count, symbolic name.
pub open spec fn row_line_spec(arch: Arch, e: SyscallEntry, wall_us: u64) -> Seq<char> {
    left_padded(percent_seq(percent_hundredths_spec(e.stats.total_elapsed_us, wall_us)), 6)
        + seq![' '] + left_padded(seconds_seq(e.stats.total_elapsed_us), 11) + seq![' ']
        + left_padded(
        dec_digits(avg_usecs_spec(e.stats.total_elapsed_us, e.stats.count) as nat),
        11,
    ) + seq![' '] + left_padded(dec_digits(e.stats.count as nat), 9) + seq![' '] + left_padded(
        dec_digits(e.stats.error_count as nat),
        9,
    ) + seq![' '] + decode_spec(arch, e.syscall_id)
}

/// Renders one summary row.
pub fn format_row(arch: Arch, e: SyscallEntry, wall_us: u64) -> (line: String)
    ensures
        line@ == row_line_spec(arch, e, wall_us),
{
    let mut out = String::new();
    push_percent_padded(&mut out, percent_hundredths(e.stats.total_elapsed_us, wall_us), 6);
    out.append(" ");
    push_seconds_padded(&mut out, e.stats.total_elapsed_us, 11);
    out.append(" ");
    push_u64_padded(&mut out, average_usecs(e.stats.total_elapsed_us, e.stats.count), 11);
    out.append(" ");
    push_u64_padded(&mut out, e.stats.count, 9);
    out.append(" ");
    push_u64_padded(&mut out, e.stats.error_count, 9);
    out.append(" ");
    let name = decode(arch, e.syscall_id);
    out.append(name.as_str());
    proof {
        reveal_strlit(" ");
        assert(out@ =~= row_line_spec(arch, e, wall_us));
    }
    out
}

/// One live-mode trace line: `<symbolic-name> (<numeric-id>)`.
pub open spec fn live_line_spec(arch: Arch, id: u64) -> Seq<char> {
    decode_spec(arch, id) + seq![' ', '('] + dec_digits(id as nat) + seq![')']
}

/// Renders one live-mode trace line.
pub fn live_line(arch: Arch, id: u64) -> (line: String)
    ensures
        line@ == live_line_spec(arch, id),
{
    let mut out = decode(arch, id);
    out.append(" (");
    push_u64(&mut out, id);
    out.append(")");
    proof {
        reveal_strlit(" (");
        reveal_strlit(")");
        assert(out@ =~= live_line_spec(arch, id));
    }
    out
}

/// Rows in order of descending total elapsed time.
pub open spec fn sorted_desc(s: Seq<SyscallEntry>) -> bool {
    forall|i: int, j: int|
        0 <= i <= j < s.len() ==> #[trigger] s[i].stats.total_elapsed_us
            >= #[trigger] s[j].stats.total_elapsed_us
}

/// Sorts the rows by descending total elapsed time, keeping exactly the
/// same rows.
pub fn sort_rows_desc(v: &mut Vec<SyscallEntry>)
    ensures
        sorted_desc(final(v)@),
        final(v)@.to_multiset() == old(v)@.to_multiset(),
        final(v)@.len() == old(v)@.len(),
{
    let n = v.len();
    if n == 0 {
        return ;
    }
    let mut i: usize = 1;
    while i < n
        invariant
            1 <= i <= n,
            n == v@.len(),
            sorted_desc(v@.take(i as int)),
            v@.to_multiset() == old(v)@.to_multiset(),
        decreases n - i,
    {
        let mut j: usize = i;
        proof {
            assert forall|a: int, b: int| 0 <= a <= b < i implies v@[a].stats.total_elapsed_us
                >= v@[b].stats.total_elapsed_us by {
                assert(v@.take(i as int)[a] == v@[a]);
                assert(v@.take(i as int)[b] == v@[b]);
            }
        }
        while j > 0 && v[j - 1].stats.total_elapsed_us < v[j].stats.total_elapsed_us
            invariant
                0 <= j <= i < n,
                n == v@.len(),
                v@.to_multiset() == old(v)@.to_multiset(),
                forall|a: int, b: int|
                    0 <= a <= b <= i && a != j && b != j ==> #[trigger] v@[a].stats.total_elapsed_us
                        >= #[trigger] v@[b].stats.total_elapsed_us,
                forall|b: int|
                    j < b <= i ==> v@[j as int].stats.total_elapsed_us
                        >= #[trigger] v@[b].stats.total_elapsed_us,
            decreases j,
        {
            let ghost s0 = v@;
            let hi = v[j];
            let lo = v[j - 1];
            v[j - 1] = hi;
            v[j] = lo;
            proof {
                broadcast use vstd::seq_lib::group_to_multiset_ensures;
                broadcast use vstd::multiset::group_multiset_axioms;
                broadcast use vstd::multiset::group_multiset_properties;

                to_multiset_update(s0, j as int - 1, hi);
                to_multiset_update(s0.update(j as int - 1, hi), j as int, lo);
                assert(v@ == s0.update(j as int - 1, hi).update(j as int, lo));
                assert(s0.contains(lo));
                assert(s0.update(j as int - 1, hi).contains(hi));
                assert(v@.to_multiset() =~= s0.to_multiset());
            }
            j = j - 1;
        }
        i = i + 1;
        proof {
            assert(sorted_desc(v@.take(i as int)));
        }
    }
    proof {
        assert(v@.take(n as int) =~= v@);
    }
}

/// Renders the whole summary table: the fixed header pair, then one row
/// per recorded identifier, sorted by descending total elapsed time and
/// measured against the session's wall-clock duration `wall_us`.
pub fn render_summary(session: &Session, arch: Arch, wall_us: u64) -> (lines: Vec<String>)
    ensures
        lines@.len() == 2 + session.rows().len(),
        lines@[0]@ == "% time     seconds  usecs/call     calls    errors syscall"@,
        lines@[1]@ == "------ ----------- ----------- --------- --------- ----------------"@,
        exists|sorted: Seq<SyscallEntry>|
            sorted.to_multiset() == session.rows().to_multiset() && sorted_desc(sorted)
                && sorted.len() == session.rows().len() && (forall|i: int|
                0 <= i < sorted.len() ==> lines@[2 + i]@ == row_line_spec(
                    arch,
                    sorted[i],
                    wall_us,
                )),
{
    let n = session.row_count();
    let mut rows: Vec<SyscallEntry> = Vec::new();
    let mut i: usize = 0;
    while i < n
        invariant
            i <= n,
            n == session.rows().len(),
            rows@ == session.rows().take(i as int),
        decreases n - i,
    {
        rows.push(session.row_at(i));
        i = i + 1;
        proof {
            assert(rows@ =~= session.rows().take(i as int));
        }
    }
    proof {
        assert(rows@ =~= session.rows());
    }
    sort_rows_desc(&mut rows);
    let mut lines: Vec<String> = Vec::new();
    lines.push(String::from_str("% time     seconds  usecs/call     calls    errors syscall"));
    lines.push(String::from_str("------ ----------- ----------- --------- --------- ----------------"));
    let mut k: usize = 0;
    while k < rows.len()
        invariant
            k <= rows@.len(),
            lines@.len() == 2 + k,
            lines@[0]@ == "% time     seconds  usecs/call     calls    errors syscall"@,
            lines@[1]@ == "------ ----------- ----------- --------- --------- ----------------"@,
            forall|t: int| 0 <= t < k ==> lines@[2 + t]@ == row_line_spec(arch, rows@[t], wall_us),
        decreases rows@.len() - k,
    {
        lines.push(format_row(arch, rows[k], wall_us));
        k = k + 1;
    }
    proof {
        let sorted = rows@;
        assert(sorted.to_multiset() == session.rows().to_multiset() && sorted_desc(sorted)
            && sorted.len() == session.rows().len() && (forall|t: int|
            0 <= t < sorted.len() ==> lines@[2 + t]@ == row_line_spec(arch, sorted[t], wall_us)));
    }
    lines
}

} // verus!
