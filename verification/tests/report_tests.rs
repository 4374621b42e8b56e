use like_strace::arch::{decode, termination_syscall_id, Arch};
use like_strace::machine::{Notification, RegSnapshot, ResumeOutcome, TraceState};
use like_strace::report::{
    average_usecs, format_row, live_line, percent_hundredths, render_summary,
};
use like_strace::stats::{CallStats, SyscallEntry};
use like_strace::textfmt::u64_string;

#[test]
fn decode_zero_is_read_on_x86_64() {
    assert_eq!(decode(Arch::X86_64, 0), "read");
    assert_eq!(decode(Arch::X86_64, 2), "open");
    assert_eq!(decode(Arch::X86_64, 231), "exit_group");
}

#[test]
fn decode_out_of_range_falls_back_to_the_numeral() {
    let name = decode(Arch::X86_64, 99999);
    assert_eq!(name, "99999");
    assert!(name.contains("99999"));
    assert_eq!(decode(Arch::Aarch64, 99999), "99999");
}

#[test]
fn decode_aarch64_table() {
    assert_eq!(decode(Arch::Aarch64, 63), "read");
    assert_eq!(decode(Arch::Aarch64, 94), "exit_group");
}

#[test]
fn termination_ids_match_the_tables() {
    assert_eq!(termination_syscall_id(Arch::X86_64), 231);
    assert_eq!(termination_syscall_id(Arch::Aarch64), 94);
}

#[test]
fn numerals() {
    assert_eq!(u64_string(0), "0");
    assert_eq!(u64_string(7), "7");
    assert_eq!(u64_string(12345), "12345");
    assert_eq!(u64_string(u64::MAX), "18446744073709551615");
}

#[test]
fn percent_is_capped_and_exact() {
    assert_eq!(percent_hundredths(50, 200), 2500);
    assert_eq!(percent_hundredths(200, 200), 10000);
    assert_eq!(percent_hundredths(300, 200), 10000);
    assert_eq!(percent_hundredths(1, 3), 3333);
    assert_eq!(percent_hundredths(5, 0), 0);
    assert!(percent_hundredths(u64::MAX, 1) <= 10000);
}

#[test]
fn average_truncates() {
    assert_eq!(average_usecs(3000000, 2), 1500000);
    assert_eq!(average_usecs(10, 3), 3);
    assert_eq!(average_usecs(10, 0), 0);
}

#[test]
fn live_line_format() {
    assert_eq!(live_line(Arch::X86_64, 0), "read (0)");
    assert_eq!(live_line(Arch::X86_64, 99999), "99999 (99999)");
}

#[test]
fn row_format_is_fixed_width() {
    let e = SyscallEntry {
        syscall_id: 0,
        stats: CallStats {
            count: 2,
            total_elapsed_us: 3000000,
            error_count: 1,
        },
    };
    let line = format_row(Arch::X86_64, e, 6000000);
    assert_eq!(line, " 50.00    3.000000     1500000         2         1 read");
}

#[test]
fn row_format_small_fractions_keep_their_zeros() {
    let e = SyscallEntry {
        syscall_id: 2,
        stats: CallStats {
            count: 1,
            total_elapsed_us: 42,
            error_count: 0,
        },
    };
    let line = format_row(Arch::X86_64, e, 1000000);
    assert_eq!(line, "  0.00    0.000042          42         1         0 open");
}

#[test]
fn summary_is_sorted_by_descending_total_time() {
    let mut st = TraceState::start(Arch::X86_64, false);
    let feed = |st: &mut TraceState, id: u64, entry: u64, exit: u64| {
        st.on_notification(Notification::Boundary {
            regs: RegSnapshot { syscall_id: id, return_value: 0 },
            now_us: entry,
        });
        st.on_resume(ResumeOutcome::Resumed);
        st.on_notification(Notification::Boundary {
            regs: RegSnapshot { syscall_id: id, return_value: 0 },
            now_us: exit,
        });
        st.on_resume(ResumeOutcome::Resumed);
    };
    st.on_notification(Notification::Boundary {
        regs: RegSnapshot { syscall_id: 59, return_value: 0 },
        now_us: 0,
    });
    st.on_resume(ResumeOutcome::Resumed);
    feed(&mut st, 0, 10, 15); // read: 5 us
    feed(&mut st, 2, 20, 120); // open: 100 us
    feed(&mut st, 3, 200, 230); // close: 30 us
    let lines = render_summary(&st.session, Arch::X86_64, 1000);
    assert_eq!(lines.len(), 5);
    assert_eq!(
        lines[0],
        "% time     seconds  usecs/call     calls    errors syscall"
    );
    assert_eq!(
        lines[1],
        "------ ----------- ----------- --------- --------- ----------------"
    );
    assert!(lines[2].ends_with("open"));
    assert!(lines[3].ends_with("close"));
    assert!(lines[4].ends_with("read"));
    assert_eq!(lines[2], " 10.00    0.000100         100         1         0 open");
}

#[test]
fn slug_lookup() {
    assert_eq!(like_strace::problem::id_to_slug("1").unwrap(), "two-sum");
    assert_eq!(
        like_strace::problem::id_to_slug("215").unwrap(),
        "kth-largest-element-in-an-array"
    );
    assert_eq!(
        like_strace::problem::id_to_slug("3").unwrap(),
        "longest-substring-with-repeating-characters"
    );
    let e = like_strace::problem::id_to_slug("9999").unwrap_err();
    assert_eq!(e.describe(), "unknown problem id");
}

#[test]
fn problem_record_round_trip() {
    let mut snippets = std::collections::HashMap::new();
    snippets.insert("rust".to_string(), "fn main() {}".to_string());
    let p = like_strace::problem::LeetCodeProblem {
        title: "Two Sum".to_string(),
        description: "find two numbers adding to a target".to_string(),
        difficulty: "Easy".to_string(),
        tags: vec!["array".to_string()],
        code_snippets: snippets,
    };
    assert_eq!(p.title, "Two Sum");
    assert_eq!(p.tags.len(), 1);
    assert_eq!(p.code_snippets.get("rust").unwrap(), "fn main() {}");
}
