use vstd::prelude::*;
use vstd::string::StringExecFns;
use crate::metrics::Metrics;

verus! {

/// Counters of one probed key as the exposition shows them: the target's
/// address in text, and the network namespace, if any.
#[derive(Clone, Debug)]
pub struct MetricsEntry {
    pub ip: String,
    pub netns: Option<String>,
    pub metrics: Metrics,
}

pub open spec fn digit_char(d: nat) -> char {
    seq!['0', '1', '2', '3', '4', '5', '6', '7', '8', '9'][d as int]
}

/// Decimal digits of `n`, without leading zeros.
pub open spec fn decimal(n: nat) -> Seq<char>
    decreases n,
{
    if n < 10 {
        seq![digit_char(n)]
    } else {
        decimal(n / 10).push(digit_char(n % 10))
    }
}

/// The last `w` decimal digits of `f`, zeros in front included.
pub open spec fn padded(f: nat, w: nat) -> Seq<char>
    decreases w,
{
    if w == 0 {
        seq![]
    } else {
        padded(f / 10, (w - 1) as nat).push(digit_char(f % 10))
    }
}

/// `padded(f, w)` without its trailing zeros.
pub open spec fn trimmed(f: nat, w: nat) -> Seq<char>
    decreases w,
{
    if w > 0 && f != 0 && f % 10 == 0 {
        trimmed(f / 10, (w - 1) as nat)
    } else {
        padded(f, w)
    }
}

/// A span of nanoseconds as decimal seconds: the whole seconds, then, when
/// there is a fraction, a point and its digits without trailing zeros.
pub open spec fn seconds_text(nanos: nat) -> Seq<char> {
    let whole = nanos / 1_000_000_000;
    let frac = nanos % 1_000_000_000;
    if frac == 0 {
        decimal(whole)
    } else {
        decimal(whole) + seq!['.'] + trimmed(frac, 9)
    }
}

pub open spec fn ns_text(ns: Option<String>) -> Seq<char> {
    match ns {
        Some(s) => s@,
        None => seq![],
    }
}

pub open spec fn labels(ip: Seq<char>, ns: Seq<char>) -> Seq<char> {
    "{ip=\""@ + ip + "\",netns=\""@ + ns + "\"} "@
}

/// The three lines of one key, and the blank line that ends its group.
pub open spec fn group_text(e: MetricsEntry) -> Seq<char> {
    let l = labels(e.ip@, ns_text(e.netns));
    "total_pings"@ + l + decimal(e.metrics.total_pings as nat) + "\n"@ + "successful_pings"@
        + l + decimal(e.metrics.successful_pings as nat) + "\n"@ + "successful_ping_wait_sum"@
        + l + seconds_text(e.metrics.success_nanos as nat) + "\n\n"@
}

/// The exposition of a snapshot: a group per key that has seen an exchange,
/// in the snapshot's order.
pub open spec fn render_text(es: Seq<MetricsEntry>) -> Seq<char>
    decreases es.len(),
{
    if es.len() == 0 {
        seq![]
    } else if es.last().metrics.total_pings == 0 {
        render_text(es.drop_last())
    } else {
        render_text(es.drop_last()) + group_text(es.last())
    }
}

fn digit_text(d: u64) -> (r: &'static str)
    requires
        d < 10,
    ensures
        r@ == seq![digit_char(d as nat)],
{
    proof {
        reveal_strlit("0");
        reveal_strlit("1");
        reveal_strlit("2");
        reveal_strlit("3");
        reveal_strlit("4");
        reveal_strlit("5");
        reveal_strlit("6");
        reveal_strlit("7");
        reveal_strlit("8");
        reveal_strlit("9");
    }
    if d == 0 {
        "0"
    } else if d == 1 {
        "1"
    } else if d == 2 {
        "2"
    } else if d == 3 {
        "3"
    } else if d == 4 {
        "4"
    } else if d == 5 {
        "5"
    } else if d == 6 {
        "6"
    } else if d == 7 {
        "7"
    } else if d == 8 {
        "8"
    } else {
        "9"
    }
}

/// Appends the decimal digits of `n`.
pub fn push_decimal(out: &mut String, n: u64)
    ensures
        final(out)@ == old(out)@ + decimal(n as nat),
    decreases n,
{
    if n >= 10 {
        push_decimal(out, n / 10);
    }
    out.append(digit_text(n % 10));
    assert(final(out)@ == old(out)@ + decimal(n as nat));
}

fn push_padded(out: &mut String, f: u64, w: u64)
    ensures
        final(out)@ == old(out)@ + padded(f as nat, w as nat),
    decreases w,
{
    if w > 0 {
        push_padded(out, f / 10, w - 1);
        out.append(digit_text(f % 10));
    }
    assert(final(out)@ == old(out)@ + padded(f as nat, w as nat));
}

/// Appends `nanos` as decimal seconds.
pub fn push_seconds(out: &mut String, nanos: u64)
    ensures
        final(out)@ == old(out)@ + seconds_text(nanos as nat),
{
    let whole = nanos / 1_000_000_000;
    let mut frac = nanos % 1_000_000_000;
    push_decimal(out, whole);
    if frac != 0 {
        proof {
            reveal_strlit(".");
        }
        out.append(".");
        let mut w: u64 = 9;
        while w > 0 && frac != 0 && frac % 10 == 0
            invariant
                w <= 9,
                trimmed(frac as nat, w as nat) == trimmed(
                    (nanos % 1_000_000_000) as nat,
                    9,
                ),
            decreases w,
        {
            frac = frac / 10;
            w = w - 1;
        }
        push_padded(out, frac, w);
    }
    assert(final(out)@ == old(out)@ + seconds_text(nanos as nat));
}

fn push_labels(out: &mut String, ip: &String, netns: &Option<String>)
    ensures
        final(out)@ == old(out)@ + labels(ip@, ns_text(*netns)),
{
    out.append("{ip=\"");
    out.append(ip.as_str());
    out.append("\",netns=\"");
    match netns {
        Some(ns) => out.append(ns.as_str()),
        None => {},
    }
    out.append("\"} ");
    assert(final(out)@ == old(out)@ + labels(ip@, ns_text(*netns)));
}

fn push_group(out: &mut String, e: &MetricsEntry)
    ensures
        final(out)@ == old(out)@ + group_text(*e),
{
    out.append("total_pings");
    push_labels(out, &e.ip, &e.netns);
    push_decimal(out, e.metrics.total_pings);
    out.append("\n");
    out.append("successful_pings");
    push_labels(out, &e.ip, &e.netns);
    push_decimal(out, e.metrics.successful_pings);
    out.append("\n");
    out.append("successful_ping_wait_sum");
    push_labels(out, &e.ip, &e.netns);
    push_seconds(out, e.metrics.success_nanos);
    out.append("\n\n");
    assert(final(out)@ == old(out)@ + group_text(*e));
}

/// Renders a snapshot in the plain-text exposition format: for each key
/// that has seen an exchange, a `total_pings`, a `successful_pings` and a
/// `successful_ping_wait_sum` line labelled with the address and the
/// namespace (empty when there is none), then a blank line.
pub fn render(entries: &Vec<MetricsEntry>) -> (r: String)
    ensures
        r@ == render_text(entries@),
{
    let mut out = String::new();
    let mut i: usize = 0;
    while i < entries.len()
        invariant
            i <= entries@.len(),
            out@ == render_text(entries@.subrange(0, i as int)),
        decreases entries@.len() - i,
    {
        let e = &entries[i];
        assert(entries@.subrange(0, i + 1).drop_last() == entries@.subrange(0, i as int));
        if e.metrics.total_pings != 0 {
            push_group(&mut out, e);
        }
        i = i + 1;
    }
    assert(entries@.subrange(0, i as int) == entries@);
    out
}

} // verus!
