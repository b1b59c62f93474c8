//! The JSON rendering of a metrics set, field for field, with percentages
//! rendered as fixed-point numbers of two decimals and absent parts
//! rendered as `null`. The builders are proved to produce exactly the
//! character sequence the specification names, so a signature computed over
//! the rendered body is reproducible.

use vstd::prelude::*;

use crate::encode::{append_dec_u64, append_pad2, spec_dec_str, spec_pad2};
use crate::metrics::{
    CpuLoadMetric, CpuLoadMetricView, CpuMetrics, CpuMetricsView, MemoryDetailedMetrics,
    MemoryMetrics, Metrics, MetricsView, Percent,
};

verus! {

/// A percentage in hundredths as a JSON number with two decimals: 4725 is
/// `47.25`.
pub open spec fn spec_json_percent(p: Percent) -> Seq<char> {
    spec_dec_str((p / 100) as nat) + seq!['.'] + spec_pad2((p % 100) as int)
}

/// The comma-separated renderings of a sequence of percentages.
pub open spec fn spec_json_percent_items(ps: Seq<Percent>) -> Seq<char>
    decreases ps.len(),
{
    if ps.len() == 0 {
        Seq::empty()
    } else if ps.len() == 1 {
        spec_json_percent(ps[0])
    } else {
        spec_json_percent_items(ps.drop_last()) + seq![','] + spec_json_percent(ps.last())
    }
}

/// The JSON rendering of CPU load: the average and the per-core array,
/// `null` when no per-core figures exist.
pub open spec fn spec_json_cpu_load(l: CpuLoadMetricView) -> Seq<char> {
    "{\"average\":"@ + spec_json_percent(l.average) + ",\"per_core\":"@ + (match l.per_core {
        Some(ps) => seq!['['] + spec_json_percent_items(ps) + seq![']'],
        None => "null"@,
    }) + seq!['}']
}

/// The JSON rendering of CPU metrics: the load block, `null` when absent.
pub open spec fn spec_json_cpu(c: CpuMetricsView) -> Seq<char> {
    "{\"load\":"@ + (match c.load {
        Some(l) => spec_json_cpu_load(l),
        None => "null"@,
    }) + seq!['}']
}

/// The JSON rendering of the detailed memory breakdown, in bytes.
pub open spec fn spec_json_memory_detailed(d: MemoryDetailedMetrics) -> Seq<char> {
    "{\"total\":"@ + spec_dec_str(d.total as nat) + ",\"available\":"@ + spec_dec_str(
        d.available as nat,
    ) + ",\"used\":"@ + spec_dec_str(d.used as nat) + ",\"free\":"@ + spec_dec_str(d.free as nat)
        + seq!['}']
}

/// The JSON rendering of memory metrics: the used fraction and the
/// detailed block, `null` when absent.
pub open spec fn spec_json_memory(m: MemoryMetrics) -> Seq<char> {
    "{\"perc_used\":"@ + spec_json_percent(m.perc_used) + ",\"detailed\":"@ + (match m.detailed {
        Some(d) => spec_json_memory_detailed(d),
        None => "null"@,
    }) + seq!['}']
}

/// The JSON rendering of one full metrics set: CPU, then memory.
pub open spec fn spec_json_metrics(m: MetricsView) -> Seq<char> {
    "{\"cpu\":"@ + spec_json_cpu(m.cpu) + ",\"memory\":"@ + spec_json_memory(m.memory)
        + seq!['}']
}

/// Append the two-decimal rendering of the percentage `p` to `out`.
pub fn append_json_percent(out: &mut String, p: Percent)
    ensures
        final(out)@ == old(out)@ + spec_json_percent(p),
{
    append_dec_u64(out, (p / 100) as u64);
    out.append(".");
    append_pad2(out, (p % 100) as u64);
    proof {
        reveal_strlit(".");
        assert("."@ =~= seq!['.']);
        assert(out@ =~= old(out)@ + spec_json_percent(p));
    }
}

fn append_json_percent_array(out: &mut String, ps: &Vec<Percent>)
    ensures
        final(out)@ == old(out)@ + seq!['['] + spec_json_percent_items(ps@) + seq![']'],
{
    out.append("[");
    let n = ps.len();
    let mut i: usize = 0;
    proof {
        reveal_strlit("[");
        assert("["@ =~= seq!['[']);
        assert(ps@.subrange(0, 0) =~= Seq::<Percent>::empty());
        assert(out@ =~= old(out)@ + seq!['['] + spec_json_percent_items(ps@.subrange(0, 0)));
    }
    while i < n
        invariant
            n == ps@.len(),
            i <= n,
            out@ == old(out)@ + seq!['['] + spec_json_percent_items(ps@.subrange(0, i as int)),
        decreases n - i,
    {
        let ghost before = out@;
        if i > 0 {
            out.append(",");
        }
        append_json_percent(out, ps[i]);
        proof {
            reveal_strlit(",");
            assert(","@ =~= seq![',']);
            let pre = ps@.subrange(0, i as int);
            let cur = ps@.subrange(0, i + 1);
            assert(cur.drop_last() =~= pre);
            assert(cur.last() == ps@[i as int]);
            if i == 0 {
                assert(cur.len() == 1);
                assert(cur[0] == ps@[0]);
                assert(out@ =~= old(out)@ + seq!['['] + spec_json_percent_items(cur));
            } else {
                assert(out@ =~= old(out)@ + seq!['['] + spec_json_percent_items(cur));
            }
        }
        i += 1;
    }
    out.append("]");
    proof {
        reveal_strlit("]");
        assert("]"@ =~= seq![']']);
        assert(ps@.subrange(0, n as int) =~= ps@);
        assert(out@ =~= old(out)@ + seq!['['] + spec_json_percent_items(ps@) + seq![']']);
    }
}

fn append_json_cpu_load(out: &mut String, l: &CpuLoadMetric)
    ensures
        final(out)@ == old(out)@ + spec_json_cpu_load(l@),
{
    out.append("{\"average\":");
    append_json_percent(out, l.average);
    out.append(",\"per_core\":");
    let ghost mid = out@;
    match &l.per_core {
        Some(ps) => {
            append_json_percent_array(out, ps);
        },
        None => {
            out.append("null");
        },
    }
    out.append("}");
    proof {
        reveal_strlit("{\"average\":");
        reveal_strlit(",\"per_core\":");
        reveal_strlit("null");
        reveal_strlit("}");
        assert("}"@ =~= seq!['}']);
        assert(out@ =~= old(out)@ + spec_json_cpu_load(l@));
    }
}

fn append_json_cpu(out: &mut String, c: &CpuMetrics)
    ensures
        final(out)@ == old(out)@ + spec_json_cpu(c@),
{
    out.append("{\"load\":");
    match &c.load {
        Some(l) => {
            append_json_cpu_load(out, l);
        },
        None => {
            out.append("null");
        },
    }
    out.append("}");
    proof {
        reveal_strlit("{\"load\":");
        reveal_strlit("null");
        reveal_strlit("}");
        assert("}"@ =~= seq!['}']);
        assert(out@ =~= old(out)@ + spec_json_cpu(c@));
    }
}

fn append_json_memory_detailed(out: &mut String, d: &MemoryDetailedMetrics)
    ensures
        final(out)@ == old(out)@ + spec_json_memory_detailed(*d),
{
    out.append("{\"total\":");
    append_dec_u64(out, d.total);
    out.append(",\"available\":");
    append_dec_u64(out, d.available);
    out.append(",\"used\":");
    append_dec_u64(out, d.used);
    out.append(",\"free\":");
    append_dec_u64(out, d.free);
    out.append("}");
    proof {
        reveal_strlit("{\"total\":");
        reveal_strlit(",\"available\":");
        reveal_strlit(",\"used\":");
        reveal_strlit(",\"free\":");
        reveal_strlit("}");
        assert("}"@ =~= seq!['}']);
        assert(out@ =~= old(out)@ + spec_json_memory_detailed(*d));
    }
}

fn append_json_memory(out: &mut String, m: &MemoryMetrics)
    ensures
        final(out)@ == old(out)@ + spec_json_memory(*m),
{
    out.append("{\"perc_used\":");
    append_json_percent(out, m.perc_used);
    out.append(",\"detailed\":");
    match &m.detailed {
        Some(d) => {
            append_json_memory_detailed(out, d);
        },
        None => {
            out.append("null");
        },
    }
    out.append("}");
    proof {
        reveal_strlit("{\"perc_used\":");
        reveal_strlit(",\"detailed\":");
        reveal_strlit("null");
        reveal_strlit("}");
        assert("}"@ =~= seq!['}']);
        assert(out@ =~= old(out)@ + spec_json_memory(*m));
    }
}

/// Append the JSON rendering of one full metrics set to `out`.
pub fn append_json_metrics(out: &mut String, m: &Metrics)
    ensures
        final(out)@ == old(out)@ + spec_json_metrics(m@),
{
    out.append("{\"cpu\":");
    append_json_cpu(out, &m.cpu);
    out.append(",\"memory\":");
    append_json_memory(out, &m.memory);
    out.append("}");
    proof {
        reveal_strlit("{\"cpu\":");
        reveal_strlit(",\"memory\":");
        reveal_strlit("}");
        assert("}"@ =~= seq!['}']);
        assert(out@ =~= old(out)@ + spec_json_metrics(m@));
    }
}

} // verus!
