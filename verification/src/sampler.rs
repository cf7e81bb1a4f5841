//! The sampler's bookkeeping: which GPUs to watch, the list it starts from,
//! how a round of readings updates the list, and what replaces the list when
//! NVML fails.

use vstd::prelude::*;

use crate::gpm::{GpmReading, GpuMeta};
use crate::history::{law_pushed_rates, law_window_shape, GpuHistory, GpuHistoryView, SamplePoint};
use crate::text::concat2;

verus! {

/// The GPUs to watch: the ones asked for, or all `count` GPUs (`0..count`)
/// when none was asked for.
pub fn select_gpu_indices(selected: Vec<u32>, count: u32) -> (r: Vec<u32>)
    ensures
        selected@.len() > 0 ==> r@ == selected@,
        selected@.len() == 0 ==> r@ == Seq::new(count as nat, |i: int| i as u32),
{
    if selected.len() > 0 {
        return selected;
    }
    let mut r: Vec<u32> = Vec::new();
    let mut i: u32 = 0;
    while i < count
        invariant
            i <= count,
            r@ == Seq::new(i as nat, |j: int| j as u32),
        decreases count - i,
    {
        r.push(i);
        i = i + 1;
    }
    r
}

/// The list the dashboard starts from: one fresh entry per opened GPU, in
/// order, followed by the entries of the GPUs that could not be opened.
pub fn initial_histories(opened: &Vec<GpuMeta>, failures: Vec<GpuHistory>) -> (r: Vec<
    GpuHistory,
>)
    ensures
        r@.len() == opened@.len() + failures@.len(),
        forall|i: int|
            0 <= i < opened@.len() ==> {
                let h = #[trigger] r@[i]@;
                &&& h.index == opened@[i].index
                &&& h.name == opened@[i].name@
                &&& h.pci_bus_id == opened@[i].pci_bus_id@
                &&& h.tx_mib_s == 0
                &&& h.rx_mib_s == 0
                &&& h.status == "initializing"@
                &&& h.history == Seq::<SamplePoint>::empty()
            },
        forall|i: int|
            0 <= i < failures@.len() ==> #[trigger] r@[opened@.len() + i] == failures@[i],
{
    let mut r: Vec<GpuHistory> = Vec::new();
    let mut i: usize = 0;
    while i < opened.len()
        invariant
            i <= opened@.len(),
            r@.len() == i,
            forall|k: int|
                0 <= k < i ==> {
                    let h = #[trigger] r@[k]@;
                    &&& h.index == opened@[k].index
                    &&& h.name == opened@[k].name@
                    &&& h.pci_bus_id == opened@[k].pci_bus_id@
                    &&& h.tx_mib_s == 0
                    &&& h.rx_mib_s == 0
                    &&& h.status == "initializing"@
                    &&& h.history == Seq::<SamplePoint>::empty()
                },
        decreases opened@.len() - i,
    {
        let meta = &opened[i];
        r.push(GpuHistory::new(meta.index, meta.name.clone(), meta.pci_bus_id.clone()));
        i = i + 1;
    }
    let mut failures = failures;
    let ghost before = r@;
    let ghost fs = failures@;
    r.append(&mut failures);
    assert(r@ == before + fs);
    r
}

/// The entry of history `i` after a round of `readings` taken at time `t`:
/// entries that got a reading record it; the others stay as they were.
pub open spec fn after_round(
    old: GpuHistoryView,
    i: int,
    t: u64,
    readings: Seq<GpmReading>,
    cap: nat,
) -> GpuHistoryView {
    if i < readings.len() {
        old.pushed(
            SamplePoint { t, tx_mib_s: readings[i].tx_mib_s, rx_mib_s: readings[i].rx_mib_s },
            cap,
            readings[i].status@,
        )
    } else {
        old
    }
}

/// In a round of `readings` at time `t` with window capacity `cap`, entry `i`
/// that got a reading takes that reading's rates and status as its latest,
/// keeps its index, name and bus id, and its window gains the sample
/// `(t, tx, rx)` as newest, growing by one while it holds fewer than `cap`
/// samples and otherwise keeping its length by dropping its oldest sample;
/// an entry without a reading is unchanged.
pub proof fn law_round_entry(
    old: GpuHistoryView,
    i: int,
    t: u64,
    readings: Seq<GpmReading>,
    cap: nat,
)
    requires
        0 <= i,
    ensures
        i < readings.len() ==> {
            let new = after_round(old, i, t, readings, cap);
            let p = SamplePoint { t, tx_mib_s: readings[i].tx_mib_s, rx_mib_s: readings[i].rx_mib_s };
            &&& new.tx_mib_s == readings[i].tx_mib_s
            &&& new.rx_mib_s == readings[i].rx_mib_s
            &&& new.status == readings[i].status@
            &&& new.index == old.index
            &&& new.name == old.name
            &&& new.pci_bus_id == old.pci_bus_id
            &&& new.history.last() == p
            &&& new.history.last().t == t
            &&& new.history.len() == (if old.history.len() < cap {
                (old.history.len() + 1) as int
            } else if old.history.len() == 0 {
                1int
            } else {
                old.history.len() as int
            })
            &&& new.history == old.history.push(p).subrange(
                old.history.len() + 1 - new.history.len(),
                (old.history.len() + 1) as int,
            )
        },
        i >= readings.len() ==> after_round(old, i, t, readings, cap) == old,
{
    if i < readings.len() {
        let p = SamplePoint { t, tx_mib_s: readings[i].tx_mib_s, rx_mib_s: readings[i].rx_mib_s };
        law_window_shape(old.history, p, cap);
        law_pushed_rates(old, p, cap, readings[i].status@);
    }
}

/// Records a round of readings taken at time `t`: reading `i` goes to entry
/// `i`; readings without an entry are dropped, and entries without a reading
/// are left as they are.
pub fn record_readings(
    histories: &mut Vec<GpuHistory>,
    t: u64,
    readings: &Vec<GpmReading>,
    cap: usize,
)
    ensures
        final(histories)@.len() == old(histories)@.len(),
        forall|i: int|
            0 <= i < old(histories)@.len() ==> #[trigger] final(histories)@[i]@ == after_round(
                old(histories)@[i]@,
                i,
                t,
                readings@,
                cap as nat,
            ),
        forall|i: int|
            0 <= i < old(histories)@.len() && i < readings@.len() ==> {
                let new = #[trigger] final(histories)@[i]@;
                let old_h = old(histories)@[i]@.history;
                &&& new.tx_mib_s == readings@[i].tx_mib_s
                &&& new.rx_mib_s == readings@[i].rx_mib_s
                &&& new.status == readings@[i].status@
                &&& new.index == old(histories)@[i]@.index
                &&& new.name == old(histories)@[i]@.name
                &&& new.pci_bus_id == old(histories)@[i]@.pci_bus_id
                &&& new.history.last() == (SamplePoint {
                    t,
                    tx_mib_s: readings@[i].tx_mib_s,
                    rx_mib_s: readings@[i].rx_mib_s,
                })
                &&& new.history.len() == (if old_h.len() < cap {
                    (old_h.len() + 1) as int
                } else if old_h.len() == 0 {
                    1int
                } else {
                    old_h.len() as int
                })
            },
        forall|i: int|
            0 <= i < old(histories)@.len() && i >= readings@.len()
                ==> #[trigger] final(histories)@[i]@ == old(histories)@[i]@,
{
    let n = histories.len();
    let mut i: usize = 0;
    while i < readings.len()
        invariant
            i <= readings@.len(),
            n == old(histories)@.len(),
            histories@.len() == n,
            forall|k: int|
                0 <= k < n ==> #[trigger] histories@[k]@ == (if k < i {
                    after_round(old(histories)@[k]@, k, t, readings@, cap as nat)
                } else {
                    old(histories)@[k]@
                }),
        decreases readings@.len() - i,
    {
        if i < histories.len() {
            let r = &readings[i];
            histories[i].push(t, r.tx_mib_s, r.rx_mib_s, cap, r.status.clone());
        }
        i = i + 1;
    }
    proof {
        assert forall|k: int| 0 <= k < n implies #[trigger] histories@[k]@ == after_round(
            old(histories)@[k]@,
            k,
            t,
            readings@,
            cap as nat,
        ) && (k < readings@.len() ==> histories@[k]@.history.last() == (SamplePoint {
            t,
            tx_mib_s: readings@[k].tx_mib_s,
            rx_mib_s: readings@[k].rx_mib_s,
        })) by {
            law_round_entry(old(histories)@[k]@, k, t, readings@, cap as nat);
        }
    }
}

/// The list shown when NVML failed before any GPU was opened: a single
/// `NVML` entry carrying `status`.
pub fn error_histories(status: String) -> (r: Vec<GpuHistory>)
    ensures
        r@.len() == 1,
        r@[0]@.index == 0,
        r@[0]@.name == "NVML"@,
        r@[0]@.pci_bus_id == "-"@,
        r@[0]@.tx_mib_s == crate::history::NAN_BITS,
        r@[0]@.rx_mib_s == crate::history::NAN_BITS,
        r@[0]@.status == status@,
        r@[0]@.history == Seq::<SamplePoint>::empty(),
{
    let mut r: Vec<GpuHistory> = Vec::new();
    r.push(GpuHistory::nvml_error(status));
    r
}

/// The NVML step at which the sampler gave up.
#[derive(PartialEq, Eq, Clone, Copy, Debug, Structural)]
pub enum SamplerFailure {
    /// Loading or initialising NVML.
    Init,
    /// Counting the GPUs.
    DeviceCount,
}

impl SamplerFailure {
    /// `NVML init failed: <detail>` or `NVML device count failed: <detail>`.
    pub fn status(&self, detail: &str) -> (s: String)
        ensures
            *self == SamplerFailure::Init ==> s@ == "NVML init failed: "@ + detail@,
            *self == SamplerFailure::DeviceCount ==> s@ == "NVML device count failed: "@
                + detail@,
    {
        match self {
            SamplerFailure::Init => concat2("NVML init failed: ", detail),
            SamplerFailure::DeviceCount => concat2("NVML device count failed: ", detail),
        }
    }
}

} // verus!
