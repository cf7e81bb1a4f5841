//! Per-GPU traffic history: the latest TX/RX reading, its status, and a
//! bounded window of past samples for the charts.
//!
//! Rates and times are `f64` values in the program; here they are carried as
//! their IEEE-754 bit patterns (`f64::to_bits`), which the history stores and
//! hands back unchanged.

use vstd::prelude::*;

use std::collections::VecDeque;

use crate::text::{concat2, decimal, u32_to_decimal};

verus! {

/// Bit pattern of the `f64` NaN that marks a missing rate (`f64::NAN.to_bits()`).
pub const NAN_BITS: u64 = 0x7ff8_0000_0000_0000u64;

/// One sample: time since start in seconds, and TX/RX rates in MiB/s, each as
/// `f64` bits.
#[derive(Clone, Copy, Debug, PartialEq, Eq, Structural)]
pub struct SamplePoint {
    pub t: u64,
    pub tx_mib_s: u64,
    pub rx_mib_s: u64,
}

/// What a GPU's history holds, as plain mathematical values.
pub struct GpuHistoryView {
    pub index: u32,
    pub name: Seq<char>,
    pub pci_bus_id: Seq<char>,
    pub tx_mib_s: u64,
    pub rx_mib_s: u64,
    pub status: Seq<char>,
    pub history: Seq<SamplePoint>,
}

/// The traffic record of one GPU.
#[derive(Clone, Debug)]
pub struct GpuHistory {
    pub index: u32,
    pub name: String,
    pub pci_bus_id: String,
    /// Latest TX rate (MiB/s, `f64` bits).
    pub tx_mib_s: u64,
    /// Latest RX rate (MiB/s, `f64` bits).
    pub rx_mib_s: u64,
    pub status: String,
    /// Past samples, oldest first.
    pub history: VecDeque<SamplePoint>,
}

impl View for GpuHistory {
    type V = GpuHistoryView;

    open spec fn view(&self) -> GpuHistoryView {
        GpuHistoryView {
            index: self.index,
            name: self.name@,
            pci_bus_id: self.pci_bus_id@,
            tx_mib_s: self.tx_mib_s,
            rx_mib_s: self.rx_mib_s,
            status: self.status@,
            history: self.history@,
        }
    }
}

/// The window after appending `p` with capacity `cap`: when the window already
/// holds `cap` samples or more, its oldest sample is dropped first.
pub open spec fn pushed_window(h: Seq<SamplePoint>, p: SamplePoint, cap: nat) -> Seq<SamplePoint> {
    let kept = if h.len() >= cap && h.len() > 0 {
        h.subrange(1, h.len() as int)
    } else {
        h
    };
    kept.push(p)
}

/// The window left by appending each of `points`, in order, to an empty
/// window with capacity `cap`.
pub open spec fn replayed_window(points: Seq<SamplePoint>, cap: nat) -> Seq<SamplePoint>
    decreases points.len(),
{
    if points.len() == 0 {
        Seq::empty()
    } else {
        pushed_window(replayed_window(points.drop_last(), cap), points.last(), cap)
    }
}

impl GpuHistoryView {
    /// The history after recording a sample `p` with status `status`.
    pub open spec fn pushed(self, p: SamplePoint, cap: nat, status: Seq<char>) -> GpuHistoryView {
        GpuHistoryView {
            index: self.index,
            name: self.name,
            pci_bus_id: self.pci_bus_id,
            tx_mib_s: p.tx_mib_s,
            rx_mib_s: p.rx_mib_s,
            status: status,
            history: pushed_window(self.history, p, cap),
        }
    }
}

/// The name shown for a GPU whose name is unknown: `GPU` and its index.
pub open spec fn default_gpu_name(index: u32) -> Seq<char> {
    "GPU"@ + decimal(index as nat)
}

/// The name shown for a GPU whose name is unknown: `GPU` and its index.
pub fn gpu_default_name(index: u32) -> (s: String)
    ensures
        s@ == default_gpu_name(index),
{
    let digits = u32_to_decimal(index);
    concat2("GPU", digits.as_str())
}

impl GpuHistory {
    /// A GPU that has not been sampled yet: rates zero, status `initializing`,
    /// no samples.
    pub fn new(index: u32, name: String, pci_bus_id: String) -> (h: GpuHistory)
        ensures
            h@.index == index,
            h@.name == name@,
            h@.pci_bus_id == pci_bus_id@,
            h@.tx_mib_s == 0,
            h@.rx_mib_s == 0,
            h@.status == "initializing"@,
            h@.history == Seq::<SamplePoint>::empty(),
    {
        GpuHistory {
            index,
            name,
            pci_bus_id,
            tx_mib_s: 0,
            rx_mib_s: 0,
            status: String::from_str("initializing"),
            history: VecDeque::new(),
        }
    }

    /// A GPU that could not be opened: named `GPU<index>`, bus id `unknown`,
    /// rates NaN, status `init failed: ` and the reason, no samples.
    pub fn init_failure(index: u32, reason: &str) -> (h: GpuHistory)
        ensures
            h@.index == index,
            h@.name == default_gpu_name(index),
            h@.pci_bus_id == "unknown"@,
            h@.tx_mib_s == NAN_BITS,
            h@.rx_mib_s == NAN_BITS,
            h@.status == "init failed: "@ + reason@,
            h@.history == Seq::<SamplePoint>::empty(),
    {
        GpuHistory {
            index,
            name: gpu_default_name(index),
            pci_bus_id: String::from_str("unknown"),
            tx_mib_s: NAN_BITS,
            rx_mib_s: NAN_BITS,
            status: concat2("init failed: ", reason),
            history: VecDeque::new(),
        }
    }

    /// The single entry shown when NVML itself failed: index 0, named `NVML`,
    /// bus id `-`, rates NaN, the given status, no samples.
    pub fn nvml_error(status: String) -> (h: GpuHistory)
        ensures
            h@.index == 0,
            h@.name == "NVML"@,
            h@.pci_bus_id == "-"@,
            h@.tx_mib_s == NAN_BITS,
            h@.rx_mib_s == NAN_BITS,
            h@.status == status@,
            h@.history == Seq::<SamplePoint>::empty(),
    {
        GpuHistory {
            index: 0,
            name: String::from_str("NVML"),
            pci_bus_id: String::from_str("-"),
            tx_mib_s: NAN_BITS,
            rx_mib_s: NAN_BITS,
            status,
            history: VecDeque::new(),
        }
    }

    /// Records a reading taken at time `t`: it becomes the latest rates and
    /// status, and is appended to the window, dropping the oldest sample when
    /// the window already holds `cap` samples.
    pub fn push(&mut self, t: u64, tx_mib_s: u64, rx_mib_s: u64, cap: usize, status: String)
        ensures
            final(self)@ == old(self)@.pushed(
                SamplePoint { t, tx_mib_s, rx_mib_s },
                cap as nat,
                status@,
            ),
            final(self).tx_mib_s == tx_mib_s,
            final(self).rx_mib_s == rx_mib_s,
            final(self).status@ == status@,
            final(self).index == old(self).index,
            final(self).name@ == old(self).name@,
            final(self).pci_bus_id@ == old(self).pci_bus_id@,
            final(self).history@.len() == (if old(self).history@.len() < cap {
                (old(self).history@.len() + 1) as int
            } else if old(self).history@.len() == 0 {
                1int
            } else {
                old(self).history@.len() as int
            }),
            final(self).history@.last() == (SamplePoint { t, tx_mib_s, rx_mib_s }),
            final(self).history@ == old(self).history@.push(
                SamplePoint { t, tx_mib_s, rx_mib_s },
            ).subrange(
                old(self).history@.len() + 1 - final(self).history@.len(),
                (old(self).history@.len() + 1) as int,
            ),
    {
        proof {
            law_window_shape(old(self).history@, SamplePoint { t, tx_mib_s, rx_mib_s }, cap as nat);
            law_pushed_rates(old(self)@, SamplePoint { t, tx_mib_s, rx_mib_s }, cap as nat, status@);
        }
        self.tx_mib_s = tx_mib_s;
        self.rx_mib_s = rx_mib_s;
        self.status = status;

        if self.history.len() >= cap {
            let _ = self.history.pop_front();
        }
        self.history.push_back(SamplePoint { t, tx_mib_s, rx_mib_s });
    }
}

/// Pushing a sample `p` with capacity `cap` onto a window of `n` samples
/// leaves the last `n + 1` samples when `n < cap`, else the last `n` (the
/// last one when the window was empty): the window grows up to `cap` and then
/// keeps its length, the newest sample is last, and what stays is the end of
/// the old window followed by `p`. The length depends on `cap` alone, not on
/// anything else.
pub proof fn law_window_shape(h: Seq<SamplePoint>, p: SamplePoint, cap: nat)
    ensures
        pushed_window(h, p, cap).len() == (if h.len() < cap {
            (h.len() + 1) as int
        } else if h.len() == 0 {
            1int
        } else {
            h.len() as int
        }),
        pushed_window(h, p, cap).last() == p,
        pushed_window(h, p, cap) == h.push(p).subrange(
            h.len() + 1 - pushed_window(h, p, cap).len(),
            (h.len() + 1) as int,
        ),
{
    let w = pushed_window(h, p, cap);
    let hp = h.push(p);
    assert(w =~= hp.subrange(hp.len() - w.len(), hp.len() as int));
}

/// After recording a reading, the latest rates are exactly the reading's
/// rates (NaN included), the status is the reading's status, and the GPU's
/// index, name and bus id are unchanged.
pub proof fn law_pushed_rates(v: GpuHistoryView, p: SamplePoint, cap: nat, status: Seq<char>)
    ensures
        v.pushed(p, cap, status).tx_mib_s == p.tx_mib_s,
        v.pushed(p, cap, status).rx_mib_s == p.rx_mib_s,
        v.pushed(p, cap, status).status == status,
        v.pushed(p, cap, status).index == v.index,
        v.pushed(p, cap, status).name == v.name,
        v.pushed(p, cap, status).pci_bus_id == v.pci_bus_id,
        v.pushed(p, cap, status).history.last() == p,
{
}

/// A window that is within its capacity stays within it after a push; the
/// newest sample is last, and what is kept is the end of the old window
/// followed by the new sample.
pub proof fn law_push_bounded(h: Seq<SamplePoint>, p: SamplePoint, cap: nat)
    requires
        cap > 0,
        h.len() <= cap,
    ensures
        pushed_window(h, p, cap).len() <= cap,
        pushed_window(h, p, cap).last() == p,
        pushed_window(h, p, cap) == h.push(p).subrange(
            h.push(p).len() - pushed_window(h, p, cap).len(),
            h.push(p).len() as int,
        ),
{
    let w = pushed_window(h, p, cap);
    let hp = h.push(p);
    assert(w =~= hp.subrange(hp.len() - w.len(), hp.len() as int));
}

/// With a positive capacity `cap`, the window always holds exactly the last
/// `cap` samples pushed (all of them while fewer were pushed), oldest first.
pub proof fn law_window_keeps_latest(points: Seq<SamplePoint>, cap: nat)
    requires
        cap > 0,
    ensures
        replayed_window(points, cap) == points.subrange(
            if points.len() > cap {
                points.len() - cap
            } else {
                0
            },
            points.len() as int,
        ),
    decreases points.len(),
{
    if points.len() > 0 {
        let n = points.len() as int;
        let prev = points.drop_last();
        law_window_keeps_latest(prev, cap);
        let w = replayed_window(prev, cap);
        let s_prev: int = if n - 1 > cap {
            n - 1 - cap
        } else {
            0
        };
        assert(w == prev.subrange(s_prev, n - 1));
        if n - 1 >= cap {
            assert(pushed_window(w, points.last(), cap) =~= points.subrange(n - cap, n));
        } else {
            assert(pushed_window(w, points.last(), cap) =~= points.subrange(0, n));
        }
    } else {
        assert(points.subrange(0, 0) =~= Seq::<SamplePoint>::empty());
    }
}

} // verus!
