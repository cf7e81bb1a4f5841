//! Decisions around NVML and its GPM metrics: which return codes mean
//! success, what a failed call is reported as, how a GPU's GPM streaming is
//! brought up, and how a pair of metric results becomes a reading.
//!
//! The calls themselves go through NVML's C interface and are made by the
//! program around this library; they hand their return codes and values here.

use vstd::prelude::*;

use crate::history::{default_gpu_name, gpu_default_name, NAN_BITS};
use crate::text::{concat2, concat3, decimal, u32_to_decimal};

verus! {

/// NVML's return code for success.
pub const NVML_SUCCESS: u32 = 0;

/// NVML's value for an enabled feature.
pub const NVML_FEATURE_ENABLED: u32 = 1;

/// GPM metric: PCIe traffic from the GPU, MiB/s.
pub const GPM_PCIE_TX_PER_SEC: u32 = 20;

/// GPM metric: PCIe traffic to the GPU, MiB/s.
pub const GPM_PCIE_RX_PER_SEC: u32 = 21;

/// The NVML calls whose failures the dashboard reports.
#[derive(PartialEq, Eq, Clone, Copy, Debug, Structural)]
pub enum NvmlCall {
    InitV2,
    DeviceGetCountV2,
    DeviceGetHandleByIndexV2,
    DeviceGetName,
    DeviceGetPciInfoV3,
    GpmQueryDeviceSupport,
    GpmQueryIfStreamingEnabled,
    GpmSampleAllocPrev,
    GpmSampleAllocNow,
    GpmInitialSampleGet,
    GpmSampleGet,
    GpmMetricsGet,
}

/// How a call is named in messages.
pub open spec fn call_name(c: NvmlCall) -> Seq<char> {
    match c {
        NvmlCall::InitV2 => "nvmlInit_v2"@,
        NvmlCall::DeviceGetCountV2 => "nvmlDeviceGetCount_v2"@,
        NvmlCall::DeviceGetHandleByIndexV2 => "nvmlDeviceGetHandleByIndex_v2"@,
        NvmlCall::DeviceGetName => "nvmlDeviceGetName"@,
        NvmlCall::DeviceGetPciInfoV3 => "nvmlDeviceGetPciInfo_v3"@,
        NvmlCall::GpmQueryDeviceSupport => "nvmlGpmQueryDeviceSupport"@,
        NvmlCall::GpmQueryIfStreamingEnabled => "nvmlGpmQueryIfStreamingEnabled"@,
        NvmlCall::GpmSampleAllocPrev => "nvmlGpmSampleAlloc(prev)"@,
        NvmlCall::GpmSampleAllocNow => "nvmlGpmSampleAlloc(now)"@,
        NvmlCall::GpmInitialSampleGet => "initial nvmlGpmSampleGet"@,
        NvmlCall::GpmSampleGet => "nvmlGpmSampleGet"@,
        NvmlCall::GpmMetricsGet => "nvmlGpmMetricsGet"@,
    }
}

/// Each call is named in messages by its NVML entry point, with the two
/// sample allocations told apart and the first sample marked `initial`.
pub proof fn law_call_names()
    ensures
        call_name(NvmlCall::InitV2) == "nvmlInit_v2"@,
        call_name(NvmlCall::DeviceGetCountV2) == "nvmlDeviceGetCount_v2"@,
        call_name(NvmlCall::DeviceGetHandleByIndexV2) == "nvmlDeviceGetHandleByIndex_v2"@,
        call_name(NvmlCall::DeviceGetName) == "nvmlDeviceGetName"@,
        call_name(NvmlCall::DeviceGetPciInfoV3) == "nvmlDeviceGetPciInfo_v3"@,
        call_name(NvmlCall::GpmQueryDeviceSupport) == "nvmlGpmQueryDeviceSupport"@,
        call_name(NvmlCall::GpmQueryIfStreamingEnabled) == "nvmlGpmQueryIfStreamingEnabled"@,
        call_name(NvmlCall::GpmSampleAllocPrev) == "nvmlGpmSampleAlloc(prev)"@,
        call_name(NvmlCall::GpmSampleAllocNow) == "nvmlGpmSampleAlloc(now)"@,
        call_name(NvmlCall::GpmInitialSampleGet) == "initial nvmlGpmSampleGet"@,
        call_name(NvmlCall::GpmSampleGet) == "nvmlGpmSampleGet"@,
        call_name(NvmlCall::GpmMetricsGet) == "nvmlGpmMetricsGet"@,
{
}

impl NvmlCall {
    /// How the call is named in messages.
    pub fn name(&self) -> (s: &'static str)
        ensures
            s@ == call_name(*self),
    {
        match self {
            NvmlCall::InitV2 => "nvmlInit_v2",
            NvmlCall::DeviceGetCountV2 => "nvmlDeviceGetCount_v2",
            NvmlCall::DeviceGetHandleByIndexV2 => "nvmlDeviceGetHandleByIndex_v2",
            NvmlCall::DeviceGetName => "nvmlDeviceGetName",
            NvmlCall::DeviceGetPciInfoV3 => "nvmlDeviceGetPciInfo_v3",
            NvmlCall::GpmQueryDeviceSupport => "nvmlGpmQueryDeviceSupport",
            NvmlCall::GpmQueryIfStreamingEnabled => "nvmlGpmQueryIfStreamingEnabled",
            NvmlCall::GpmSampleAllocPrev => "nvmlGpmSampleAlloc(prev)",
            NvmlCall::GpmSampleAllocNow => "nvmlGpmSampleAlloc(now)",
            NvmlCall::GpmInitialSampleGet => "initial nvmlGpmSampleGet",
            NvmlCall::GpmSampleGet => "nvmlGpmSampleGet",
            NvmlCall::GpmMetricsGet => "nvmlGpmMetricsGet",
        }
    }
}

/// An NVML call that returned something other than success.
#[derive(PartialEq, Eq, Clone, Copy, Debug, Structural)]
pub struct NvmlFailure {
    pub call: NvmlCall,
    pub code: u32,
}

/// The outcome of an NVML call that returned `code`: success exactly when the
/// code is `NVML_SUCCESS`.
pub fn check(call: NvmlCall, code: u32) -> (r: Result<(), NvmlFailure>)
    ensures
        r is Ok <==> code == NVML_SUCCESS,
        r matches Err(f) ==> f == (NvmlFailure { call, code }),
{
    if code == NVML_SUCCESS {
        Ok(())
    } else {
        Err(NvmlFailure { call, code })
    }
}

impl NvmlFailure {
    /// `<call name>: <detail>`, where `detail` is NVML's text for the code.
    pub fn message(&self, detail: &str) -> (s: String)
        ensures
            s@ == call_name(self.call) + ": "@ + detail@,
    {
        concat3(self.call.name(), ": ", detail)
    }
}

/// NVML's text for a return code when it has one, else `NVML error code <code>`.
pub fn error_text(lookup: Option<String>, code: u32) -> (s: String)
    ensures
        lookup matches Some(t) ==> s@ == t@,
        lookup is None ==> s@ == "NVML error code "@ + decimal(code as nat),
{
    match lookup {
        Some(t) => t,
        None => {
            let digits = u32_to_decimal(code);
            concat2("NVML error code ", digits.as_str())
        },
    }
}

/// Index, name and PCI bus id of an opened GPU.
#[derive(Clone, Debug)]
pub struct GpuMeta {
    pub index: u32,
    pub name: String,
    pub pci_bus_id: String,
}

impl GpuMeta {
    /// The description of GPU `index` from what NVML reported: a name that
    /// could not be read becomes `GPU<index>`, a bus id that could not be read
    /// becomes `unknown`.
    pub fn from_lookups(index: u32, name: Option<String>, pci_bus_id: Option<String>) -> (m:
        GpuMeta)
        ensures
            m.index == index,
            name matches Some(n) ==> m.name@ == n@,
            name is None ==> m.name@ == default_gpu_name(index),
            pci_bus_id matches Some(p) ==> m.pci_bus_id@ == p@,
            pci_bus_id is None ==> m.pci_bus_id@ == "unknown"@,
    {
        let name = match name {
            Some(n) => n,
            None => gpu_default_name(index),
        };
        let pci_bus_id = match pci_bus_id {
            Some(p) => p,
            None => String::from_str("unknown"),
        };
        GpuMeta { index, name, pci_bus_id }
    }
}

/// One reading of a GPU: TX and RX rates (MiB/s, `f64` bits) and a status.
#[derive(Clone, Debug)]
pub struct GpmReading {
    pub tx_mib_s: u64,
    pub rx_mib_s: u64,
    pub status: String,
}

impl GpmReading {
    /// A successful read gives its rates with status `OK`; a failed one gives
    /// NaN rates with the failure's message as status.
    pub fn from_outcome(outcome: Result<(u64, u64), String>) -> (r: GpmReading)
        ensures
            outcome matches Ok((tx, rx)) ==> r.tx_mib_s == tx && r.rx_mib_s == rx && r.status@
                == "OK"@,
            outcome matches Err(e) ==> r.tx_mib_s == NAN_BITS && r.rx_mib_s == NAN_BITS
                && r.status@ == e@,
    {
        match outcome {
            Ok((tx, rx)) => GpmReading { tx_mib_s: tx, rx_mib_s: rx, status: String::from_str("OK") },
            Err(e) => GpmReading { tx_mib_s: NAN_BITS, rx_mib_s: NAN_BITS, status: e },
        }
    }
}

/// A metric that NVML computed but reported as failed.
#[derive(PartialEq, Eq, Clone, Copy, Debug, Structural)]
pub enum MetricFailure {
    /// The TX metric failed with this code.
    Tx(u32),
    /// The RX metric failed with this code.
    Rx(u32),
}

/// The rates of a metrics query whose TX and RX entries returned `tx_status`
/// and `rx_status`: the TX failure is reported first, then the RX one.
pub fn metric_values(tx_status: u32, rx_status: u32, tx: u64, rx: u64) -> (r: Result<
    (u64, u64),
    MetricFailure,
>)
    ensures
        tx_status != NVML_SUCCESS ==> r == Err::<(u64, u64), MetricFailure>(
            MetricFailure::Tx(tx_status),
        ),
        tx_status == NVML_SUCCESS && rx_status != NVML_SUCCESS ==> r == Err::<
            (u64, u64),
            MetricFailure,
        >(MetricFailure::Rx(rx_status)),
        tx_status == NVML_SUCCESS && rx_status == NVML_SUCCESS ==> r == Ok::<
            (u64, u64),
            MetricFailure,
        >((tx, rx)),
{
    if tx_status != NVML_SUCCESS {
        return Err(MetricFailure::Tx(tx_status));
    }
    if rx_status != NVML_SUCCESS {
        return Err(MetricFailure::Rx(rx_status));
    }
    Ok((tx, rx))
}

impl MetricFailure {
    /// The failing code.
    pub fn code(&self) -> (c: u32)
        ensures
            self matches MetricFailure::Tx(t) ==> c == t,
            self matches MetricFailure::Rx(x) ==> c == x,
    {
        match self {
            MetricFailure::Tx(c) => *c,
            MetricFailure::Rx(c) => *c,
        }
    }

    /// `GPM TX metric failed: <detail>` or `GPM RX metric failed: <detail>`.
    pub fn message(&self, detail: &str) -> (s: String)
        ensures
            self is Tx ==> s@ == "GPM TX metric failed: "@ + detail@,
            self is Rx ==> s@ == "GPM RX metric failed: "@ + detail@,
    {
        match self {
            MetricFailure::Tx(_) => concat2("GPM TX metric failed: ", detail),
            MetricFailure::Rx(_) => concat2("GPM RX metric failed: ", detail),
        }
    }
}

/// Why GPM could not be brought up on a GPU.
#[derive(PartialEq, Eq, Clone, Copy, Debug, Structural)]
pub enum GpmInitFailure {
    /// A query failed.
    Call(NvmlFailure),
    /// The GPU does not support GPM.
    Unsupported,
    /// Turning streaming on failed with this code.
    EnableFailed(u32),
}

/// Where bringing up GPM on a GPU stands. Each stage names the NVML call to
/// make next; `Ready` and `Failed` are final.
#[derive(PartialEq, Eq, Clone, Copy, Debug, Structural)]
pub enum GpmInitStage {
    /// Ask whether the GPU supports GPM (`nvmlGpmQueryDeviceSupport`).
    QuerySupport,
    /// Ask whether streaming is on (`nvmlGpmQueryIfStreamingEnabled`).
    QueryStreaming,
    /// Turn streaming on (`nvmlGpmSetStreamingEnabled`).
    EnableStreaming,
    Ready,
    Failed(GpmInitFailure),
}

/// The stage after the current stage's call returned `rc` and, for the
/// queries, `value` (the support flag, or the streaming state).
pub open spec fn next_stage(stage: GpmInitStage, rc: u32, value: u32) -> GpmInitStage {
    match stage {
        GpmInitStage::QuerySupport => {
            if rc != NVML_SUCCESS {
                GpmInitStage::Failed(
                    GpmInitFailure::Call(
                        NvmlFailure { call: NvmlCall::GpmQueryDeviceSupport, code: rc },
                    ),
                )
            } else if value == 0 {
                GpmInitStage::Failed(GpmInitFailure::Unsupported)
            } else {
                GpmInitStage::QueryStreaming
            }
        },
        GpmInitStage::QueryStreaming => {
            if rc != NVML_SUCCESS {
                GpmInitStage::Failed(
                    GpmInitFailure::Call(
                        NvmlFailure { call: NvmlCall::GpmQueryIfStreamingEnabled, code: rc },
                    ),
                )
            } else if value != NVML_FEATURE_ENABLED {
                GpmInitStage::EnableStreaming
            } else {
                GpmInitStage::Ready
            }
        },
        GpmInitStage::EnableStreaming => {
            if rc != NVML_SUCCESS {
                GpmInitStage::Failed(GpmInitFailure::EnableFailed(rc))
            } else {
                GpmInitStage::Ready
            }
        },
        GpmInitStage::Ready => GpmInitStage::Ready,
        GpmInitStage::Failed(f) => GpmInitStage::Failed(f),
    }
}

/// The stage reached from `stage` after the calls answered `replies` in turn
/// (each a return code and a value).
pub open spec fn run_stages(stage: GpmInitStage, replies: Seq<(u32, u32)>) -> GpmInitStage
    decreases replies.len(),
{
    if replies.len() == 0 {
        stage
    } else {
        run_stages(next_stage(stage, replies[0].0, replies[0].1), replies.drop_first())
    }
}

/// A final stage.
pub open spec fn is_final(stage: GpmInitStage) -> bool {
    stage is Ready || stage is Failed
}

impl GpmInitStage {
    /// The first stage.
    pub fn start() -> (s: GpmInitStage)
        ensures
            s == GpmInitStage::QuerySupport,
    {
        GpmInitStage::QuerySupport
    }

    /// Whether no call is left to make.
    pub fn is_done(&self) -> (b: bool)
        ensures
            b == is_final(*self),
    {
        match self {
            GpmInitStage::Ready | GpmInitStage::Failed(_) => true,
            _ => false,
        }
    }

    /// Advances after the current stage's call returned `rc` and `value`.
    pub fn step(self, rc: u32, value: u32) -> (s: GpmInitStage)
        ensures
            s == next_stage(self, rc, value),
            self == GpmInitStage::QuerySupport && rc != NVML_SUCCESS ==> s == GpmInitStage::Failed(
                GpmInitFailure::Call(NvmlFailure { call: NvmlCall::GpmQueryDeviceSupport, code: rc }),
            ),
            self == GpmInitStage::QuerySupport ==> (s == GpmInitStage::Failed(
                GpmInitFailure::Unsupported,
            ) <==> (rc == NVML_SUCCESS && value == 0)),
            self == GpmInitStage::QuerySupport && rc == NVML_SUCCESS && value != 0 ==> s
                == GpmInitStage::QueryStreaming,
            self == GpmInitStage::QueryStreaming && rc != NVML_SUCCESS ==> s
                == GpmInitStage::Failed(
                GpmInitFailure::Call(
                    NvmlFailure { call: NvmlCall::GpmQueryIfStreamingEnabled, code: rc },
                ),
            ),
            self == GpmInitStage::QueryStreaming && rc == NVML_SUCCESS && value
                == NVML_FEATURE_ENABLED ==> s == GpmInitStage::Ready,
            self == GpmInitStage::QueryStreaming && rc == NVML_SUCCESS && value
                != NVML_FEATURE_ENABLED ==> s == GpmInitStage::EnableStreaming,
            self == GpmInitStage::EnableStreaming && rc != NVML_SUCCESS ==> s
                == GpmInitStage::Failed(GpmInitFailure::EnableFailed(rc)),
            self == GpmInitStage::EnableStreaming && rc == NVML_SUCCESS ==> s
                == GpmInitStage::Ready,
            is_final(self) ==> s == self,
    {
        match self {
            GpmInitStage::QuerySupport => {
                if rc != NVML_SUCCESS {
                    GpmInitStage::Failed(
                        GpmInitFailure::Call(
                            NvmlFailure { call: NvmlCall::GpmQueryDeviceSupport, code: rc },
                        ),
                    )
                } else if value == 0 {
                    GpmInitStage::Failed(GpmInitFailure::Unsupported)
                } else {
                    GpmInitStage::QueryStreaming
                }
            },
            GpmInitStage::QueryStreaming => {
                if rc != NVML_SUCCESS {
                    GpmInitStage::Failed(
                        GpmInitFailure::Call(
                            NvmlFailure { call: NvmlCall::GpmQueryIfStreamingEnabled, code: rc },
                        ),
                    )
                } else if value != NVML_FEATURE_ENABLED {
                    GpmInitStage::EnableStreaming
                } else {
                    GpmInitStage::Ready
                }
            },
            GpmInitStage::EnableStreaming => {
                if rc != NVML_SUCCESS {
                    GpmInitStage::Failed(GpmInitFailure::EnableFailed(rc))
                } else {
                    GpmInitStage::Ready
                }
            },
            GpmInitStage::Ready => GpmInitStage::Ready,
            GpmInitStage::Failed(f) => GpmInitStage::Failed(f),
        }
    }
}

impl GpmInitFailure {
    /// The NVML return code behind the failure, when there is one.
    pub fn code(&self) -> (c: Option<u32>)
        ensures
            self matches GpmInitFailure::Call(f) ==> c == Some(f.code),
            self matches GpmInitFailure::EnableFailed(x) ==> c == Some(*x),
            self is Unsupported ==> c is None,
    {
        match self {
            GpmInitFailure::Call(f) => Some(f.code),
            GpmInitFailure::EnableFailed(x) => Some(*x),
            GpmInitFailure::Unsupported => None,
        }
    }

    /// The text reported for GPU `index`, with NVML's `detail` for the failing
    /// code.
    pub fn message(&self, index: u32, detail: &str) -> (s: String)
        ensures
            self matches GpmInitFailure::Call(f) ==> s@ == call_name(f.call) + ": "@ + detail@,
            self is Unsupported ==> s@ == "GPU "@ + decimal(index as nat)
                + " does not support NVML GPM"@,
            self is EnableFailed ==> s@ == "failed to enable GPM streaming on GPU "@ + decimal(
                index as nat,
            ) + ": "@ + detail@ + "; try `sudo nvidia-smi gpm -i "@ + decimal(index as nat)
                + " -s 1`"@,
    {
        match self {
            GpmInitFailure::Call(f) => f.message(detail),
            GpmInitFailure::Unsupported => {
                let i = u32_to_decimal(index);
                concat3("GPU ", i.as_str(), " does not support NVML GPM")
            },
            GpmInitFailure::EnableFailed(_) => {
                let i = u32_to_decimal(index);
                let mut s = concat3("failed to enable GPM streaming on GPU ", i.as_str(), ": ");
                s.append(detail);
                s.append("; try `sudo nvidia-smi gpm -i ");
                s.append(i.as_str());
                s.append(" -s 1`");
                s
            },
        }
    }
}

/// Each step of bringing up GPM, in terms of the call's return code `rc` and
/// `value`: a failed call is reported as that call's failure with its code,
/// before the value is looked at; the device counts as unsupported only when
/// the support query succeeded and reported no support; streaming already on
/// means ready, otherwise it is turned on; a failed enable is reported with
/// its code; a final stage stays as it is.
pub proof fn law_step_cases(stage: GpmInitStage, rc: u32, value: u32)
    ensures
            stage == GpmInitStage::QuerySupport && rc != NVML_SUCCESS ==> next_stage(stage, rc, value) == GpmInitStage::Failed(
                GpmInitFailure::Call(NvmlFailure { call: NvmlCall::GpmQueryDeviceSupport, code: rc }),
            ),
            stage == GpmInitStage::QuerySupport ==> (next_stage(stage, rc, value) == GpmInitStage::Failed(
                GpmInitFailure::Unsupported,
            ) <==> (rc == NVML_SUCCESS && value == 0)),
            stage == GpmInitStage::QuerySupport && rc == NVML_SUCCESS && value != 0 ==> next_stage(stage, rc, value)
                == GpmInitStage::QueryStreaming,
            stage == GpmInitStage::QueryStreaming && rc != NVML_SUCCESS ==> next_stage(stage, rc, value)
                == GpmInitStage::Failed(
                GpmInitFailure::Call(
                    NvmlFailure { call: NvmlCall::GpmQueryIfStreamingEnabled, code: rc },
                ),
            ),
            stage == GpmInitStage::QueryStreaming && rc == NVML_SUCCESS && value
                == NVML_FEATURE_ENABLED ==> next_stage(stage, rc, value) == GpmInitStage::Ready,
            stage == GpmInitStage::QueryStreaming && rc == NVML_SUCCESS && value
                != NVML_FEATURE_ENABLED ==> next_stage(stage, rc, value) == GpmInitStage::EnableStreaming,
            stage == GpmInitStage::EnableStreaming && rc != NVML_SUCCESS ==> next_stage(stage, rc, value)
                == GpmInitStage::Failed(GpmInitFailure::EnableFailed(rc)),
            stage == GpmInitStage::EnableStreaming && rc == NVML_SUCCESS ==> next_stage(stage, rc, value)
                == GpmInitStage::Ready,
            is_final(stage) ==> next_stage(stage, rc, value) == stage,
{
}

/// Once final, a stage stays as it is.
pub proof fn law_final_stage_stays(stage: GpmInitStage, rc: u32, value: u32)
    requires
        is_final(stage),
    ensures
        next_stage(stage, rc, value) == stage,
{
}

/// Bringing up GPM needs at most three calls: after any three replies the
/// stage is final.
pub proof fn law_init_at_most_three_calls(r1: (u32, u32), r2: (u32, u32), r3: (u32, u32))
    ensures
        is_final(run_stages(GpmInitStage::QuerySupport, seq![r1, r2, r3])),
{
    let s = seq![r1, r2, r3];
    assert(s.drop_first() =~= seq![r2, r3]);
    assert(seq![r2, r3].drop_first() =~= seq![r3]);
    assert(seq![r3].drop_first() =~= Seq::<(u32, u32)>::empty());
    reveal_with_fuel(run_stages, 4);
}

/// GPM is ready exactly when the support query succeeded and reported
/// support, the streaming query succeeded, and streaming was on already or
/// turning it on succeeded.
pub proof fn law_init_ready_when(r1: (u32, u32), r2: (u32, u32), r3: (u32, u32))
    ensures
        run_stages(GpmInitStage::QuerySupport, seq![r1, r2, r3]) == GpmInitStage::Ready <==> (
        r1.0 == NVML_SUCCESS && r1.1 != 0 && r2.0 == NVML_SUCCESS && (r2.1
            == NVML_FEATURE_ENABLED || r3.0 == NVML_SUCCESS)),
{
    let s = seq![r1, r2, r3];
    assert(s.drop_first() =~= seq![r2, r3]);
    assert(seq![r2, r3].drop_first() =~= seq![r3]);
    assert(seq![r3].drop_first() =~= Seq::<(u32, u32)>::empty());
    reveal_with_fuel(run_stages, 4);
}

} // verus!
