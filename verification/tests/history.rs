use gpm_pcie_dashboard::gpm::{GpmReading, GpuMeta};
use gpm_pcie_dashboard::history::{gpu_default_name, GpuHistory, SamplePoint, NAN_BITS};
use gpm_pcie_dashboard::sampler::{
    error_histories, initial_histories, record_readings, select_gpu_indices, SamplerFailure,
};

fn b(x: f64) -> u64 {
    x.to_bits()
}

fn samples(h: &GpuHistory) -> Vec<SamplePoint> {
    h.history.iter().copied().collect()
}

fn reading(tx: f64, rx: f64, status: &str) -> GpmReading {
    GpmReading { tx_mib_s: b(tx), rx_mib_s: b(rx), status: status.to_string() }
}

#[test]
fn nan_bits_is_nan() {
    assert!(f64::from_bits(NAN_BITS).is_nan());
    assert_eq!(NAN_BITS, f64::NAN.to_bits());
}

#[test]
fn new_history_is_initializing() {
    let h = GpuHistory::new(3, "H100".to_string(), "0000:01:00.0".to_string());
    assert_eq!(h.index, 3);
    assert_eq!(h.name, "H100");
    assert_eq!(h.pci_bus_id, "0000:01:00.0");
    assert_eq!(f64::from_bits(h.tx_mib_s), 0.0);
    assert_eq!(f64::from_bits(h.rx_mib_s), 0.0);
    assert_eq!(h.status, "initializing");
    assert!(h.history.is_empty());
}

#[test]
fn push_records_latest_reading() {
    let mut h = GpuHistory::new(0, "g".to_string(), "p".to_string());
    h.push(b(0.2), b(1.5), b(2048.0), 4, "OK".to_string());
    assert_eq!(f64::from_bits(h.tx_mib_s), 1.5);
    assert_eq!(f64::from_bits(h.rx_mib_s), 2048.0);
    assert_eq!(h.status, "OK");
    assert_eq!(samples(&h), vec![SamplePoint { t: b(0.2), tx_mib_s: b(1.5), rx_mib_s: b(2048.0) }]);
}

#[test]
fn push_keeps_last_cap_samples() {
    let mut h = GpuHistory::new(0, "g".to_string(), "p".to_string());
    for i in 0..5u64 {
        h.push(i, 10 + i, 20 + i, 3, "OK".to_string());
        assert!(h.history.len() <= 3);
    }
    let ts: Vec<u64> = samples(&h).iter().map(|p| p.t).collect();
    assert_eq!(ts, vec![2, 3, 4]);
    assert_eq!(h.tx_mib_s, 14);
    assert_eq!(h.rx_mib_s, 24);
}

#[test]
fn push_with_zero_capacity_keeps_one() {
    let mut h = GpuHistory::new(0, "g".to_string(), "p".to_string());
    h.push(1, 1, 1, 0, "OK".to_string());
    h.push(2, 2, 2, 0, "OK".to_string());
    let ts: Vec<u64> = samples(&h).iter().map(|p| p.t).collect();
    assert_eq!(ts, vec![2]);
}

#[test]
fn push_after_capacity_shrinks_drops_one() {
    let mut h = GpuHistory::new(0, "g".to_string(), "p".to_string());
    for i in 0..4u64 {
        h.push(i, 0, 0, 10, "OK".to_string());
    }
    h.push(9, 0, 0, 2, "OK".to_string());
    let ts: Vec<u64> = samples(&h).iter().map(|p| p.t).collect();
    assert_eq!(ts, vec![1, 2, 3, 9]);
}

#[test]
fn init_failure_entry() {
    let h = GpuHistory::init_failure(7, "boom");
    assert_eq!(h.index, 7);
    assert_eq!(h.name, "GPU7");
    assert_eq!(h.pci_bus_id, "unknown");
    assert!(f64::from_bits(h.tx_mib_s).is_nan());
    assert!(f64::from_bits(h.rx_mib_s).is_nan());
    assert_eq!(h.status, "init failed: boom");
    assert!(h.history.is_empty());
}

#[test]
fn nvml_error_entry() {
    let v = error_histories("NVML init failed: no driver".to_string());
    assert_eq!(v.len(), 1);
    assert_eq!(v[0].index, 0);
    assert_eq!(v[0].name, "NVML");
    assert_eq!(v[0].pci_bus_id, "-");
    assert!(f64::from_bits(v[0].tx_mib_s).is_nan());
    assert_eq!(v[0].status, "NVML init failed: no driver");
}

#[test]
fn default_names() {
    assert_eq!(gpu_default_name(0), "GPU0");
    assert_eq!(gpu_default_name(12), "GPU12");
    assert_eq!(gpu_default_name(u32::MAX), "GPU4294967295");
}

#[test]
fn select_all_when_none_given() {
    assert_eq!(select_gpu_indices(vec![], 4), vec![0, 1, 2, 3]);
    assert_eq!(select_gpu_indices(vec![], 0), Vec::<u32>::new());
}

#[test]
fn select_given_indices() {
    assert_eq!(select_gpu_indices(vec![3, 1], 8), vec![3, 1]);
    assert_eq!(select_gpu_indices(vec![9], 2), vec![9]);
}

#[test]
fn initial_list_puts_opened_first() {
    let opened = vec![
        GpuMeta { index: 0, name: "A".to_string(), pci_bus_id: "a".to_string() },
        GpuMeta { index: 2, name: "C".to_string(), pci_bus_id: "c".to_string() },
    ];
    let failures = vec![GpuHistory::init_failure(1, "x")];
    let v = initial_histories(&opened, failures);
    assert_eq!(v.len(), 3);
    assert_eq!((v[0].index, v[0].name.as_str(), v[0].status.as_str()), (0, "A", "initializing"));
    assert_eq!((v[1].index, v[1].pci_bus_id.as_str()), (2, "c"));
    assert_eq!((v[2].index, v[2].name.as_str(), v[2].status.as_str()), (1, "GPU1", "init failed: x"));
}

#[test]
fn record_readings_updates_matching_entries() {
    let opened = vec![
        GpuMeta { index: 0, name: "A".to_string(), pci_bus_id: "a".to_string() },
        GpuMeta { index: 1, name: "B".to_string(), pci_bus_id: "b".to_string() },
    ];
    let mut v = initial_histories(&opened, vec![GpuHistory::init_failure(5, "e")]);
    let readings = vec![reading(1.0, 2.0, "OK"), reading(f64::NAN, f64::NAN, "bad")];
    record_readings(&mut v, b(0.5), &readings, 600);
    assert_eq!(f64::from_bits(v[0].tx_mib_s), 1.0);
    assert_eq!(v[0].status, "OK");
    assert_eq!(samples(&v[0]).len(), 1);
    assert_eq!(v[1].status, "bad");
    assert!(f64::from_bits(v[1].rx_mib_s).is_nan());
    assert_eq!(v[2].status, "init failed: e");
    assert!(v[2].history.is_empty());
}

#[test]
fn record_readings_drops_extra_readings() {
    let mut v = vec![GpuHistory::new(0, "A".to_string(), "a".to_string())];
    let readings = vec![reading(1.0, 1.0, "OK"), reading(2.0, 2.0, "OK")];
    record_readings(&mut v, 1, &readings, 3);
    assert_eq!(v.len(), 1);
    assert_eq!(f64::from_bits(v[0].tx_mib_s), 1.0);
    let mut empty: Vec<GpuHistory> = vec![];
    record_readings(&mut empty, 1, &readings, 3);
    assert!(empty.is_empty());
}

#[test]
fn sampler_failure_statuses() {
    assert_eq!(SamplerFailure::Init.status("x"), "NVML init failed: x");
    assert_eq!(SamplerFailure::DeviceCount.status("y"), "NVML device count failed: y");
}
