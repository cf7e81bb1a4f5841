# gpm_pcie_dashboard

A terminal dashboard for per-GPU PCIe TX/RX traffic, read from the NVIDIA NVML
GPM metrics 20 (`PCIE_TX_PER_SEC`) and 21 (`PCIE_RX_PER_SEC`).

- `src/` is the verified library (Verus): command-line settings, the view and
  scroll state and key handling, the bounded per-GPU sample history, the
  sampler's bookkeeping, the NVML return-code decisions and the GPM bring-up
  state machine, and the chart layout.
- `app/` is the program around it: argument parsing, the terminal, drawing,
  the sampling thread, and the calls into `libnvidia-ml.so.1`.
- `tests/` exercises the library on concrete values.

Rates and sample times are `f64` in the program; the library carries them as
their bit patterns and never computes with them.
