use gpm_pcie_dashboard::layout::{chart_title, footer_settings, chart_window, status_is_ok, table_scrollbar_visible, ChartWindow, CHART_HEIGHT};
use gpm_pcie_dashboard::text::{concat2, concat3, str_eq, u32_to_decimal, u64_to_decimal};

#[test]
fn decimal_rendering() {
    for n in [0u32, 7, 10, 99, 100, 4096, 1234567890, u32::MAX] {
        assert_eq!(u32_to_decimal(n), n.to_string());
    }
}

#[test]
fn string_equality() {
    assert!(str_eq("", ""));
    assert!(str_eq("héllo", "héllo"));
    assert!(!str_eq("hello", "hellO"));
    assert!(!str_eq("hell", "hello"));
}

#[test]
fn concatenation() {
    assert_eq!(concat2("ab", "cd"), "abcd");
    assert_eq!(concat3("a", "", "c"), "ac");
}

#[test]
fn chart_window_fits_charts() {
    assert_eq!(CHART_HEIGHT, 12);
    assert_eq!(chart_window(40, 0, 10), ChartWindow { items_per_screen: 3, start: 0, end: 3, show_scrollbar: true });
    assert_eq!(chart_window(40, 8, 10), ChartWindow { items_per_screen: 3, start: 8, end: 10, show_scrollbar: true });
    assert_eq!(chart_window(40, 50, 10), ChartWindow { items_per_screen: 3, start: 9, end: 10, show_scrollbar: true });
    assert_eq!(chart_window(5, 0, 1), ChartWindow { items_per_screen: 1, start: 0, end: 1, show_scrollbar: false });
    assert_eq!(chart_window(120, 0, 4), ChartWindow { items_per_screen: 10, start: 0, end: 4, show_scrollbar: false });
    assert_eq!(chart_window(24, 3, 0), ChartWindow { items_per_screen: 2, start: 0, end: 0, show_scrollbar: false });
}

#[test]
fn table_scrollbar() {
    assert!(!table_scrollbar_visible(0));
    assert!(!table_scrollbar_visible(1));
    assert!(table_scrollbar_visible(2));
}

#[test]
fn ok_status() {
    assert!(status_is_ok("OK"));
    assert!(!status_is_ok("ok"));
    assert!(!status_is_ok("initializing"));
}

#[test]
fn chart_titles() {
    assert_eq!(
        chart_title(1, "NVIDIA B200", "00000000:1B:00.0", "OK"),
        "v0.3 Chart - GPU1 NVIDIA B200 | 00000000:1B:00.0 | status=OK"
    );
}

#[test]
fn decimal_rendering_wide() {
    for n in [0u64, 9, 10, 600, 1_000_000_007, u64::MAX] {
        assert_eq!(u64_to_decimal(n), n.to_string());
    }
}

#[test]
fn footer_settings_text() {
    assert_eq!(footer_settings(200, 600, 0), " | interval=200ms | history=600pts | uptime=0s");
    assert_eq!(footer_settings(1000, 5, 3725), " | interval=1000ms | history=5pts | uptime=3725s");
}

#[test]
fn chart_window_always_inside_list() {
    for height in [0u16, 11, 12, 13, 40, 200] {
        for len in 0usize..8 {
            for scroll in 0usize..10 {
                let w = chart_window(height, scroll, len);
                assert!(w.items_per_screen >= 1);
                assert!(w.start <= w.end && w.end <= len);
                assert!(w.end - w.start <= w.items_per_screen);
                if len > 0 {
                    assert!(w.start < w.end);
                }
            }
        }
    }
}
