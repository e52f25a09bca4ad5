use relay_controller::connectivity::ConnectivityInfo;
use relay_controller::control::{after_render, DisplayFault, LoopStep, REFRESH_INTERVAL_MS};

#[test]
fn refresh_interval_is_one_second() {
    assert_eq!(REFRESH_INTERVAL_MS, 1000);
}

#[test]
fn good_redraw_waits_for_the_refresh_interval() {
    assert_eq!(after_render(Ok(())), LoopStep::Wait { millis: 1000 });
}

#[test]
fn failed_redraw_stops_the_loop() {
    assert_eq!(after_render(Err(DisplayFault)), LoopStep::Stop(DisplayFault));
}

#[test]
fn connectivity_info_keeps_the_address() {
    let info = ConnectivityInfo::new("192.168.4.1".to_string());
    assert_eq!(info.network_address(), "192.168.4.1");
    assert_eq!(info.network_address(), "192.168.4.1");
}
