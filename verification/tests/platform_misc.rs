use nxdk_rs::hal::video::AvPack;
use nxdk_rs::hal::video::RefreshRate;
use nxdk_rs::hal::video::get_av_pack;
use nxdk_rs::kernel::time::Timer;
use nxdk_rs::kernel::time::WINDOWS_EPOCH;
use nxdk_rs::kernel::time::get_unix_timestamp;
use nxdk_rs::kernel::time::windows_to_unix_timestamp;
use nxdk_rs::nxdk::error::NxNetError;
use nxdk_rs::nxdk::mount::terminate_at_last_separator;
use nxdk_rs::nxdk::net::NetParametersBuilder;
use nxdk_rs::nxdk::net::NetworkConfigurationMode;
use nxdk_rs::utils::error::PlatformError;
use nxdk_rs::utils::path_str_to_cstr;

#[test]
fn timer_measures_elapsed_microseconds() {
    // The clock counts 100-nanosecond ticks; 10 ticks make one
    // microsecond.
    let t = Timer::new(1_000_000);
    assert_eq!(t.elapsed(1_000_000), 0);
    assert_eq!(t.elapsed(1_000_250), 25);
}

#[test]
fn timestamps_convert_to_unix_seconds() {
    assert_eq!(windows_to_unix_timestamp(&WINDOWS_EPOCH), 0);
    assert_eq!(windows_to_unix_timestamp(&(WINDOWS_EPOCH + 10_000_000)), 1);
    assert_eq!(get_unix_timestamp(WINDOWS_EPOCH + 25_000_000), 2);
}

#[test]
fn path_to_cstr_copies_and_terminates() {
    let buf = path_str_to_cstr("c:\\game\\default.xbe").unwrap();
    assert_eq!(buf.len(), 260);
    assert_eq!(&buf[..19], b"c:\\game\\default.xbe");
    assert_eq!(buf[19], 0);
    assert!(buf[20..].iter().all(|&b| b == 0));
}

#[test]
fn path_to_cstr_rejects_overlong_paths() {
    let long = "x".repeat(260);
    assert_eq!(path_str_to_cstr(&long), Err(PlatformError::PathTooLong));

    let just_fits = "y".repeat(259);
    let buf = path_str_to_cstr(&just_fits).unwrap();
    assert_eq!(buf[258], b'y');
    assert_eq!(buf[259], 0);
}

#[test]
fn separator_truncation_keeps_the_directory() {
    let mut buf = path_str_to_cstr("d:\\apps\\demo.xbe").unwrap();
    terminate_at_last_separator(&mut buf);
    assert_eq!(&buf[..7], b"d:\\apps");
    assert_eq!(buf[7], 0);
}

#[test]
fn separator_truncation_without_separator_changes_nothing() {
    let mut buf = path_str_to_cstr("plainname").unwrap();
    let before = buf.clone();
    terminate_at_last_separator(&mut buf);
    assert_eq!(buf, before);
}

#[test]
fn av_pack_codes_map_to_packs() {
    assert_eq!(AvPack::from_code(1), AvPack::Standard);
    assert_eq!(AvPack::from_code(2), AvPack::Rfu);
    assert_eq!(AvPack::from_code(3), AvPack::Scart);
    assert_eq!(AvPack::from_code(4), AvPack::Hdtv);
    assert_eq!(AvPack::from_code(5), AvPack::Vga);
    assert_eq!(AvPack::from_code(6), AvPack::SVideo);
    assert_eq!(AvPack::from_code(0), AvPack::NoPack);
    assert_eq!(AvPack::from_code(250), AvPack::NoPack);

    // Only the adapter part of the settings word matters.
    assert_eq!(get_av_pack(0xFFFF_FF04), AvPack::Hdtv);
    assert_eq!(RefreshRate::Hz50.native_code(), 50);
    assert_eq!(RefreshRate::default(), RefreshRate::DefaultRate);
}

#[test]
fn net_error_codes_map_to_errors() {
    assert_eq!(NxNetError::from_code(-1), NxNetError::InitError);
    assert_eq!(NxNetError::from_code(-2), NxNetError::DhcpError);
    assert_eq!(NxNetError::from_code(-3), NxNetError::UnknownError);
    assert_eq!(NxNetError::from_code(7), NxNetError::UnknownError);
}

#[test]
fn net_parameters_pack_addresses_in_native_order() {
    let params = NetParametersBuilder::new()
        .ipv4_mode(NetworkConfigurationMode::Static)
        .ipv4_ip((192, 168, 0, 17))
        .ipv4_gateway((192, 168, 0, 1))
        .ipv4_netmask((255, 255, 255, 0))
        .ipv4_dns1((8, 8, 8, 8))
        .ipv4_dns2((8, 8, 4, 4))
        .build();

    assert_eq!(params.ipv4_mode, 2);
    assert_eq!(params.ipv6_mode, 0);
    assert_eq!(params.ipv4_ip, 0x1100A8C0);
    assert_eq!(params.ipv4_gateway, 0x0100A8C0);
    assert_eq!(params.ipv4_netmask, 0x00FFFFFF);
    assert_eq!(params.ipv4_dns1, 0x08080808);
    assert_eq!(params.ipv4_dns2, 0x04040808);
}

#[test]
fn builder_defaults_are_automatic_and_zeroed() {
    let params = NetParametersBuilder::new().build();
    assert_eq!(params.ipv4_mode, 0);
    assert_eq!(params.ipv6_mode, 0);
    assert_eq!(params.ipv4_ip, 0);
    assert_eq!(params.ipv4_dns2, 0);
}
