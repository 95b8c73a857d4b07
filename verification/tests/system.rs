use sensor_panel::backend::SensorReading;
use sensor_panel::error::SysError;
use sensor_panel::fs::File;
use sensor_panel::gt911::{bus_status, irq_enable_message, registration_status, set_power_message};
use sensor_panel::heap::memalign_args;
use sensor_panel::panel::{idle_delay, FramebufferLayout};
use sensor_panel::time::{Clock, TimeSpan};

#[test]
fn open_result_follows_descriptor() {
    assert_eq!(File::from_descriptor(-1).err(), Some(SysError::OpenFailed));
    let f = File::from_descriptor(7).ok().unwrap();
    assert_eq!(f.fd(), 7);
    assert_eq!(File::from_descriptor(0).ok().unwrap().fd(), 0);
}

#[test]
fn file_status_checks() {
    assert_eq!(File::close_status(-9), Err(SysError::CloseFailed(-9)));
    assert_eq!(File::close_status(0), Ok(()));
    assert_eq!(File::ioctl_status(-22), Err(SysError::IoctlFailed(-22)));
    assert_eq!(File::ioctl_status(3), Ok(()));
    assert_eq!(File::read_status(-4), Err(SysError::ReadFailed(-4)));
    assert_eq!(File::read_status(16), Ok(()));
}

#[test]
fn clock_keeps_its_id() {
    assert_eq!(Clock::new(1).id(), 1);
    assert_eq!(Clock::new(-3).id(), -3);
}

#[test]
fn clock_reading() {
    assert_eq!(Clock::reading(-1, 5, 6), Err(SysError::ClockGetFailed));
    assert_eq!(Clock::reading(0, 2, 500), Ok(TimeSpan { nanos: 2_000_000_500 }));
    // A nanosecond field of a second or more carries into the seconds.
    assert_eq!(Clock::reading(0, 1, 1_500_000_000), Ok(TimeSpan { nanos: 2_500_000_000 }));
    // A negative nanosecond field is taken as unsigned.
    assert_eq!(Clock::reading(0, 0, -1), Ok(TimeSpan { nanos: u32::MAX as u128 }));
    assert_eq!(Clock::set_status(-1), Err(SysError::ClockSetFailed));
    assert_eq!(Clock::set_status(0), Ok(()));
}

#[test]
fn timespec_round_trip() {
    let t = TimeSpan::new(1_700_000_000, 123_456_789);
    let (s, n) = t.to_timespec();
    assert_eq!((s, n), (1_700_000_000, 123_456_789));
    assert_eq!(Clock::reading(0, s, n), Ok(t));
}

#[test]
fn timespec_cuts_seconds_to_32_bits() {
    let t = TimeSpan::new(u32::MAX as u64 + 3, 9);
    assert_eq!(t.to_timespec(), (2, 9));
}

#[test]
fn time_span_arithmetic() {
    let a = TimeSpan::new(3, 250);
    let b = TimeSpan::from_millis(1500);
    assert_eq!(a.since(&b).nanos, 1_500_000_250);
    assert_eq!(a.whole_secs(), 3);
    assert_eq!(a.subsec_nanos(), 250);
    assert!(a.longer_than(&b));
    assert!(!b.longer_than(&b));
}

#[test]
fn sensor_reading_is_little_endian() {
    let frame: [u8; 12] = [1, 0, 0, 0, 0x34, 0x12, 0, 0, 0xff, 0xff, 0xff, 0xff];
    let r = SensorReading::from_frame(&frame);
    assert_eq!(r, SensorReading { people: 1, humidity: 0x1234, temperature: u32::MAX });
    assert_eq!(r.ui_values(), (1, 0x1234, -1));
}

#[test]
fn sensor_reading_keeps_frame() {
    let frame: [u8; 12] = [9, 8, 7, 6, 5, 4, 3, 2, 1, 0, 0xaa, 0x55];
    let r = SensorReading::from_frame(&frame);
    let mut back = Vec::new();
    back.extend_from_slice(&r.people.to_le_bytes());
    back.extend_from_slice(&r.humidity.to_le_bytes());
    back.extend_from_slice(&r.temperature.to_le_bytes());
    assert_eq!(back, frame.to_vec());
}

#[test]
fn framebuffer_layout() {
    let l = FramebufferLayout::from_plane(480 * 272 * 2 + 1, 961);
    assert_eq!(l, FramebufferLayout { len: 480 * 272, stride: 480 });
}

#[test]
fn line_spans() {
    let l = FramebufferLayout { len: 100, stride: 10 };
    assert_eq!(l.line_span(0, 0, 10), Some((0, 10)));
    assert_eq!(l.line_span(3, 2, 5), Some((32, 35)));
    assert_eq!(l.line_span(9, 0, 10), Some((90, 100)));
    assert_eq!(l.line_span(10, 0, 0), Some((100, 100)));
    assert_eq!(l.line_span(9, 0, 11), None);
    assert_eq!(l.line_span(11, 0, 0), None);
    assert_eq!(l.line_span(2, 5, 4), None);
    assert_eq!(l.line_span(usize::MAX, 0, 0), None);
}

#[test]
fn idle_delay_per_frame() {
    assert_eq!(idle_delay(true), None);
    assert_eq!(idle_delay(false), Some(25));
}

#[test]
fn gt911_registration() {
    assert_eq!(bus_status(true), Err(SysError::I2cUnavailable));
    assert_eq!(bus_status(false), Ok(()));
    assert_eq!(registration_status(-5), Err(SysError::Gt911RegisterFailed));
    assert_eq!(registration_status(0), Ok(()));
}

#[test]
fn gt911_messages() {
    assert_eq!(irq_enable_message(true), "GT911 Enable!\n");
    assert_eq!(irq_enable_message(false), "GT911 Disable!\n");
    assert_eq!(set_power_message(true), "GT911 On!\n");
    assert_eq!(set_power_message(false), "GT911 Off!\n");
}

#[test]
fn memalign_raises_alignment() {
    let word = std::mem::size_of::<usize>();
    assert_eq!(memalign_args(1, 10), (word as u32, 10));
    assert_eq!(memalign_args(64, 4096), (64, 4096));
    assert_eq!(memalign_args(word, 0), (word as u32, 0));
}
