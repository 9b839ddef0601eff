use openvr_driver::bridge::{
    flag, hmd_device, rust_device_activate, rust_device_create_hmd, rust_device_deactivate,
    rust_device_enter_standby, rust_device_run_frame, rust_provider_cleanup,
    rust_provider_create, rust_provider_create_default, rust_provider_enter_standby,
    rust_provider_init, rust_provider_leave_standby, rust_provider_run_frame,
    rust_provider_should_block_standby, server_driver_host_tracked_device_added, status_code,
    succeeded, tracked_device_added_result, BridgeDevice, BridgeDriverContext, BridgeProvider,
    DriverContext, ServerTrackedDeviceProvider, SimpleTestDevice, SimpleTestProvider,
    TrackedDeviceServerDriver, STATUS_ERROR, STATUS_OK,
};
use openvr_driver::context::DeviceClass;
use openvr_driver::error::InitError;
use openvr_driver::settings::{get_bool, get_int32, get_string};

struct NoHost;

impl DriverContext for NoHost {
    fn get_generic_interface(&self, _interface_version: &str) -> Option<usize> {
        None
    }
    fn get_driver_handle(&self) -> u64 {
        0
    }
}

#[derive(Default)]
struct Recorder {
    calls: Vec<&'static str>,
    fail: bool,
    block: bool,
}

impl ServerTrackedDeviceProvider for Recorder {
    fn init(&mut self, driver_context: &dyn DriverContext) -> Result<(), InitError> {
        self.calls.push("init");
        assert_eq!(driver_context.get_driver_handle(), 0);
        if self.fail {
            Err(InitError { code: 108 })
        } else {
            Ok(())
        }
    }
    fn cleanup(&mut self) {
        self.calls.push("cleanup");
    }
    fn run_frame(&mut self) {
        self.calls.push("run_frame");
    }
    fn should_block_standby_mode(&self) -> bool {
        self.block
    }
    fn enter_standby(&mut self) {
        self.calls.push("enter_standby");
    }
    fn leave_standby(&mut self) {
        self.calls.push("leave_standby");
    }
}

impl TrackedDeviceServerDriver for Recorder {
    fn activate(&mut self, device_id: u32) -> Result<(), InitError> {
        self.calls.push("activate");
        if self.fail || device_id == 99 {
            Err(InitError::unknown())
        } else {
            Ok(())
        }
    }
    fn deactivate(&mut self) {
        self.calls.push("deactivate");
    }
    fn run_frame(&mut self) {
        self.calls.push("run_frame");
    }
    fn get_serial_number(&self) -> String {
        "REC".to_string()
    }
    fn enter_standby(&mut self) {
        self.calls.push("enter_standby");
    }
    fn get_device_class(&self) -> DeviceClass {
        DeviceClass::Controller
    }
}

#[test]
fn status_codes_and_flags() {
    assert_eq!(status_code(true), 0);
    assert_eq!(status_code(false), -1);
    assert_eq!((STATUS_OK, STATUS_ERROR), (0, -1));
    assert_eq!(flag(true), 1);
    assert_eq!(flag(false), 0);
    assert!(succeeded(&Ok(())));
    assert!(!succeeded(&Err(InitError::unknown())));
}

#[test]
fn provider_handles() {
    let mut provider = rust_provider_create(Recorder::default());
    assert_eq!(rust_provider_init(Some(&mut provider), &NoHost), 0);
    rust_provider_run_frame(Some(&mut provider));
    rust_provider_enter_standby(Some(&mut provider));
    rust_provider_leave_standby(Some(&mut provider));
    rust_provider_cleanup(Some(&mut provider));
    assert_eq!(
        provider.inner.calls,
        vec!["init", "run_frame", "enter_standby", "leave_standby", "cleanup"]
    );
    assert_eq!(rust_provider_should_block_standby(Some(&provider)), 0);
    provider.inner.block = true;
    assert_eq!(rust_provider_should_block_standby(Some(&provider)), 1);
    provider.inner.fail = true;
    assert_eq!(rust_provider_init(Some(&mut provider), &NoHost), -1);
}

#[test]
fn null_provider_handles() {
    assert_eq!(rust_provider_init::<Recorder>(None, &NoHost), -1);
    assert_eq!(rust_provider_should_block_standby::<Recorder>(None), 0);
    rust_provider_cleanup::<Recorder>(None);
    rust_provider_run_frame::<Recorder>(None);
    rust_provider_enter_standby::<Recorder>(None);
    rust_provider_leave_standby::<Recorder>(None);
}

#[test]
fn default_provider() {
    let mut provider = rust_provider_create_default();
    assert!(!provider.inner.initialized);
    assert_eq!(rust_provider_init(Some(&mut provider), &NoHost), 0);
    assert!(provider.inner.initialized);
    assert_eq!(rust_provider_should_block_standby(Some(&provider)), 0);
    rust_provider_run_frame(Some(&mut provider));
    assert!(provider.inner.initialized);
    rust_provider_cleanup(Some(&mut provider));
    assert!(!provider.inner.initialized);
    assert_eq!(SimpleTestProvider::new(), SimpleTestProvider { initialized: false });
    let mut direct = BridgeProvider::new(SimpleTestProvider::new());
    assert!(direct.init(&NoHost));
    assert!(!direct.should_block_standby_mode());
    direct.enter_standby();
    direct.leave_standby();
    direct.run_frame();
    direct.cleanup();
    assert!(!direct.inner.initialized);
}

#[test]
fn hmd_device_serials() {
    assert_eq!(rust_device_create_hmd(Some(b"TESTDEV_001")).get_serial_number(), "TESTDEV_001");
    assert_eq!(rust_device_create_hmd(None).get_serial_number(), "UNKNOWN_HMD");
    assert_eq!(rust_device_create_hmd(Some(&[0xff])).get_serial_number(), "INVALID_HMD");
    assert_eq!(rust_device_create_hmd(Some(b"")).get_serial_number(), "");
    let d = rust_device_create_hmd(Some(b"X"));
    assert_eq!(d.get_device_class(), DeviceClass::Hmd);
    assert_eq!(d.inner.device_id, None);
}

#[test]
fn device_handles() {
    let mut device = rust_device_create_hmd(Some(b"X"));
    assert_eq!(rust_device_activate(Some(&mut device), 4), 0);
    assert_eq!(device.inner.device_id, Some(4));
    rust_device_run_frame(Some(&mut device));
    rust_device_enter_standby(Some(&mut device));
    assert_eq!(device.inner.device_id, Some(4));
    rust_device_deactivate(Some(&mut device));
    assert_eq!(device.inner.device_id, None);
    assert_eq!(device.inner.serial, "X");
    assert_eq!(rust_device_activate::<SimpleTestDevice>(None, 4), -1);
    rust_device_deactivate::<SimpleTestDevice>(None);
    rust_device_run_frame::<SimpleTestDevice>(None);
    rust_device_enter_standby::<SimpleTestDevice>(None);

    let mut other = BridgeDevice::new(Recorder::default());
    assert_eq!(rust_device_activate(Some(&mut other), 99), -1);
    assert_eq!(rust_device_activate(Some(&mut other), 1), 0);
    assert!(other.activate(2));
    other.deactivate();
    other.run_frame();
    other.enter_standby();
    assert_eq!(other.get_serial_number(), "REC");
    assert_eq!(other.get_device_class(), DeviceClass::Controller);
    assert_eq!(
        other.inner.calls,
        vec!["activate", "activate", "activate", "deactivate", "run_frame", "enter_standby"]
    );
}

#[test]
fn bridge_context_requests() {
    let c = BridgeDriverContext::new(0x40);
    assert_eq!(c.interface_request("IVRProperties_001"), Some(b"IVRProperties_001\0".to_vec()));
    assert_eq!(c.interface_request("a\0b"), None);
    assert!(c.can_ask_driver_handle());
    let null = BridgeDriverContext::new(0);
    assert_eq!(null.interface_request("IVRProperties_001"), None);
    assert!(!null.can_ask_driver_handle());
    assert_eq!(BridgeDriverContext::interface_reply(0, 0x10), Some(0x10));
    assert_eq!(BridgeDriverContext::interface_reply(0, 0), None);
    assert_eq!(BridgeDriverContext::interface_reply(1, 0x10), None);
    assert_eq!(BridgeDriverContext::interface_reply(-1, 0), None);
}

fn host_accepts_everything(
    host: usize,
    serial: Option<&[u8]>,
    class: i32,
    device: usize,
) -> bool {
    let request = server_driver_host_tracked_device_added(host, serial, class, device);
    tracked_device_added_result(&request, true)
}

#[test]
fn device_registration_with_valid_and_null_device_pointer() {
    assert!(host_accepts_everything(0x10, Some(b"TESTDEV_001"), 1, 0x20));
    assert!(!host_accepts_everything(0x10, Some(b"TESTDEV_001"), 1, 0));
    assert!(!host_accepts_everything(0, Some(b"TESTDEV_001"), 1, 0x20));
    assert!(!host_accepts_everything(0x10, None, 1, 0x20));
    assert!(!host_accepts_everything(0x10, Some(b"TEST\0DEV"), 1, 0x20));
    let request = server_driver_host_tracked_device_added(0x10, Some(b"TESTDEV_001"), 1, 0x20);
    assert!(!tracked_device_added_result(&request, false));
    let r = request.unwrap();
    assert_eq!((r.host, r.device_class, r.device), (0x10, 1, 0x20));
    assert_eq!(r.serial, b"TESTDEV_001\0".to_vec());
}

#[test]
fn settings_answer_with_the_default() {
    assert_eq!(get_string("driver", "serial", "SN"), "SN");
    assert_eq!(get_string("", "", ""), "");
    assert_eq!(get_int32("driver", "width", -7), -7);
    assert!(get_bool("driver", "enable", true));
    assert!(!get_bool("driver", "enable", false));
}

#[test]
fn boxed_providers_and_devices_work_behind_handles() {
    let boxed: Box<dyn ServerTrackedDeviceProvider> = Box::new(Recorder::default());
    let mut provider = rust_provider_create(boxed);
    assert_eq!(rust_provider_init(Some(&mut provider), &NoHost), 0);
    assert_eq!(rust_provider_should_block_standby(Some(&provider)), 0);
    rust_provider_cleanup(Some(&mut provider));
    let device: Box<dyn TrackedDeviceServerDriver> = Box::new(hmd_device(Some(b"BOXED")));
    let mut handle = BridgeDevice::new(device);
    assert_eq!(rust_device_activate(Some(&mut handle), 2), 0);
    assert_eq!(handle.get_serial_number(), "BOXED");
    assert_eq!(handle.get_device_class(), DeviceClass::Hmd);
    rust_device_deactivate(Some(&mut handle));
    let plain = hmd_device(None);
    assert_eq!(plain.serial, "UNKNOWN_HMD");
    assert_eq!(plain.device_id, None);
}
