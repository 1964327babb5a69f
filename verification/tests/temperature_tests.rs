use darwin_metrics::error::Error;
use darwin_metrics::hardware::iokit::IOKit;
use darwin_metrics::hardware::system::System;
use darwin_metrics::temperature::factory::TemperatureMonitorFactory;
use darwin_metrics::temperature::monitors::{
    create_monitor, fan_speed_at, monitor_type_for, FanMonitor, FanSpeed,
};
use darwin_metrics::temperature::types::{Fan, MonitorType};
use darwin_metrics::temperature::{create_fan, Temperature, TemperatureFactory};
use darwin_metrics::traits::HardwareMonitor;
use std::sync::Arc;

struct FakeIOKit {
    fans: Vec<(u32, u32, u32)>,
    fail: bool,
}

impl IOKit for FakeIOKit {
    fn get_all_fans(&self) -> Result<Vec<Fan>, Error> {
        if self.fail {
            return Err(Error::service_not_found("AppleSMC"));
        }
        Ok(self
            .fans
            .iter()
            .enumerate()
            .map(|(i, &(speed, min, max))| create_fan(format!("Fan {}", i), speed, min, max))
            .collect())
    }
}

fn io_kit(fans: Vec<(u32, u32, u32)>, fail: bool) -> Arc<Box<dyn IOKit>> {
    Arc::new(Box::new(FakeIOKit { fans, fail }))
}

#[test]
fn monitor_type_names() {
    assert_eq!(MonitorType::Cpu.to_string(), "CPU");
    assert_eq!(MonitorType::Gpu.to_string(), "GPU");
    assert_eq!(MonitorType::Ambient.to_string(), "Ambient");
    assert_eq!(MonitorType::Battery.to_string(), "Battery");
    assert_eq!(MonitorType::Ssd.to_string(), "SSD");
    assert_eq!(MonitorType::Fan(12).to_string(), "Fan 12");
}

#[test]
fn fan_monitor_reads_its_fan() {
    let kit = io_kit(vec![(1200, 1000, 6000), (2400, 1200, 5000)], false);
    let second = FanMonitor::new(kit.clone(), 1);
    assert_eq!(second.index(), 1);
    assert_eq!(second.speed_rpm().unwrap(), 2400);
    assert_eq!(second.min_speed().unwrap(), 1200);
    assert_eq!(second.max_speed().unwrap(), 5000);
    assert_eq!(second.fan_name().unwrap(), "Fan 1");

    let missing = FanMonitor::new(kit, 2);
    match missing.speed_rpm() {
        Err(Error::NotAvailable { resource, reason }) => {
            assert_eq!(resource, "Fan 2");
            assert_eq!(reason, "Not found");
        },
        _ => panic!("a missing fan gave a speed"),
    }
}

#[test]
fn fan_monitor_passes_hardware_errors_on() {
    let failing = FanMonitor::new(io_kit(vec![], true), 0);
    assert!(matches!(failing.max_speed(), Err(Error::ServiceNotFound { .. })));
}

#[test]
fn fan_speeds_by_index() {
    let fans = vec![create_fan("a".to_string(), 1, 2, 3)];
    assert_eq!(fan_speed_at(&fans, 0, FanSpeed::Current).unwrap(), 1);
    assert_eq!(fan_speed_at(&fans, 0, FanSpeed::Minimum).unwrap(), 2);
    assert_eq!(fan_speed_at(&fans, 0, FanSpeed::Maximum).unwrap(), 3);
    assert!(fan_speed_at(&fans, 1, FanSpeed::Current).is_err());
    let f = Fan::default();
    assert_eq!((f.name.as_str(), f.speed_rpm, f.target_speed), ("", 0, 0));
    assert_eq!(fans[0].target_speed, 0);
}

#[test]
fn monitor_names_select_kinds_without_regard_to_case() {
    assert_eq!(monitor_type_for("cpu"), Some(MonitorType::Cpu));
    assert_eq!(monitor_type_for("GPU"), Some(MonitorType::Gpu));
    assert_eq!(monitor_type_for("Ambient"), Some(MonitorType::Ambient));
    assert_eq!(monitor_type_for("BATTERY"), Some(MonitorType::Battery));
    assert_eq!(monitor_type_for("sSd"), Some(MonitorType::Ssd));
    assert_eq!(monitor_type_for("disk"), None);
    assert_eq!(monitor_type_for("CPU Temperature Monitor"), None);
    let m = create_monitor("Battery", io_kit(vec![], false)).unwrap();
    assert_eq!(m.monitor_type(), MonitorType::Battery);
    assert_eq!(m.name().unwrap(), "Battery Temperature Monitor");
    assert_eq!(m.hardware_type().unwrap(), "Battery");
    assert_eq!(m.device_id().unwrap(), "battery0");
    assert!(create_monitor("fan", io_kit(vec![], false)).is_none());
}

#[test]
fn factory_creates_by_exact_name() {
    let factory = TemperatureMonitorFactory::new(io_kit(vec![], false));
    assert_eq!(factory.create("ssd").unwrap().monitor_type(), MonitorType::Ssd);
    match factory.create("SSD") {
        Err(Error::InvalidMonitorType(name)) => assert_eq!(name, "SSD"),
        _ => panic!("a name in upper case was accepted"),
    }
    let all = factory.create_all();
    let kinds: Vec<MonitorType> = all.iter().map(|m| m.monitor_type()).collect();
    assert_eq!(
        kinds,
        vec![MonitorType::Cpu, MonitorType::Gpu, MonitorType::Ambient, MonitorType::Battery, MonitorType::Ssd]
    );
}

#[test]
fn temperature_entry_points() {
    let kit = io_kit(vec![(900, 800, 4000)], false);
    let t = TemperatureFactory::with_iokit(kit.clone());
    assert_eq!(t.fan_monitor().index(), 0);
    assert_eq!(t.fan_monitor().speed_rpm().unwrap(), 900);
    assert_eq!(t.cpu_monitor().name().unwrap(), "CPU Temperature Monitor");
    assert_eq!(t.gpu_monitor().device_id().unwrap(), "gpu0");
    assert_eq!(t.ambient_monitor().hardware_type().unwrap(), "Ambient");
    assert_eq!(t.ssd_monitor().name().unwrap(), "SSD Temperature Monitor");
    assert_eq!(t.battery_monitor().device_id().unwrap(), "battery0");
    assert_eq!(t.create_monitor("cpu").unwrap().monitor_type(), MonitorType::Cpu);
    match t.create_monitor("disk") {
        Err(Error::NotAvailable { resource, reason }) => {
            assert_eq!(resource, "Temperature monitor 'disk'");
            assert_eq!(reason, "Monitor type not available");
        },
        _ => panic!("an unknown monitor was created"),
    }
    let kinds: Vec<MonitorType> = t.get_all_monitors().unwrap().iter().map(|m| m.monitor_type()).collect();
    assert_eq!(
        kinds,
        vec![MonitorType::Cpu, MonitorType::Gpu, MonitorType::Ambient, MonitorType::Battery, MonitorType::Ssd]
    );

    let system = System::new(kit);
    let t2 = Temperature::new_with_system(&system).unwrap();
    assert_eq!(t2.fan_monitor().max_speed().unwrap(), 4000);
    assert_eq!(t2.get_all_monitors().unwrap().len(), 5);
    assert!(TemperatureFactory::new_with_system(&system).is_ok());
}
