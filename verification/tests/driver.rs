use mma7660fc::FixedTransport;
use mma7660fc::ScriptedTransport;
use mma7660fc::I8x3;
use mma7660fc::Mma7660fc;
use mma7660fc::Mode;
use mma7660fc::Register;
use mma7660fc::Transport;
use mma7660fc::ADDRESS;

/// The error a scripted bus fails with.
#[derive(Clone, Copy, Debug, PartialEq, Eq)]
struct BusError;

/// A bus double that records every transaction, answers reads from a fixed
/// script of bytes, and can be told to start failing writes at a given point.
struct ScriptedBus {
    writes: Vec<(u8, Vec<u8>)>,
    round_trips: Vec<(u8, Vec<u8>, usize)>,
    response: Vec<u8>,
    fail_writes_from: Option<usize>,
}

impl ScriptedBus {
    fn answering(response: Vec<u8>) -> ScriptedBus {
        ScriptedBus { writes: Vec::new(), round_trips: Vec::new(), response, fail_writes_from: None }
    }

    fn failing_from_write(n: usize) -> ScriptedBus {
        ScriptedBus {
            writes: Vec::new(),
            round_trips: Vec::new(),
            response: Vec::new(),
            fail_writes_from: Some(n),
        }
    }
}

impl Transport for ScriptedBus {
    type Error = BusError;

    fn write(&mut self, addr: u8, data: &[u8]) -> Result<(), BusError> {
        if let Some(n) = self.fail_writes_from {
            if self.writes.len() >= n {
                return Err(BusError);
            }
        }
        self.writes.push((addr, data.to_vec()));
        Ok(())
    }

    fn write_read(&mut self, addr: u8, out: &[u8], buffer: &mut Vec<u8>) -> Result<(), BusError> {
        self.round_trips.push((addr, out.to_vec(), buffer.len()));
        for i in 0..buffer.len() {
            buffer[i] = self.response[i];
        }
        Ok(())
    }
}

#[test]
fn create_sends_activation_then_sample_rate() {
    let bus = ScriptedBus::answering(vec![0x00, 0x00, 0x00]);
    let dev = Mma7660fc::new(bus).unwrap();
    assert_eq!(
        dev.i2c.writes,
        vec![(ADDRESS, vec![0x07, 0x01]), (ADDRESS, vec![0x08, 0x04])]
    );
    assert_eq!(dev.i2c.round_trips.len(), 0);
}

#[test]
fn create_fails_on_first_write() {
    let bus = ScriptedBus::failing_from_write(0);
    assert!(Mma7660fc::new(bus).is_err());
}

#[test]
fn create_fails_on_second_write() {
    let bus = ScriptedBus::failing_from_write(1);
    assert!(Mma7660fc::new(bus).is_err());
}

#[test]
fn get_xyz_issues_one_round_trip() {
    let bus = ScriptedBus::answering(vec![0x01, 0x02, 0x03]);
    let mut dev = Mma7660fc::new(bus).unwrap();
    dev.get_xyz().unwrap();
    assert_eq!(dev.i2c.round_trips, vec![(ADDRESS, vec![0x00], 3)]);
    assert_eq!(dev.i2c.writes.len(), 2, "a read must not issue extra writes");
}

#[test]
fn get_xyz_decodes_each_byte() {
    let bus = ScriptedTransport::new(vec![0x1f, 0x20, 0x00]);
    let mut dev = Mma7660fc::new(bus).unwrap();
    let triple = dev.get_xyz().unwrap();
    assert_eq!(triple, I8x3 { x: 31, y: -32, z: 0 });
}

#[test]
fn scripted_transport_zero_fills_past_its_script() {
    let bus = ScriptedTransport::new(vec![0x05]);
    let mut dev = Mma7660fc::new(bus).unwrap();
    let triple = dev.get_xyz().unwrap();
    assert_eq!(triple, I8x3 { x: 5, y: 0, z: 0 });
}

#[test]
fn read_axis_targets_the_named_register() {
    let bus = ScriptedBus::answering(vec![0x05]);
    let mut dev = Mma7660fc::new(bus).unwrap();
    assert_eq!(dev.read_axis(Register::YOUT).unwrap(), 5);
    assert_eq!(dev.i2c.round_trips, vec![(ADDRESS, vec![0x01], 1)]);
}

#[test]
fn read_axis_decodes_negative_sample() {
    let bus = ScriptedTransport::new(vec![0x2b]);
    let mut dev = Mma7660fc::new(bus).unwrap();
    assert_eq!(dev.read_axis(Register::ZOUT).unwrap(), -21);
}

#[test]
fn repeated_reads_of_a_fixed_byte_agree() {
    let mut dev = Mma7660fc::new(FixedTransport::new(0x2b)).unwrap();
    let first = dev.read_axis(Register::XOUT).unwrap();
    for _ in 0..10 {
        assert_eq!(dev.read_axis(Register::XOUT).unwrap(), first);
    }
    assert_eq!(first, -21);
}

#[test]
fn fixed_transport_answers_every_axis_alike() {
    let mut dev = Mma7660fc::new(FixedTransport::new(0x1f)).unwrap();
    let triple = dev.get_xyz().unwrap();
    assert_eq!(triple, I8x3 { x: 31, y: 31, z: 31 });
}

#[test]
fn set_mode_writes_the_mode_register() {
    let bus = ScriptedBus::answering(vec![]);
    let mut dev = Mma7660fc::new(bus).unwrap();
    dev.set_mode(Mode::STANDBY).unwrap();
    assert_eq!(dev.i2c.writes[2], (ADDRESS, vec![0x07, 0x00]));
    dev.set_mode(Mode::ACTIVE).unwrap();
    assert_eq!(dev.i2c.writes[3], (ADDRESS, vec![0x07, 0x01]));
}

#[test]
fn write_register_sends_address_then_data() {
    let bus = ScriptedBus::answering(vec![]);
    let mut dev = Mma7660fc::new(bus).unwrap();
    dev.write_register(Register::PDET, 0xaa).unwrap();
    assert_eq!(dev.i2c.writes[2], (ADDRESS, vec![0x09, 0xaa]));
}

#[test]
fn write_register_failure_surfaces_the_bus_error() {
    let bus = ScriptedBus::failing_from_write(2);
    let mut dev = Mma7660fc::new(bus).unwrap();
    assert_eq!(dev.write_register(Register::SPCNT, 0x00), Err(BusError));
}

#[test]
fn acceleration_scenario_in_g_units() {
    let bus = ScriptedTransport::new(vec![0x15, 0x00, 0x2b]);
    let mut dev = Mma7660fc::new(bus).unwrap();
    let triple = dev.get_xyz().unwrap();
    assert_eq!(triple, I8x3 { x: 21, y: 0, z: -21 });
    let sensitivity = 21.33f32;
    let gx = triple.x as f32 / sensitivity;
    let gy = triple.y as f32 / sensitivity;
    let gz = triple.z as f32 / sensitivity;
    assert!((gx - 0.985).abs() < 1e-3);
    assert_eq!(gy, 0.0);
    assert!((gz + 0.985).abs() < 1e-3);
}
