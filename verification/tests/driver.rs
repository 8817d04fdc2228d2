use stabilizer::ad9912::{check_part_id, Ad9912, BusKind, DdsBus, Error, Pll, PART_ID};

/// A simulated device on the serial bus: it records every transaction
/// and answers reads with a configurable part ID.
struct SimBus {
    part_id: [u8; 2],
    writes: Vec<(Vec<u8>, Vec<u8>)>,
    read_headers: Vec<Vec<u8>>,
}

impl SimBus {
    fn with_part_id(part_id: [u8; 2]) -> Self {
        SimBus {
            part_id,
            writes: Vec::new(),
            read_headers: Vec::new(),
        }
    }
}

impl DdsBus for SimBus {
    fn write_transaction(&mut self, header: &Vec<u8>, payload: &Vec<u8>) -> Result<(), BusKind> {
        self.writes.push((header.clone(), payload.clone()));
        Ok(())
    }

    fn read_transaction(&mut self, header: &Vec<u8>, out: &mut Vec<u8>) -> Result<(), BusKind> {
        self.read_headers.push(header.clone());
        for i in 0..out.len() {
            out[i] = if i < 2 { self.part_id[i] } else { 0 };
        }
        Ok(())
    }
}

/// A bus whose transport always faults.
struct FailBus;

impl DdsBus for FailBus {
    fn write_transaction(&mut self, _header: &Vec<u8>, _payload: &Vec<u8>) -> Result<(), BusKind> {
        Err(BusKind::Other)
    }

    fn read_transaction(&mut self, _header: &Vec<u8>, _out: &mut Vec<u8>) -> Result<(), BusKind> {
        Err(BusKind::Other)
    }
}

#[test]
fn check_part_id_accepts_expected() {
    assert!(check_part_id(0x1982).is_ok());
    assert_eq!(PART_ID, 0x1982);
}

#[test]
fn check_part_id_rejects_with_observed_value() {
    assert_eq!(check_part_id(0x1234), Err(Error::Id(0x1234)));
    assert_eq!(check_part_id(0), Err(Error::Id(0)));
}

#[test]
fn init_succeeds_against_expected_part_id() {
    let mut dds = Ad9912::new(SimBus::with_part_id([0x19, 0x82]));
    assert!(dds.init().is_ok());
    let bus = dds.bus();
    // Serial-config write first: address 0, one byte, the mirrored
    // operating configuration 0x99.
    assert_eq!(bus.writes[0].0, vec![0x00, 0x00]);
    assert_eq!(bus.writes[0].1, vec![0x99]);
    // Part-ID read: address 0x0003, two bytes, read flag set.
    assert_eq!(bus.read_headers[0], vec![0xa0, 0x03]);
    // Power write last: address 0x0010, one byte, HSTL driver down.
    assert_eq!(bus.writes[1].0, vec![0x00, 0x10]);
    assert_eq!(bus.writes[1].1, vec![0x80]);
    assert_eq!(bus.writes.len(), 2);
}

#[test]
fn init_fails_with_identity_error_carrying_observed_id() {
    let mut dds = Ad9912::new(SimBus::with_part_id([0x12, 0x34]));
    assert_eq!(dds.init(), Err(Error::Id(0x1234)));
    let mut dds = Ad9912::new(SimBus::with_part_id([0x00, 0x00]));
    assert_eq!(dds.init(), Err(Error::Id(0x0000)));
    let mut dds = Ad9912::new(SimBus::with_part_id([0x19, 0x83]));
    assert_eq!(dds.init(), Err(Error::Id(0x1983)));
}

#[test]
fn init_surfaces_bus_fault() {
    let mut dds = Ad9912::new(FailBus);
    assert_eq!(dds.init(), Err(Error::Bus(BusKind::Other)));
}

#[test]
fn setters_surface_bus_fault() {
    let mut dds = Ad9912::new(FailBus);
    assert_eq!(dds.soft_reset(), Err(Error::Bus(BusKind::Other)));
    assert_eq!(dds.dds_reset(), Err(Error::Bus(BusKind::Other)));
    assert_eq!(dds.set_ftw(1), Err(Error::Bus(BusKind::Other)));
    assert_eq!(dds.set_pow(1), Err(Error::Bus(BusKind::Other)));
    assert_eq!(dds.set_fsc(1), Err(Error::Bus(BusKind::Other)));
    assert_eq!(dds.set_pll(1, Pll::default()), Err(Error::Bus(BusKind::Other)));
}

#[test]
fn soft_reset_writes_mirrored_reset_pattern() {
    let mut dds = Ad9912::new(SimBus::with_part_id([0x19, 0x82]));
    assert!(dds.soft_reset().is_ok());
    let bus = dds.bus();
    assert_eq!(bus.writes[0].0, vec![0x00, 0x00]);
    assert_eq!(bus.writes[0].1, vec![0xbd]);
}

#[test]
fn dds_reset_writes_one_to_reset_register() {
    let mut dds = Ad9912::new(SimBus::with_part_id([0x19, 0x82]));
    assert!(dds.dds_reset().is_ok());
    let bus = dds.bus();
    assert_eq!(bus.writes[0].0, vec![0x00, 0x13]);
    assert_eq!(bus.writes[0].1, vec![0x01]);
}

#[test]
fn set_pll_writes_divider_then_control() {
    let mut dds = Ad9912::new(SimBus::with_part_id([0x19, 0x82]));
    let pll = Pll::default().with_ref_doubler(true);
    assert!(dds.set_pll(10, pll).is_ok());
    let bus = dds.bus();
    assert_eq!(bus.writes[0].0, vec![0x00, 0x20]);
    assert_eq!(bus.writes[0].1, vec![0x0a]);
    assert_eq!(bus.writes[1].0, vec![0x00, 0x22]);
    assert_eq!(bus.writes[1].1, vec![0x0c]);
}

#[test]
fn set_ftw_streams_six_bytes_most_significant_first() {
    let mut dds = Ad9912::new(SimBus::with_part_id([0x19, 0x82]));
    assert!(dds.set_ftw(0x0123_4567_89ab).is_ok());
    let bus = dds.bus();
    // Tuning-word register 0x01ab, stream size class, read flag clear.
    assert_eq!(bus.writes[0].0, vec![0x61, 0xab]);
    assert_eq!(bus.writes[0].1, vec![0x01, 0x23, 0x45, 0x67, 0x89, 0xab]);
}

#[test]
fn set_frequency_formula_value_reads_back_exactly() {
    // The conversion the configuration path applies before calling
    // set_ftw: ftw = round(frequency * sysclk * 2^-48).
    let sysclk = 1.0e9_f64;
    let frequency = 1_000_000.0_f64;
    let lsb = sysclk * (1.0 / (1u64 << 48) as f64);
    let ftw = (frequency * lsb).round() as u64;
    assert!(ftw < 1 << 48);

    let mut dds = Ad9912::new(SimBus::with_part_id([0x19, 0x82]));
    assert!(dds.set_ftw(ftw).is_ok());

    // Read the tuning word back from what reached the bus: it is the
    // formula's value exactly, with nothing lost in the byte encoding.
    let payload = &dds.bus().writes[0].1;
    assert_eq!(payload.len(), 6);
    let mut back: u64 = 0;
    for b in payload.iter() {
        back = (back << 8) | *b as u64;
    }
    assert_eq!(back, ftw);
}

#[test]
fn set_pow_writes_two_bytes() {
    let mut dds = Ad9912::new(SimBus::with_part_id([0x19, 0x82]));
    assert!(dds.set_pow(0x1234).is_ok());
    let bus = dds.bus();
    // Phase register 0x01ad, two-byte size class.
    assert_eq!(bus.writes[0].0, vec![0x21, 0xad]);
    assert_eq!(bus.writes[0].1, vec![0x12, 0x34]);
}

#[test]
fn set_fsc_writes_two_bytes() {
    let mut dds = Ad9912::new(SimBus::with_part_id([0x19, 0x82]));
    assert!(dds.set_fsc(0x03ff).is_ok());
    let bus = dds.bus();
    // Full-scale-current register 0x040c, two-byte size class.
    assert_eq!(bus.writes[0].0, vec![0x24, 0x0c]);
    assert_eq!(bus.writes[0].1, vec![0x03, 0xff]);
}
