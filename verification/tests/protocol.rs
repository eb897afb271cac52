use dart6ul_gpio::fake::FakePlane;
use dart6ul_gpio::GpioError;
use dart6ul_gpio::InPin;
use dart6ul_gpio::OutPin;
use dart6ul_gpio::Pin;

fn nth_write(fp: &FakePlane, i: usize) -> (&[u8], &[u8]) {
    (fp.written[i].path.as_slice(), fp.written[i].payload.as_slice())
}

#[test]
fn it_works() {
    assert_eq!(2 + 2, 4);
}

#[test]
fn absolute_address_formula() {
    for port in 1u8..=8 {
        for index in 0u8..32 {
            let line = Pin::convert_to_absolute(port, index);
            assert_eq!(line, (port as u32 - 1) * 32 + index as u32);
        }
    }
}

#[test]
fn export_then_direction_on_success() {
    let mut fp = FakePlane::new();
    let pin = OutPin::new(&mut fp, 2, 0);
    assert!(pin.is_ok());
    assert_eq!(fp.written.len(), 2);
    assert_eq!(nth_write(&fp, 0), (b"export".as_slice(), b"32".as_slice()));
    assert_eq!(
        nth_write(&fp, 1),
        (b"gpio32/direction".as_slice(), b"out".as_slice())
    );
    assert_eq!(fp.exported, vec![b"32".to_vec()]);
}

#[test]
fn output_pin_full_lifecycle() {
    let mut fp = FakePlane::new();
    let mut pin = OutPin::new(&mut fp, 1, 5).unwrap();
    assert!(pin.set_low(&mut fp).is_ok());
    pin.release(&mut fp);
    assert_eq!(fp.written.len(), 4);
    assert_eq!(nth_write(&fp, 0), (b"export".as_slice(), b"5".as_slice()));
    assert_eq!(
        nth_write(&fp, 1),
        (b"gpio5/direction".as_slice(), b"out".as_slice())
    );
    assert_eq!(nth_write(&fp, 2), (b"gpio5/value".as_slice(), b"0".as_slice()));
    assert_eq!(nth_write(&fp, 3), (b"unexport".as_slice(), b"5".as_slice()));
    assert!(fp.exported.is_empty());
}

#[test]
fn busy_line_then_forced_acquisition() {
    let mut fp = FakePlane::new();
    fp.exported.push(b"5".to_vec());
    let first = OutPin::new(&mut fp, 1, 5);
    assert_eq!(first.unwrap_err(), GpioError::Busy);
    let second = OutPin::force_new(&mut fp, 1, 5);
    assert!(second.is_ok());
    assert_eq!(fp.written.len(), 4);
    assert_eq!(nth_write(&fp, 0), (b"export".as_slice(), b"5".as_slice()));
    assert_eq!(nth_write(&fp, 1), (b"unexport".as_slice(), b"5".as_slice()));
    assert_eq!(nth_write(&fp, 2), (b"export".as_slice(), b"5".as_slice()));
    assert_eq!(
        nth_write(&fp, 3),
        (b"gpio5/direction".as_slice(), b"out".as_slice())
    );
    second.unwrap().release(&mut fp);
    assert_eq!(nth_write(&fp, 4), (b"unexport".as_slice(), b"5".as_slice()));
    assert!(fp.exported.is_empty());
}

#[test]
fn input_value_parsing() {
    let mut fp = FakePlane::new();
    let pin = InPin::new(&mut fp, 1, 5).unwrap();
    assert_eq!(
        nth_write(&fp, 1),
        (b"gpio5/direction".as_slice(), b"in".as_slice())
    );
    fp.value_byte = b'1';
    assert_eq!(pin.is_high(&mut fp).unwrap(), true);
    assert_eq!(pin.is_low(&mut fp).unwrap(), false);
    fp.value_byte = b'0';
    assert_eq!(pin.is_high(&mut fp).unwrap(), false);
    assert_eq!(pin.is_low(&mut fp).unwrap(), true);
    fp.value_byte = b'x';
    assert_eq!(pin.is_high(&mut fp).unwrap_err(), GpioError::Malformed);
    assert_eq!(pin.is_low(&mut fp).unwrap_err(), GpioError::Malformed);
    fp.value_byte = b'1';
    fp.value_len = 0;
    assert_eq!(pin.is_high(&mut fp).unwrap_err(), GpioError::Malformed);
    // a read yields at most one byte, however much the file claims to hold
    fp.value_len = 9;
    assert_eq!(pin.is_high(&mut fp).unwrap(), true);
    // reads issue no writes
    assert_eq!(fp.written.len(), 2);
}

#[test]
fn direction_write_failure_leaves_line_exported() {
    let mut fp = FakePlane::new();
    fp.fail_direction = true;
    let attempt = OutPin::new(&mut fp, 1, 5);
    assert_eq!(attempt.unwrap_err(), GpioError::Io);
    // the line stays exported and no unexport was issued
    assert_eq!(fp.exported, vec![b"5".to_vec()]);
    assert!(fp.written.iter().all(|w| w.path != b"unexport".to_vec()));
    fp.fail_direction = false;
    let retry = OutPin::force_new(&mut fp, 1, 5);
    assert!(retry.is_ok());
    assert_eq!(fp.exported, vec![b"5".to_vec()]);
}

#[test]
fn ten_alternating_level_writes_in_order() {
    let mut fp = FakePlane::new();
    let mut pin = OutPin::new(&mut fp, 1, 5).unwrap();
    let before = fp.written.len();
    for k in 0..10usize {
        let r = if k % 2 == 0 {
            pin.set_high(&mut fp)
        } else {
            pin.set_low(&mut fp)
        };
        assert!(r.is_ok());
    }
    assert_eq!(fp.written.len(), before + 10);
    for k in 0..10usize {
        let w = &fp.written[before + k];
        assert_eq!(w.path, b"gpio5/value".to_vec());
        assert_eq!(w.payload.len(), 1);
        assert_eq!(w.payload[0], if k % 2 == 0 { b'1' } else { b'0' });
    }
}

#[test]
fn forced_reset_swallows_missing_line() {
    let mut fp = FakePlane::new();
    Pin::force_reset(&mut fp, 1, 5);
    Pin::force_reset(&mut fp, 1, 5);
    assert_eq!(fp.written.len(), 2);
    assert_eq!(nth_write(&fp, 0), (b"unexport".as_slice(), b"5".as_slice()));
    assert_eq!(nth_write(&fp, 1), (b"unexport".as_slice(), b"5".as_slice()));
    assert!(fp.exported.is_empty());
}

fn read_once(fp: &mut FakePlane) -> Result<bool, GpioError> {
    let pin = InPin::new(fp, 1, 5)?;
    let result = pin.is_high(fp);
    pin.release(fp);
    result
}

#[test]
fn release_runs_on_error_propagation() {
    let mut fp = FakePlane::new();
    fp.value_byte = b'x';
    let r = read_once(&mut fp);
    assert_eq!(r.unwrap_err(), GpioError::Malformed);
    // the line was still released on the error exit
    assert_eq!(fp.written.last().unwrap().path, b"unexport".to_vec());
    assert_eq!(fp.written.last().unwrap().payload, b"5".to_vec());
    assert!(fp.exported.is_empty());
}

#[test]
fn permission_denied_surfaces_from_acquisition() {
    let mut fp = FakePlane::new();
    fp.deny_writes = Some(GpioError::Permission);
    assert_eq!(OutPin::new(&mut fp, 1, 5).unwrap_err(), GpioError::Permission);
    assert_eq!(
        InPin::force_new(&mut fp, 1, 5).unwrap_err(),
        GpioError::Permission
    );
}

#[test]
fn read_of_missing_line_is_not_found() {
    let mut fp = FakePlane::new();
    let pin = InPin::new(&mut fp, 1, 5).unwrap();
    fp.exported.clear();
    assert_eq!(pin.is_high(&mut fp).unwrap_err(), GpioError::NotFound);
}

#[test]
fn multi_digit_line_payloads() {
    let mut fp = FakePlane::new();
    let pin = OutPin::new(&mut fp, 8, 31).unwrap();
    assert_eq!(nth_write(&fp, 0), (b"export".as_slice(), b"255".as_slice()));
    assert_eq!(
        nth_write(&fp, 1),
        (b"gpio255/direction".as_slice(), b"out".as_slice())
    );
    pin.release(&mut fp);
    assert_eq!(nth_write(&fp, 2), (b"unexport".as_slice(), b"255".as_slice()));
}

#[test]
fn line_zero_payload() {
    let mut fp = FakePlane::new();
    Pin::force_reset_abs(&mut fp, 0);
    assert_eq!(nth_write(&fp, 0), (b"unexport".as_slice(), b"0".as_slice()));
}
