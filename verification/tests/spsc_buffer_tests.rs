use spsc_buffer::{CircularBuffer, CircularBufferUser, Consumer, Producer};

/// Deterministic byte pattern used where the data's value does not matter,
/// only that it survives the trip through the buffer.
fn pattern(seed: usize, len: usize) -> Vec<u8> {
    let mut v = vec![0u8; len];
    for i in 0..len {
        v[i] = ((seed.wrapping_mul(31).wrapping_add(i).wrapping_mul(167)) % 251) as u8;
    }
    v
}

#[test]
fn test_next_with_highest() {
    let calib: usize = 3_000_000_017;
    let (p, c, mut b): (Producer, Consumer, CircularBuffer) =
        CircularBuffer::new_calibrated(65536, calib);
    assert_eq!(p.next(&b), calib);
    assert_eq!(c.next(&b), calib);
    assert_eq!(c.highest_read(&b), calib);

    let buf = vec![0u8; 1024];
    assert_eq!(p.write(&mut b, &buf), 1024);
    assert_eq!(p.next(&b), calib + 1024);
    assert_eq!(c.next(&b), calib);
    assert_eq!(c.highest_read(&b), calib);

    let mut half = vec![0u8; 512];
    assert_eq!(c.read(&mut b, &mut half), 512);
    assert_eq!(p.next(&b), calib + 1024);
    assert_eq!(c.next(&b), calib + 512);
    assert_eq!(c.highest_read(&b), calib + 512);

    let mut full = vec![0u8; 1024];
    assert_eq!(c.copy_data(&mut b, calib + 512, &mut full), 512);
    assert_eq!(p.next(&b), calib + 1024);
    assert_eq!(c.next(&b), calib + 512);
    assert_eq!(c.highest_read(&b), calib + 1024);

    assert_eq!(c.advance(&mut b, 256), 256);
    assert_eq!(p.next(&b), calib + 1024);
    assert_eq!(c.next(&b), calib + 512 + 256);
    assert_eq!(c.highest_read(&b), calib + 1024);
}

#[test]
fn test_buf() {
    let calib: usize = 3_000_000_017;
    let (p, c, mut b): (Producer, Consumer, CircularBuffer) =
        CircularBuffer::new_calibrated(65536, calib);

    assert!(c.is_empty(&b));
    assert!(!p.is_full(&b));
    assert_eq!(c.size(&b), 0);
    assert_eq!(p.available_capacity(&b), p.max_capacity(&b));
    assert_eq!(c.next(&b), calib);
    assert_eq!(p.next(&b), calib);

    let mut rbuf = vec![0u8; 1024];
    assert_eq!(c.read(&mut b, &mut rbuf), 0);

    let mut wbuf = vec![0u8; 1024];
    for round in 0..8 {
        wbuf = pattern(round, 1024);

        assert_eq!(p.write(&mut b, &wbuf), 1024);
        assert!(!c.is_empty(&b));
        assert_eq!(c.size(&b), 1024);
        assert_eq!(p.available_capacity(&b), p.max_capacity(&b) - 1024);

        assert_eq!(c.read(&mut b, &mut rbuf), 1024);
        assert!(c.is_empty(&b));
        assert_eq!(c.size(&b), 0);
        assert_eq!(p.available_capacity(&b), p.max_capacity(&b));

        for i in 0..1024 {
            assert_eq!(wbuf[i], rbuf[i]);
        }
    }

    /* fill the buffer */
    let mut i: usize = 0;
    loop {
        assert_eq!(p.available_capacity(&b), p.max_capacity(&b) - i * 1024);
        assert_eq!(c.size(&b), i * 1024);

        let expected_write: usize = std::cmp::min(1024, p.max_capacity(&b) - i * 1024);
        assert!(!p.is_full(&b) || expected_write == 0);
        assert_eq!(p.write(&mut b, &wbuf), expected_write);

        if expected_write < 1024 {
            break;
        }

        i += 1;
    }
    assert!(i > 0);

    println!("buffer full yo");

    assert!(p.is_full(&b));
    assert_eq!(c.size(&b), p.max_capacity(&b));
    assert_eq!(p.available_capacity(&b), 0usize);
    assert_eq!(p.write(&mut b, &wbuf), 0);

    /* now read everything */
    for j in 0..i {
        assert!(!c.is_empty(&b));
        println!("reading from dat full buffer yo");
        assert_eq!(c.read(&mut b, &mut rbuf), 1024);
        println!("mm read from dat full buffer yo");

        assert_eq!(p.available_capacity(&b), (j + 1) * 1024);
        assert_eq!(c.size(&b), p.max_capacity(&b) - (j + 1) * 1024);
    }
    println!("read most yo");
    assert_eq!(c.read(&mut b, &mut rbuf), p.max_capacity(&b) - i * 1024);
    assert!(c.is_empty(&b));

    assert_eq!(p.write(&mut b, &wbuf), 1024);
    assert_eq!(c.size(&b), 1024);
    /* doesn't read beyond what is available */
    let mut rbuf2 = vec![0u8; 2048];
    assert_eq!(c.read(&mut b, &mut rbuf2), 1024);
    assert_eq!(c.read(&mut b, &mut rbuf2), 0);
    for i in 0..1024 {
        assert_eq!(rbuf2[i], wbuf[i]);
    }
}

#[test]
fn test_copy_advance() {
    let calibration: usize = 3_000_000_017;
    let (p, c, mut b): (Producer, Consumer, CircularBuffer) =
        CircularBuffer::new_calibrated(65536, calibration);

    let write_buf = pattern(42, 1024);
    assert_eq!(p.write(&mut b, &write_buf), 1024);

    let mut read_buf = vec![0u8; 1024];
    assert_eq!(c.copy_data(&mut b, calibration, &mut read_buf), 1024);
    assert_eq!(write_buf, read_buf);
    /* try again - should not have advanced */
    assert_eq!(c.copy_data(&mut b, calibration, &mut read_buf), 1024);
    assert_eq!(write_buf, read_buf);

    assert_eq!(c.advance(&mut b, 512), 512);
    let mut read_half = vec![0u8; 512];
    assert_eq!(c.copy_data(&mut b, calibration + 512, &mut read_half), 512);
    assert_eq!(&write_buf[512..], &read_half[..512]);

    assert_eq!(c.advance(&mut b, 1024), 512);
    assert_eq!(c.copy_data(&mut b, calibration + 1024, &mut read_buf), 0);
}

#[test]
fn test_advance_to() {
    let calibration: usize = 3_000_000_017;
    let (p, c, mut b): (Producer, Consumer, CircularBuffer) =
        CircularBuffer::new_calibrated(65536, calibration);
    assert_eq!(p.next(&b), calibration);
    assert_eq!(c.next(&b), calibration);

    assert_eq!(c.advance_to(&mut b, calibration), 0);
    assert_eq!(c.advance_to(&mut b, calibration + (4242 % 65536)), 0);
    assert_eq!(p.next(&b), calibration);
    assert_eq!(c.next(&b), calibration);

    let buf = pattern(7, 1024);
    assert_eq!(p.write(&mut b, &buf), 1024);

    assert_eq!(c.advance_to(&mut b, calibration), 0);
    assert_eq!(c.advance_to(&mut b, calibration - (12345 % calibration)), 0);
    assert_eq!(p.next(&b), calibration + 1024);
    assert_eq!(c.next(&b), calibration);

    assert_eq!(c.advance_to(&mut b, calibration + 256), 256);
    assert_eq!(p.next(&b), calibration + 1024);
    assert_eq!(c.next(&b), calibration + 256);

    assert_eq!(c.advance_to(&mut b, calibration), 0);
    assert_eq!(c.advance_to(&mut b, calibration + 128), 0);
    assert_eq!(c.advance_to(&mut b, calibration + 256), 0);
    assert_eq!(p.next(&b), calibration + 1024);
    assert_eq!(c.next(&b), calibration + 256);

    assert_eq!(c.advance_to(&mut b, calibration + 320), 64);
    assert_eq!(p.next(&b), calibration + 1024);
    assert_eq!(c.next(&b), calibration + 320);

    assert_eq!(c.advance_to(&mut b, calibration + 2048), 1024 - 320);
    assert_eq!(p.next(&b), calibration + 1024);
    assert_eq!(c.next(&b), calibration + 1024);
}

#[test]
fn test_close() {
    let calibration: usize = 3_000_000_017;
    let (p, c, mut b): (Producer, Consumer, CircularBuffer) =
        CircularBuffer::new_calibrated(65536, calibration);

    let mut rbuf = vec![0u8; 1024];
    let buf = pattern(99, 1024);

    assert_eq!(p.write(&mut b, &buf), 1024);
    assert_eq!(p.available_capacity(&b), 65536 - 1024);

    let p2 = p.clone();
    p.close(&mut b);
    assert!(p2.closed(&b));
    assert!(c.closed(&b));
    assert_eq!(p.available_capacity(&b), 0usize);
    assert_eq!(p.write(&mut b, &buf), 0);
    assert_eq!(c.read(&mut b, &mut rbuf), 1024);

    for i in 0..1024 {
        assert_eq!(buf[i], rbuf[i]);
    }

    assert_eq!(c.read(&mut b, &mut rbuf), 0);
    assert_eq!(c.size(&b), 0);
    assert_eq!(p.available_capacity(&b), 0);

    let mut rbuf2 = vec![0u8; 128];
    assert_eq!(c.read(&mut b, &mut rbuf2), 0);
    for i in 0..128 {
        assert_eq!(rbuf2[i], 0);
    }
}
