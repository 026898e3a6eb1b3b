use brother_ql::constants::RASTER_LINE_LENGTH;
use brother_ql::job::{chunk_raster_bytes, invert_line, mirror_line, rev_bits, PrintJob};
use brother_ql::setting::Resolution;

fn line_with(first: u8, last: u8) -> [u8; RASTER_LINE_LENGTH] {
    let mut line = [0u8; RASTER_LINE_LENGTH];
    line[0] = first;
    line[RASTER_LINE_LENGTH - 1] = last;
    line
}

#[test]
fn rev_bits_reverses_bit_order() {
    assert_eq!(rev_bits(0x00), 0x00);
    assert_eq!(rev_bits(0xFF), 0xFF);
    assert_eq!(rev_bits(0x01), 0x80);
    assert_eq!(rev_bits(0x80), 0x01);
    assert_eq!(rev_bits(0xF0), 0x0F);
    assert_eq!(rev_bits(0b1010_0000), 0b0000_0101);
    assert_eq!(rev_bits(0b1100_1000), 0b0001_0011);
}

#[test]
fn rev_bits_is_an_involution_on_samples() {
    for b in 0u8..=255 {
        assert_eq!(rev_bits(rev_bits(b)), b);
    }
}

#[test]
fn mirror_line_reverses_bytes_and_bits() {
    let line = line_with(0x01, 0xF0);
    let mirrored = mirror_line(&line);
    // The last source byte arrives first, bit-reversed.
    assert_eq!(mirrored[0], 0x0F);
    assert_eq!(mirrored[RASTER_LINE_LENGTH - 1], 0x80);
    for i in 1..RASTER_LINE_LENGTH - 1 {
        assert_eq!(mirrored[i], 0x00);
    }
}

#[test]
fn mirror_twice_is_identity() {
    let mut line = [0u8; RASTER_LINE_LENGTH];
    for (i, byte) in line.iter_mut().enumerate() {
        *byte = (i as u8).wrapping_mul(37).wrapping_add(11);
    }
    assert_eq!(mirror_line(&mirror_line(&line)), line);
}

#[test]
fn invert_line_complements_every_byte() {
    let line = line_with(0x00, 0xA5);
    let inverted = invert_line(&line);
    assert_eq!(inverted[0], 0xFF);
    assert_eq!(inverted[RASTER_LINE_LENGTH - 1], 0x5A);
    assert_eq!(invert_line(&invert_line(&line)), line);
}

#[test]
fn mirror_and_invert_commute() {
    let mut line = [0u8; RASTER_LINE_LENGTH];
    for (i, byte) in line.iter_mut().enumerate() {
        *byte = (i as u8).wrapping_mul(53).wrapping_add(7);
    }
    assert_eq!(
        mirror_line(&invert_line(&line)),
        invert_line(&mirror_line(&line))
    );
}

#[test]
fn chunking_splits_aligned_bytes_in_order() {
    let mut data = Vec::new();
    for i in 0..2 * RASTER_LINE_LENGTH {
        data.push(i as u8);
    }
    let lines = chunk_raster_bytes(&data).unwrap();
    assert_eq!(lines.len(), 2);
    assert_eq!(&lines[0][..], &data[..RASTER_LINE_LENGTH]);
    assert_eq!(&lines[1][..], &data[RASTER_LINE_LENGTH..]);
}

#[test]
fn chunking_rejects_misaligned_bytes() {
    assert!(chunk_raster_bytes(&[0u8; 1]).is_none());
    assert!(chunk_raster_bytes(&vec![0u8; RASTER_LINE_LENGTH + 1]).is_none());
    assert!(chunk_raster_bytes(&vec![0u8; RASTER_LINE_LENGTH - 1]).is_none());
    let empty: [u8; 0] = [];
    assert_eq!(chunk_raster_bytes(&empty).unwrap().len(), 0);
}

#[test]
fn unmirrored_job_passes_lines_through() {
    let job = PrintJob {
        cut_on_end: true,
        raster_lines: vec![line_with(0x01, 0x02), line_with(0x03, 0x04)],
        resolution: Resolution::Normal,
        mirrored: false,
    };
    let lines = job.get_raster_lines();
    assert_eq!(lines, job.raster_lines);
}

#[test]
fn mirrored_job_transforms_each_line_in_place() {
    let first = line_with(0x01, 0x02);
    let second = line_with(0x03, 0x04);
    let job = PrintJob {
        cut_on_end: false,
        raster_lines: vec![first, second],
        resolution: Resolution::High,
        mirrored: true,
    };
    let lines = job.get_raster_lines();
    assert_eq!(lines.len(), 2);
    // Mirroring never reorders lines, only their internal layout.
    assert_eq!(lines[0], mirror_line(&first));
    assert_eq!(lines[1], mirror_line(&second));
}
