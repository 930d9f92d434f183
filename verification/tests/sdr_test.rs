use rustiq::engine::sdr::{
    decode_samples, IqSample, ReadAction, ReadOutcome, ReadProgress, BYTES_PER_SAMPLE,
};

/// Helper: the bytes of a file of IQ samples.
fn create_iq_file(samples: &[f32]) -> MemFile {
    let mut data = Vec::new();
    for &val in samples {
        data.extend_from_slice(&val.to_le_bytes());
    }
    MemFile { data, position: 0, chunk: usize::MAX }
}

fn sample(i: f32, q: f32) -> IqSample {
    IqSample { i_bits: i.to_bits(), q_bits: q.to_bits() }
}

/// A file held in memory. No read brings more than `chunk` bytes.
struct MemFile {
    data: Vec<u8>,
    position: usize,
    chunk: usize,
}

impl MemFile {
    fn read(&mut self, buf: &mut [u8]) -> usize {
        let n = buf.len().min(self.data.len() - self.position).min(self.chunk);
        buf[..n].copy_from_slice(&self.data[self.position..self.position + n]);
        self.position += n;
        n
    }
}

/// Fills `buf` from `file` as a source of samples does.
fn read_samples(file: &mut MemFile, loop_on_eof: bool, buf: &mut Vec<IqSample>) -> usize {
    let mut progress = ReadProgress::new(buf.len(), loop_on_eof).unwrap();
    let mut byte_buf = vec![0u8; progress.bytes_needed];
    let mut action = progress.start();
    assert_eq!(action, ReadAction::Read { offset: 0 });
    loop {
        match action {
            ReadAction::Read { offset } => {
                let n = file.read(&mut byte_buf[offset..]);
                action = progress.advance(ReadOutcome::Read(n));
            }
            ReadAction::Rewind => {
                file.position = 0;
                let n = file.read(&mut byte_buf[0..]);
                assert!(n > 0, "an empty file cannot loop");
                action = progress.advance(ReadOutcome::Read(n));
            }
            ReadAction::Done { total_read } => {
                return decode_samples(&byte_buf[..total_read], buf);
            }
            ReadAction::Fail => panic!("no read fails here"),
        }
    }
}

#[test]
fn test_file_iq_source_reads_samples() {
    // 4 complex samples (I,Q pairs as f32)
    let mut file = create_iq_file(&[
        1.0, 0.0, // Sample 1: 1+0j
        0.0, 1.0, // Sample 2: 0+1j
        -1.0, 0.0, // Sample 3: -1+0j
        0.0, -1.0, // Sample 4: 0-1j
    ]);

    let mut buf = vec![sample(0.0, 0.0); 4];

    let n = read_samples(&mut file, false, &mut buf);

    assert_eq!(n, 4);
    assert_eq!(
        buf,
        vec![sample(1.0, 0.0), sample(0.0, 1.0), sample(-1.0, 0.0), sample(0.0, -1.0),]
    );
}

#[test]
fn test_file_iq_source_eof_no_loop() {
    let mut file = create_iq_file(&[1.0, 0.0, 0.0, 1.0]);

    let mut buf = vec![sample(0.0, 0.0); 2];

    // First read should succeed
    let n = read_samples(&mut file, false, &mut buf);
    assert_eq!(n, 2);
    assert_eq!(buf, vec![sample(1.0, 0.0), sample(0.0, 1.0),]);

    // Second read should return 0 (EOF)
    let n = read_samples(&mut file, false, &mut buf);
    assert_eq!(n, 0);
}

#[test]
fn test_file_iq_source_eof_with_loop() {
    let mut file = create_iq_file(&[1.0, 2.0]);

    let mut buf = vec![sample(0.0, 0.0); 1];

    // First read
    let n = read_samples(&mut file, true, &mut buf);
    assert_eq!(n, 1);
    assert_eq!(buf, vec![sample(1.0, 2.0)]);

    // Second read should loop back to start
    let n = read_samples(&mut file, true, &mut buf);
    assert_eq!(n, 1);
    assert_eq!(buf, vec![sample(1.0, 2.0)]);
}

#[test]
fn test_file_iq_source_partial_read() {
    // Create file with 3 samples, but try to read 5
    let mut file = create_iq_file(&[
        1.0, 0.0, // Sample 1
        2.0, 0.0, // Sample 2
        3.0, 0.0, // Sample 3
    ]);

    let mut buf = vec![sample(0.0, 0.0); 5];

    let n = read_samples(&mut file, false, &mut buf);

    // Should only read 3 samples
    assert_eq!(n, 3);
    assert_eq!(buf[0], sample(1.0, 0.0));
    assert_eq!(buf[1], sample(2.0, 0.0));
    assert_eq!(buf[2], sample(3.0, 0.0));
    // Remaining buffer elements should be unchanged
    assert_eq!(buf[3], sample(0.0, 0.0));
    assert_eq!(buf[4], sample(0.0, 0.0));
}

#[test]
fn iq_reads_in_small_pieces_give_the_same_samples() {
    let mut file = create_iq_file(&[1.5, -2.5, 3.25, 4.0, -0.0, 1e-20]);
    file.chunk = 3;
    let mut buf = vec![sample(9.0, 9.0); 3];
    assert_eq!(read_samples(&mut file, false, &mut buf), 3);
    assert_eq!(buf, vec![sample(1.5, -2.5), sample(3.25, 4.0), sample(-0.0, 1e-20)]);
}

#[test]
fn decode_spells_bits_lowest_byte_first() {
    let bytes = [0x01, 0x02, 0x03, 0x04, 0xff, 0xfe, 0xfd, 0xfc];
    let mut buf = vec![IqSample { i_bits: 0, q_bits: 0 }];
    assert_eq!(decode_samples(&bytes, &mut buf), 1);
    assert_eq!(buf, vec![IqSample { i_bits: 0x0403_0201, q_bits: 0xfcfd_feff }]);
}

#[test]
fn decode_leaves_aside_a_rest_and_what_has_no_room() {
    assert_eq!(BYTES_PER_SAMPLE, 8);
    let bytes: Vec<u8> = (0..23).collect();
    let keep = IqSample { i_bits: 7, q_bits: 7 };

    // 23 bytes are two whole samples and a rest.
    let mut buf = vec![keep; 4];
    assert_eq!(decode_samples(&bytes, &mut buf), 2);
    assert_eq!(
        buf,
        vec![
            IqSample { i_bits: 0x0302_0100, q_bits: 0x0706_0504 },
            IqSample { i_bits: 0x0b0a_0908, q_bits: 0x0f0e_0d0c },
            keep,
            keep,
        ]
    );

    // Room for one sample only.
    let mut small = vec![keep; 1];
    assert_eq!(decode_samples(&bytes, &mut small), 1);
    assert_eq!(small, vec![IqSample { i_bits: 0x0302_0100, q_bits: 0x0706_0504 }]);

    // Less than a sample, and no room at all.
    let mut untouched = vec![keep; 2];
    assert_eq!(decode_samples(&bytes[..7], &mut untouched), 0);
    assert_eq!(untouched, vec![keep; 2]);
    let mut none: Vec<IqSample> = Vec::new();
    assert_eq!(decode_samples(&bytes, &mut none), 0);
    assert!(none.is_empty());
}

#[test]
fn read_progress_counts_bytes_of_the_buffer() {
    assert_eq!(
        ReadProgress::new(5, true),
        Some(ReadProgress { bytes_needed: 40, total_read: 0, loop_on_eof: true })
    );
    assert_eq!(
        ReadProgress::new(0, false),
        Some(ReadProgress { bytes_needed: 0, total_read: 0, loop_on_eof: false })
    );
    assert_eq!(ReadProgress::new(usize::MAX / 8, false).map(|p| p.bytes_needed), Some(usize::MAX / 8 * 8));
    assert_eq!(ReadProgress::new(usize::MAX / 8 + 1, false), None);
    assert_eq!(ReadProgress::new(usize::MAX, true), None);
}

#[test]
fn read_progress_decides_after_each_read() {
    let mut progress = ReadProgress::new(2, true).unwrap();
    // End of file with nothing read: a looping file starts over.
    assert_eq!(progress.advance(ReadOutcome::Read(0)), ReadAction::Rewind);
    assert_eq!(progress.total_read, 0);
    assert_eq!(progress.advance(ReadOutcome::Read(5)), ReadAction::Read { offset: 5 });
    assert_eq!(progress.advance(ReadOutcome::Interrupted), ReadAction::Read { offset: 5 });
    assert_eq!(progress.total_read, 5);
    // End of file after something was read: that is all, looping or not.
    assert_eq!(progress.advance(ReadOutcome::Read(0)), ReadAction::Done { total_read: 5 });
    assert_eq!(progress.advance(ReadOutcome::Read(11)), ReadAction::Done { total_read: 16 });
    assert_eq!(progress.total_read, 16);

    let mut plain = ReadProgress::new(2, false).unwrap();
    assert_eq!(plain.advance(ReadOutcome::Read(0)), ReadAction::Done { total_read: 0 });
    assert_eq!(plain.advance(ReadOutcome::Failed), ReadAction::Fail);
    assert_eq!(plain.advance(ReadOutcome::Read(16)), ReadAction::Done { total_read: 16 });
}

#[test]
fn read_progress_counts_no_further_than_the_buffer() {
    let mut progress = ReadProgress::new(1, false).unwrap();
    assert_eq!(progress.advance(ReadOutcome::Read(usize::MAX)), ReadAction::Done { total_read: 8 });
    assert_eq!(progress.total_read, 8);
    assert_eq!(progress.advance(ReadOutcome::Read(3)), ReadAction::Done { total_read: 8 });
}
