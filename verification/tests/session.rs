use ds_transcriber::assembler::{Assembler, Chunk, Progress};
use ds_transcriber::detector::DetectorState;
use ds_transcriber::settings::StreamSettings;

fn chunk(samples: Vec<f32>, at_millis: u64) -> Chunk<f32> {
    let levels = samples.iter().map(|s| (*s * 1000.0) as i32).collect();
    Chunk { samples, levels, at_millis }
}

fn session(pause_length_millis: u32) -> Assembler<f32> {
    Assembler::new(StreamSettings::new(200, false, pause_length_millis))
}

struct Lcg(u64);

impl Lcg {
    fn next(&mut self, bound: u64) -> u64 {
        self.0 = self.0.wrapping_mul(6364136223846793005).wrapping_add(1442695040888963407);
        (self.0 >> 33) % bound
    }
}

fn by_the_rule(threshold: i32, pause: u64, chunks: &[Chunk<f32>]) -> (Option<usize>, Vec<f32>) {
    let mut since: Option<u64> = None;
    let mut buffer = Vec::new();
    for (i, c) in chunks.iter().enumerate() {
        buffer.extend(&c.samples);
        let max = c.levels.iter().copied().max().unwrap_or(0);
        let min = c.levels.iter().copied().min().unwrap_or(0);
        if max < threshold && min > -threshold {
            match since {
                None => since = Some(c.at_millis),
                Some(s) => {
                    if c.at_millis.saturating_sub(s) > pause {
                        return (Some(i), buffer);
                    }
                }
            }
        } else {
            since = None;
        }
    }
    (None, buffer)
}

fn copy_of(chunks: &[Chunk<f32>]) -> Vec<Chunk<f32>> {
    chunks
        .iter()
        .map(|c| Chunk { samples: c.samples.clone(), levels: c.levels.clone(), at_millis: c.at_millis })
        .collect()
}

#[test]
fn receive_all_of_nothing_is_the_assembler_itself() {
    match session(1000).receive_all(Vec::new()) {
        Progress::Listening(assembler) => {
            assert_eq!(assembler.state(), DetectorState::Active);
            assert!(assembler.buffered().is_empty());
        }
        Progress::Finished(_) => panic!("ended without a chunk"),
    }
}

#[test]
fn receive_all_ends_with_the_chunk_that_exceeds_the_pause() {
    let chunks = vec![
        chunk(vec![0.5, 0.5], 0),
        chunk(vec![0.01], 100),
        chunk(vec![0.02], 600),
        chunk(vec![0.03], 1100),
        chunk(vec![0.04], 1101),
        chunk(vec![0.9, 0.9, 0.9], 1200),
        chunk(vec![0.05], 1300),
    ];
    match session(1000).receive_all(chunks) {
        Progress::Finished(utterance) => assert_eq!(utterance, vec![0.5, 0.5, 0.01, 0.02, 0.03, 0.04]),
        Progress::Listening(_) => panic!("went on"),
    }
}

#[test]
fn receive_all_goes_on_from_where_the_assembler_stands() {
    let first = match session(1000).receive_all(vec![chunk(vec![0.3], 0), chunk(vec![0.0], 10)]) {
        Progress::Listening(assembler) => assembler,
        Progress::Finished(_) => panic!("ended early"),
    };
    assert_eq!(first.state(), DetectorState::Silent(10));
    match first.receive_all(vec![chunk(vec![0.0, 0.1], 1010), chunk(vec![0.0], 1011)]) {
        Progress::Finished(utterance) => assert_eq!(utterance, vec![0.3, 0.0, 0.0, 0.1, 0.0]),
        Progress::Listening(_) => panic!("went on"),
    }
}

#[test]
fn short_silences_never_end_a_session() {
    let mut rng = Lcg(7);
    for _ in 0..200 {
        let pause = 1 + rng.next(2000);
        let mut chunks = Vec::new();
        let mut received = 0;
        let mut now = rng.next(1000);
        let mut run_started: Option<u64> = None;
        for _ in 0..(1 + rng.next(120)) {
            now += rng.next(700);
            let within = run_started.map_or(true, |s| now - s <= pause);
            let silent = within && rng.next(3) != 0;
            let tag = if silent { 0.1 } else { 0.2 + rng.next(8) as f32 / 10.0 };
            let len = rng.next(4) as usize;
            let samples = if silent || len > 0 { vec![tag; len] } else { vec![tag] };
            run_started = if silent { run_started.or(Some(now)) } else { None };
            received += samples.len();
            chunks.push(chunk(samples, now));
        }
        let expected: Vec<f32> = chunks.iter().flat_map(|c| c.samples.clone()).collect();
        assert_eq!(by_the_rule(200, pause, &chunks).0, None);
        match session(pause as u32).receive_all(chunks) {
            Progress::Listening(assembler) => {
                assert_eq!(assembler.buffered().len(), received);
                assert_eq!(assembler.buffered(), &expected);
            }
            Progress::Finished(utterance) => panic!("ended with {} samples", utterance.len()),
        }
    }
}

#[test]
fn sessions_end_where_the_rule_says() {
    let mut rng = Lcg(2024);
    let mut ended = 0;
    for _ in 0..400 {
        let pause = rng.next(1500);
        let mut chunks = Vec::new();
        let mut now = 0;
        for _ in 0..(1 + rng.next(60)) {
            now += rng.next(500);
            let level = match rng.next(4) {
                0 => 0.5,
                1 => -0.2,
                2 => 0.199,
                _ => 0.0,
            };
            chunks.push(chunk(vec![level; rng.next(5) as usize], now));
        }
        let (end, utterance) = by_the_rule(200, pause, &chunks);
        let mut assembler = Some(session(pause as u32));
        for (i, c) in copy_of(&chunks).into_iter().enumerate() {
            match assembler.take().unwrap().receive(c).progress {
                Progress::Listening(next) => {
                    assert!(end.map_or(true, |e| i < e));
                    assembler = Some(next);
                }
                Progress::Finished(samples) => {
                    assert_eq!(end, Some(i));
                    assert_eq!(samples, utterance);
                    break;
                }
            }
        }
        match session(pause as u32).receive_all(chunks) {
            Progress::Listening(assembler) => {
                assert_eq!(end, None);
                assert_eq!(assembler.buffered(), &utterance);
            }
            Progress::Finished(samples) => {
                ended += 1;
                assert!(end.is_some());
                assert_eq!(samples, utterance);
            }
        }
    }
    assert!(ended > 50);
}

#[test]
fn loud_then_silence_replayed() {
    let mut chunks = Vec::new();
    for i in 0..3u64 {
        chunks.push(chunk(vec![0.5; 4], i * 250));
    }
    for i in 0..5u64 {
        chunks.push(chunk(vec![0.0; 4], 750 + i * 250));
    }
    match session(1000).receive_all(copy_of(&chunks)) {
        Progress::Listening(assembler) => {
            assert_eq!(assembler.state(), DetectorState::Silent(750));
            assert_eq!(assembler.buffered().len(), 8 * 4);
        }
        Progress::Finished(_) => panic!("ended at a silence of exactly the pause"),
    }
    match session(999).receive_all(chunks) {
        Progress::Finished(utterance) => assert_eq!(utterance.len(), 8 * 4),
        Progress::Listening(_) => panic!("went on"),
    }
}
