use stream_decoder::{
    Decoder, DecoderError, Event, IdentityCodec, Outcome, UpstreamError, OUTPUT_BUFFER_SIZE,
};

/// Step the machine through a script of upstream answers, collecting every
/// yielded chunk, until it finishes or fails. `Suspend` is treated as an
/// immediate resume.
fn run(
    d: &mut Decoder<u32, IdentityCodec>,
    events: Vec<Event>,
) -> (Vec<Vec<u8>>, Option<DecoderError>) {
    let mut yields: Vec<Vec<u8>> = Vec::new();
    let mut script = events.into_iter();
    let mut ev: Option<Event> = None;
    loop {
        match d.next(ev.take()) {
            Outcome::Again => {}
            Outcome::NeedInput => {
                ev = Some(script.next().expect("script exhausted"));
            }
            Outcome::Suspend => {}
            Outcome::Yielded(c) => yields.push(c),
            Outcome::Finished => return (yields, None),
            Outcome::Failed(e) => return (yields, Some(e)),
        }
    }
}

fn concat(chunks: &[Vec<u8>]) -> Vec<u8> {
    let mut all: Vec<u8> = Vec::new();
    for c in chunks {
        all.extend_from_slice(c);
    }
    all
}

#[test]
fn identity_two_chunks_concatenate() {
    let mut d = Decoder::new(0u32, IdentityCodec::new());
    let (yields, err) = run(
        &mut d,
        vec![
            Event::Chunk(b"hello ".to_vec()),
            Event::Chunk(b"world".to_vec()),
            Event::End,
        ],
    );
    assert!(err.is_none());
    assert_eq!(concat(&yields), b"hello world".to_vec());
}

#[test]
fn pending_yields_accumulated_output_in_order() {
    let mut d = Decoder::new(0u32, IdentityCodec::new());
    let (yields, err) = run(
        &mut d,
        vec![
            Event::Chunk(b"hello ".to_vec()),
            Event::Pending,
            Event::Chunk(b"world".to_vec()),
            Event::End,
        ],
    );
    assert!(err.is_none());
    assert_eq!(yields, vec![b"hello ".to_vec(), b"world".to_vec()]);
}

#[test]
fn empty_upstream_finishes_with_no_output() {
    let mut d = Decoder::new(0u32, IdentityCodec::new());
    let (yields, err) = run(&mut d, vec![Event::End]);
    assert!(err.is_none());
    assert!(yields.is_empty());
}

#[test]
fn drained_machine_keeps_finishing() {
    let mut d = Decoder::new(0u32, IdentityCodec::new());
    let (_, err) = run(&mut d, vec![Event::End]);
    assert!(err.is_none());
    for _ in 0..5 {
        assert!(matches!(d.next(None), Outcome::Finished));
    }
}

#[test]
fn suspends_only_with_nothing_buffered() {
    let mut d = Decoder::new(0u32, IdentityCodec::new());
    assert!(matches!(d.next(None), Outcome::NeedInput));
    assert!(matches!(d.next(Some(Event::Pending)), Outcome::Suspend));
    let (yields, err) = run(&mut d, vec![Event::Chunk(b"abc".to_vec()), Event::End]);
    assert!(err.is_none());
    assert_eq!(concat(&yields), b"abc".to_vec());
}

#[test]
fn upstream_error_is_terminal_and_discards_output() {
    let mut d = Decoder::new(0u32, IdentityCodec::new());
    let (yields, err) = run(
        &mut d,
        vec![
            Event::Chunk(b"abc".to_vec()),
            Event::Failed(UpstreamError { message: String::from("boom") }),
        ],
    );
    // The bytes decoded before the failure are discarded, not delivered.
    assert!(yields.is_empty());
    match err {
        Some(DecoderError::Upstream(u)) => assert_eq!(u.message, "boom"),
        other => panic!("expected an upstream error, got {:?}", other),
    }
    for _ in 0..5 {
        assert!(matches!(d.next(None), Outcome::Finished));
    }
}

#[test]
fn chunk_at_growth_threshold_survives_whole() {
    let big: Vec<u8> = (0..OUTPUT_BUFFER_SIZE).map(|i| (i % 251) as u8).collect();
    let mut d = Decoder::new(0u32, IdentityCodec::new());
    let (yields, err) = run(&mut d, vec![Event::Chunk(big.clone()), Event::End]);
    assert!(err.is_none());
    assert_eq!(concat(&yields), big);
}

#[test]
fn chunk_past_growth_threshold_regrows() {
    let big: Vec<u8> = (0..OUTPUT_BUFFER_SIZE + 1).map(|i| (i % 13) as u8).collect();
    let mut d = Decoder::new(0u32, IdentityCodec::new());
    let (yields, err) = run(&mut d, vec![Event::Chunk(big.clone()), Event::End]);
    assert!(err.is_none());
    assert_eq!(concat(&yields), big);
}

#[test]
fn empty_chunks_are_harmless() {
    let mut d = Decoder::new(0u32, IdentityCodec::new());
    let (yields, err) = run(
        &mut d,
        vec![
            Event::Chunk(Vec::new()),
            Event::Chunk(b"data".to_vec()),
            Event::Chunk(Vec::new()),
            Event::End,
        ],
    );
    assert!(err.is_none());
    assert_eq!(concat(&yields), b"data".to_vec());
}

#[test]
fn upstream_handle_accessors() {
    let mut d = Decoder::new(42u32, IdentityCodec::new());
    assert_eq!(*d.get_ref(), 42);
    *d.get_mut() = 7;
    assert_eq!(*d.get_ref(), 7);
    assert_eq!(d.into_inner(), 7);
}
