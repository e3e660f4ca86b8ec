use mm2_aligner::aligner::Aligner;
use mm2_aligner::aligner::IndexHandle;
use mm2_aligner::aligner::ReaderHandle;
use mm2_aligner::error::Error;
use mm2_aligner::options::IndexOptions;
use mm2_aligner::preset::Preset;

// The index-build options the engine replies with for its baseline and for
// the map-ont preset both carry a minimizer window of 10; the tests feed that
// reply in by hand, standing in for the engine.
fn engine_reply() -> IndexOptions {
    IndexOptions {
        k: 15,
        w: 10,
        flag: 0,
        bucket_bits: 14,
        mini_batch_size: 50_000_000,
        batch_size: 4_000_000_000,
    }
}

#[test]
fn defaults_use_a_single_thread() {
    let aligner = Aligner::from_defaults(engine_reply());
    assert_eq!(aligner.threads, 1);
    assert_eq!(aligner.configuration.index_options.w, 10);
    assert_eq!(aligner.configuration.preset, None);
    assert!(!aligner.has_index());
}

#[test]
fn with_preset_records_preset_and_reply() {
    let aligner = Aligner::with_preset(Preset::MapOnt, engine_reply());
    assert_eq!(aligner.threads, 1);
    assert_eq!(aligner.configuration.preset, Some(Preset::MapOnt));
    assert_eq!(aligner.configuration.index_options, engine_reply());
    assert!(!aligner.has_index());
}

#[test]
fn derivation_is_idempotent() {
    let first = Aligner::with_preset(Preset::MapOnt, engine_reply());
    let second = Aligner::with_preset(Preset::MapOnt, engine_reply());
    assert_eq!(first.configuration, second.configuration);
    assert_eq!(first.threads, second.threads);
}

#[test]
fn with_threads_replaces_the_count() {
    let aligner = Aligner::from_defaults(engine_reply()).with_threads(4);
    assert_eq!(aligner.threads, 4);
}

#[test]
fn thread_count_is_forwarded_as_the_hint() {
    let aligner = Aligner::from_defaults(engine_reply()).with_threads(7);
    let request = aligner
        .with_named_index(b"reference.fa".to_vec(), None)
        .unwrap();
    assert_eq!(request.threads, 7);
}

#[test]
fn named_index_request_carries_path_output_and_options() {
    let aligner = Aligner::with_preset(Preset::MapOnt, engine_reply());
    let request = aligner
        .with_named_index(b"reference.fa".to_vec(), Some(b"test.mmi".to_vec()))
        .unwrap();
    assert_eq!(request.path, b"reference.fa".to_vec());
    assert_eq!(request.output, b"test.mmi".to_vec());
    assert_eq!(request.index_options, engine_reply());
    assert_eq!(request.threads, 1);
}

#[test]
fn absent_output_becomes_the_empty_string() {
    let aligner = Aligner::from_defaults(engine_reply());
    let named = aligner.with_named_index(b"reference.fa".to_vec(), None).unwrap();
    assert_eq!(named.output, Vec::<u8>::new());
    let unnamed = aligner.with_index(b"reference.fa".to_vec()).unwrap();
    assert_eq!(unnamed.output, Vec::<u8>::new());
}

#[test]
fn nul_in_path_is_rejected() {
    let aligner = Aligner::from_defaults(engine_reply());
    let result = aligner.with_named_index(b"bad\0path".to_vec(), None);
    assert_eq!(result.unwrap_err(), Error::InvalidPath);
    assert!(!aligner.has_index());
}

#[test]
fn nul_in_output_name_is_rejected() {
    let aligner = Aligner::from_defaults(engine_reply());
    let result = aligner.with_named_index(b"reference.fa".to_vec(), Some(b"bad\0name".to_vec()));
    assert_eq!(result.unwrap_err(), Error::InvalidOutputName);
    assert!(!aligner.has_index());
}

#[test]
fn open_failure_surfaces_error_and_leaves_state_unchanged() {
    // The engine finds no file behind the request and returns no reader.
    let mut aligner = Aligner::with_preset(Preset::MapOnt, engine_reply()).with_threads(1);
    let request = aligner
        .with_named_index(
            b"test_FILE_NOT_FOUND.fa".to_vec(),
            Some(b"test_FILE_NOT_FOUND.mmi".to_vec()),
        )
        .unwrap();
    assert_eq!(request.threads, 1);
    let outcome = aligner.attach_reader(None);
    assert_eq!(outcome.unwrap_err(), Error::IndexReaderOpenFailed);
    assert!(!aligner.has_index());
    assert_eq!(aligner.threads, 1);
    assert_eq!(aligner.configuration.index_options, engine_reply());
}

#[test]
fn successful_read_installs_the_index() {
    let mut aligner = Aligner::with_preset(Preset::MapOnt, engine_reply()).with_threads(1);
    let request = aligner
        .with_named_index(b"valid.fa".to_vec(), Some(b"test.mmi".to_vec()))
        .unwrap();
    assert_eq!(request.threads, 1);
    aligner.attach_reader(Some(ReaderHandle { raw: 71 })).unwrap();
    let (spent_reader, prior_index) = aligner.complete_read(IndexHandle { raw: 93 });
    assert_eq!(spent_reader, Some(ReaderHandle { raw: 71 }));
    assert_eq!(prior_index, None);
    assert!(aligner.has_index());
    assert_eq!(aligner.configuration.index_options.w, 10);
}

#[test]
fn teardown_surfaces_the_index_exactly_once() {
    let mut aligner = Aligner::from_defaults(engine_reply());
    aligner.attach_reader(Some(ReaderHandle { raw: 5 })).unwrap();
    aligner.complete_read(IndexHandle { raw: 6 });
    assert_eq!(aligner.take_index(), Some(IndexHandle { raw: 6 }));
    assert_eq!(aligner.take_index(), None);
    assert!(!aligner.has_index());
    assert_eq!(aligner.take_reader(), None);
}

#[test]
fn teardown_of_an_empty_aligner_surfaces_nothing() {
    let mut aligner = Aligner::from_defaults(engine_reply());
    assert_eq!(aligner.take_index(), None);
    assert_eq!(aligner.take_reader(), None);
}

#[test]
fn reopening_surfaces_the_prior_index_for_destruction() {
    let mut aligner = Aligner::from_defaults(engine_reply());
    aligner.attach_reader(Some(ReaderHandle { raw: 1 })).unwrap();
    aligner.complete_read(IndexHandle { raw: 2 });
    assert!(aligner.has_index());
    aligner.attach_reader(Some(ReaderHandle { raw: 3 })).unwrap();
    let (spent_reader, prior_index) = aligner.complete_read(IndexHandle { raw: 4 });
    assert_eq!(spent_reader, Some(ReaderHandle { raw: 3 }));
    assert_eq!(prior_index, Some(IndexHandle { raw: 2 }));
    assert!(aligner.has_index());
}

#[test]
fn sequence_request_carries_the_build_parameters() {
    let aligner = Aligner::with_preset(Preset::MapOnt, engine_reply());
    let request = aligner.with_seq(b"ACGTACGT".to_vec()).unwrap();
    assert_eq!(request.seq, b"ACGTACGT".to_vec());
    assert_eq!(request.k, 15);
    assert_eq!(request.w, 10);
    assert_eq!(request.flag, 0);
    assert_eq!(request.bucket_bits, 14);
}

#[test]
fn nul_in_sequence_is_rejected() {
    let aligner = Aligner::from_defaults(engine_reply());
    let result = aligner.with_seq(b"AC\0GT".to_vec());
    assert_eq!(result.unwrap_err(), Error::InvalidSequence);
}
