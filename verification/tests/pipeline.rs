use transcriber::audio::{resample_plan, validate_duration};
use transcriber::errors::{
    AudioError, ExitCode, ModelError, OutputError, PipelineError, TranscriptionError,
};
use transcriber::logging::{console_filter_directive, verbosity_from_flags, Verbosity};
use transcriber::model::{
    backoff_delay_secs, cached_size_acceptable, first_source, legacy_model_filename,
    min_model_size, model_filename, model_url, next_source, run_retry_schedule, AttemptOutcome,
    ModelSource, validate_downloaded_size,
};
use transcriber::output::render_transcript;
use transcriber::transcribe::{filter_segments, inference_config, RawSegment, Segment};

// ── Audio validation ────────────────────────────────────────────────

#[test]
fn empty_audio_rejected() {
    assert!(matches!(validate_duration(0), Err(AudioError::EmptyAudio)));
}

#[test]
fn short_audio_rejected_below_half_second() {
    assert!(matches!(
        validate_duration(7_999),
        Err(AudioError::TooShort { samples: 7_999 })
    ));
}

#[test]
fn half_second_accepted_with_quality_warning() {
    // Exactly 0.5 s is accepted; under 1 s raises the warning flag.
    assert_eq!(validate_duration(8_000).unwrap(), true);
    assert_eq!(validate_duration(16_000).unwrap(), false);
}

#[test]
fn four_hours_accepted_but_no_more() {
    let four_hours = 4 * 3600 * 16_000;
    assert_eq!(validate_duration(four_hours).unwrap(), false);
    assert!(matches!(
        validate_duration(four_hours + 1),
        Err(AudioError::TooLong { .. })
    ));
}

// ── Resampling plan ─────────────────────────────────────────────────

#[test]
fn resample_length_is_ceiling() {
    // One second at 44.1 kHz maps to exactly 16000 output samples.
    let plan = resample_plan(44_100, 44_100, 16_000);
    assert_eq!(plan.len(), 16_000);
    // ceil(10 * 3 / 4) == 8.
    let plan = resample_plan(10, 4, 3);
    assert_eq!(plan.len(), 8);
    let idx: Vec<usize> = plan.iter().map(|p| p.idx).collect();
    let frac: Vec<u64> = plan.iter().map(|p| p.frac_num).collect();
    assert_eq!(idx, vec![0, 1, 2, 4, 5, 6, 8, 9]);
    assert_eq!(frac, vec![0, 1, 2, 0, 1, 2, 0, 1]);
}

#[test]
fn resample_equal_rates_is_identity() {
    let plan = resample_plan(5, 16_000, 16_000);
    assert_eq!(plan.len(), 5);
    for (i, p) in plan.iter().enumerate() {
        assert_eq!(p.idx, i);
        assert_eq!(p.frac_num, 0);
    }
}

// ── Model provisioning ──────────────────────────────────────────────

#[test]
fn model_names_and_url() {
    assert_eq!(model_filename("medium"), "ggml-medium.bin");
    assert_eq!(legacy_model_filename(), "model.bin");
    assert_eq!(
        model_url("tiny"),
        "https://huggingface.co/ggerganov/whisper.cpp/resolve/main/ggml-tiny.bin"
    );
}

#[test]
fn min_sizes_by_variant() {
    assert_eq!(min_model_size("tiny"), 50_000_000);
    assert_eq!(min_model_size("base"), 100_000_000);
    assert_eq!(min_model_size("small"), 300_000_000);
    assert_eq!(min_model_size("medium"), 1_000_000_000);
    assert_eq!(min_model_size("large-v3"), 2_000_000_000);
    assert_eq!(min_model_size("other"), 0);
}

#[test]
fn resolution_order_is_fixed() {
    let s = first_source();
    assert_eq!(s, ModelSource::Bundled);
    assert_eq!(next_source(s), Some(ModelSource::BundledLegacy));
    assert_eq!(
        next_source(ModelSource::BundledLegacy),
        Some(ModelSource::Cache)
    );
    assert_eq!(next_source(ModelSource::Cache), Some(ModelSource::Download));
    assert_eq!(next_source(ModelSource::Download), None);
}

#[test]
fn undersized_cache_is_never_accepted() {
    assert!(!cached_size_acceptable(49_999_999, "tiny"));
    assert!(cached_size_acceptable(50_000_000, "tiny"));
    // A variant without a threshold accepts any size.
    assert!(cached_size_acceptable(1, "other"));
}

#[test]
fn undersized_download_rejected_before_rename() {
    match validate_downloaded_size(10, "base") {
        Err(ModelError::FileTooSmall {
            size,
            expected,
            model,
        }) => {
            assert_eq!(size, 10);
            assert_eq!(expected, 100_000_000);
            assert_eq!(model, "base");
        }
        other => panic!("expected FileTooSmall, got {other:?}"),
    }
    assert!(validate_downloaded_size(100_000_000, "base").is_ok());
}

#[test]
fn backoff_schedule() {
    assert_eq!(backoff_delay_secs(1), 1);
    assert_eq!(backoff_delay_secs(2), 2);
    assert_eq!(backoff_delay_secs(3), 4);
    assert_eq!(backoff_delay_secs(7), 4);
}

#[test]
fn retry_fails_twice_then_succeeds() {
    let outcomes = vec![
        AttemptOutcome::Failure {
            reason: String::from("connection reset"),
        },
        AttemptOutcome::Failure {
            reason: String::from("connection reset"),
        },
        AttemptOutcome::Success,
    ];
    let report = run_retry_schedule(&outcomes);
    assert_eq!(report.attempts, 3);
    assert_eq!(report.delays, vec![1, 2]);
    assert!(report.failure.is_none());
}

#[test]
fn retry_exhausts_with_last_reason() {
    let outcomes = vec![
        AttemptOutcome::Failure {
            reason: String::from("timeout"),
        },
        AttemptOutcome::Failure {
            reason: String::from("http 503"),
        },
        AttemptOutcome::Failure {
            reason: String::from("http 500"),
        },
    ];
    let report = run_retry_schedule(&outcomes);
    assert_eq!(report.attempts, 3);
    assert_eq!(report.delays, vec![1, 2]);
    match report.failure {
        Some(ModelError::DownloadFailed { attempts, reason }) => {
            assert_eq!(attempts, 3);
            assert_eq!(reason, "http 500");
        }
        other => panic!("expected DownloadFailed, got {other:?}"),
    }
}

#[test]
fn retry_stops_at_first_success() {
    let outcomes = vec![
        AttemptOutcome::Success,
        AttemptOutcome::Failure {
            reason: String::from("unused"),
        },
        AttemptOutcome::Failure {
            reason: String::from("unused"),
        },
    ];
    let report = run_retry_schedule(&outcomes);
    assert_eq!(report.attempts, 1);
    assert!(report.delays.is_empty());
    assert!(report.failure.is_none());
}

// ── Transcription ───────────────────────────────────────────────────

#[test]
fn inference_parameters_are_fixed() {
    let c = inference_config(8);
    assert_eq!(c.beam_size, 5);
    assert_eq!(c.patience_milli, -1000);
    assert_eq!(c.language, "tr");
    assert!(!c.translate);
    assert!(!c.print_special);
    assert!(!c.print_progress);
    assert!(!c.print_realtime);
    assert!(!c.print_timestamps);
    assert_eq!(c.no_speech_threshold_milli, 600);
    assert_eq!(c.n_threads, 8);
}

#[test]
fn segment_filtering_drops_and_counts() {
    let raw = vec![
        RawSegment {
            start_cs: -100,
            end_cs: 200,
            text: String::from("negative start"),
        },
        RawSegment {
            start_cs: 300,
            end_cs: 100,
            text: String::from("inverted"),
        },
        RawSegment {
            start_cs: 0,
            end_cs: 50,
            text: String::from("   "),
        },
        RawSegment {
            start_cs: 100,
            end_cs: 400,
            text: String::from("  Merhaba  "),
        },
        RawSegment {
            start_cs: 400,
            end_cs: 900,
            text: String::from("dünya"),
        },
    ];
    let (kept, skipped) = filter_segments(&raw);
    assert_eq!(skipped, 3);
    assert_eq!(kept.len(), 2);
    assert_eq!(kept[0].start_cs, 100);
    assert_eq!(kept[0].end_cs, 400);
    assert_eq!(kept[0].text, "Merhaba");
    assert_eq!(kept[1].start_cs, 400);
    assert_eq!(kept[1].end_cs, 900);
    assert_eq!(kept[1].text, "dünya");
}

// ── Output rendering ────────────────────────────────────────────────

#[test]
fn empty_segments_yield_sentinel() {
    let segments: Vec<Segment> = Vec::new();
    let out = render_transcript("audio.mp3", "medium", 123, &segments);
    assert_eq!(out, "No speech detected in the audio.\n");
}

#[test]
fn transcript_layout_and_timestamps() {
    let segments = vec![
        Segment {
            start_cs: 0,
            end_cs: 12_500,
            text: String::from("Birinci bölüm"),
        },
        Segment {
            start_cs: 12_500,
            end_cs: 20_000,
            text: String::from("ikinci bölüm"),
        },
    ];
    let out = render_transcript("konuşma.mp3", "medium", 123, &segments);
    let expected = "=== TRANSCRIPT (Turkish) ===\n\
                    Source: konuşma.mp3\n\
                    Model: whisper-medium\n\
                    Duration: 12.3s\n\
                    ========================================\n\
                    \n\
                    Birinci bölüm ikinci bölüm\n\
                    \n\
                    === TIMESTAMPED ===\n\
                    \n\
                    [00:00 -> 02:05]  Birinci bölüm\n\
                    [02:05 -> 03:20]  ikinci bölüm\n";
    assert_eq!(out, expected);
}

#[test]
fn long_timestamps_widen_past_two_digits() {
    let segments = vec![Segment {
        start_cs: 720_000,
        end_cs: 726_100,
        text: String::from("son"),
    }];
    let out = render_transcript("a.wav", "tiny", 5, &segments);
    assert!(out.contains("[120:00 -> 121:01]  son\n"));
    assert!(out.contains("Duration: 0.5s\n"));
}

// ── Exit codes ──────────────────────────────────────────────────────

#[test]
fn exit_codes_by_family() {
    assert_eq!(
        ExitCode::from_error(&PipelineError::Audio(AudioError::UnsupportedFormat)),
        ExitCode::AUDIO_INPUT
    );
    assert_eq!(
        ExitCode::from_error(&PipelineError::Audio(AudioError::DecodeError(
            String::from("bad packet")
        ))),
        ExitCode::AUDIO_DECODE
    );
    assert_eq!(
        ExitCode::from_error(&PipelineError::Audio(AudioError::TooShort { samples: 5 })),
        ExitCode::AUDIO_VALIDATION
    );
    assert_eq!(
        ExitCode::from_error(&PipelineError::Model(ModelError::NoCacheDir)),
        ExitCode::MODEL_NOT_FOUND
    );
    assert_eq!(
        ExitCode::from_error(&PipelineError::Model(ModelError::Timeout { seconds: 600 })),
        ExitCode::MODEL_DOWNLOAD
    );
    assert_eq!(
        ExitCode::from_error(&PipelineError::Model(ModelError::FileTooSmall {
            size: 1,
            expected: 2,
            model: String::from("tiny")
        })),
        ExitCode::MODEL_INTEGRITY
    );
    assert_eq!(
        ExitCode::from_error(&PipelineError::Model(ModelError::LoadFailed(String::from(
            "corrupt"
        )))),
        ExitCode::MODEL_LOAD
    );
    assert_eq!(
        ExitCode::from_error(&PipelineError::Transcription(
            TranscriptionError::InferenceFailed
        )),
        ExitCode::TRANSCRIPTION
    );
    assert_eq!(
        ExitCode::from_error(&PipelineError::Output(OutputError::WriteFailed(
            String::from("disk full")
        ))),
        ExitCode::OUTPUT_WRITE
    );
    assert_eq!(
        ExitCode::from_error(&PipelineError::Unknown),
        ExitCode::UNKNOWN
    );
    assert_eq!(ExitCode::SUCCESS, 0);
}

// ── Verbosity ───────────────────────────────────────────────────────

#[test]
fn verbosity_flags_and_filters() {
    assert_eq!(verbosity_from_flags(true, false), Verbosity::Quiet);
    assert_eq!(verbosity_from_flags(true, true), Verbosity::Quiet);
    assert_eq!(verbosity_from_flags(false, true), Verbosity::Verbose);
    assert_eq!(verbosity_from_flags(false, false), Verbosity::Normal);
    assert_eq!(console_filter_directive(Verbosity::Quiet), "error");
    assert_eq!(console_filter_directive(Verbosity::Normal), "info");
    assert_eq!(console_filter_directive(Verbosity::Verbose), "debug");
}
