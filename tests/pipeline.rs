use rust_worker::error::JobError;
use rust_worker::job::TaskPlan;
use rust_worker::pipeline::{pipeline_shape, Action, Event, Phase, Pipeline, PipelineShape};

fn transcode_shape() -> PipelineShape {
    pipeline_shape(&TaskPlan::Transcode { bitrate: 1_000_000, codec: "libx265".to_string() }).unwrap()
}

#[test]
fn transcode_run_follows_setup_drain_flush_finalize() {
    let mut p = Pipeline::new(transcode_shape());
    assert_eq!(p.pending, Action::OpenInput { source: 0 });
    assert_eq!(p.step(Event::Completed), Action::SelectStream { source: 0 });
    assert_eq!(p.phase, Phase::Configuring);
    assert_eq!(p.step(Event::Selected { stream: 1 }), Action::OpenDecoder { source: 0 });
    assert_eq!(p.step(Event::Completed), Action::OpenEncoder);
    assert_eq!(p.step(Event::Completed), Action::CreateOutput);
    assert_eq!(p.step(Event::Completed), Action::WriteHeader);
    assert!(p.output_created);
    assert_eq!(p.step(Event::Completed), Action::ReadPacket { source: 0 });
    assert_eq!(p.phase, Phase::Draining);
    // a packet of another stream is skipped
    assert_eq!(p.step(Event::Packet { stream: 0 }), Action::ReadPacket { source: 0 });
    assert_eq!(p.step(Event::Packet { stream: 1 }), Action::Decode { source: 0 });
    assert_eq!(p.step(Event::Completed), Action::ReadPacket { source: 0 });
    assert_eq!(p.step(Event::EndOfInput), Action::FlushDecoder { source: 0 });
    assert_eq!(p.phase, Phase::Flushing);
    assert_eq!(p.step(Event::Completed), Action::FlushEncoder);
    assert_eq!(p.step(Event::Completed), Action::WriteTrailer);
    assert_eq!(p.phase, Phase::Finalizing);
    assert_eq!(p.step(Event::Completed), Action::Close);
    assert_eq!(p.step(Event::Completed), Action::Finished);
    assert_eq!(p.phase, Phase::Done);
    assert!(p.error.is_none());
}

#[test]
fn missing_stream_fails_before_any_output() {
    let mut p = Pipeline::new(transcode_shape());
    p.step(Event::Completed);
    assert_eq!(p.step(Event::Error(JobError::StreamNotFound)), Action::Abort { remove_output: false });
    assert_eq!(p.phase, Phase::Failed);
    assert!(!p.output_created);
    assert_eq!(p.error, Some(JobError::StreamNotFound));
    assert_eq!(p.step(Event::Completed), Action::Finished);
    assert_eq!(p.phase, Phase::Failed);
}

#[test]
fn configuring_failures_leave_no_output() {
    // fail at each configuring step in turn
    let answers = [
        Event::Completed,
        Event::Selected { stream: 0 },
        Event::Completed,
        Event::Completed,
        Event::Completed,
    ];
    for fail_at in 1..=answers.len() {
        let mut p = Pipeline::new(transcode_shape());
        for e in answers.iter().take(fail_at) {
            p.step(*e);
        }
        let was_header = p.pending == Action::WriteHeader || p.pending == Action::CreateOutput;
        let a = p.step(Event::Error(JobError::UnsupportedCodec));
        assert_eq!(a, Action::Abort { remove_output: was_header });
        assert!(!p.output_created);
    }
}

#[test]
fn unexpected_event_fails_the_job() {
    let mut p = Pipeline::new(transcode_shape());
    assert_eq!(p.step(Event::EndOfInput), Action::Abort { remove_output: false });
    assert_eq!(p.error, Some(JobError::UnexpectedEvent));
}

#[test]
fn mix_of_three_sources_concatenates_in_order() {
    let inputs = vec!["a.wav".to_string(), "b.wav".to_string(), "c.wav".to_string()];
    let shape = pipeline_shape(&TaskPlan::Mix { inputs }).unwrap();
    assert_eq!(shape.sources, 3);
    let mut p = Pipeline::new(shape);
    let mut a = p.pending;
    let packets = [4usize, 2, 3];
    let mut decoded = [0usize; 3];
    let mut remaining = packets;
    let mut log = Vec::new();
    let mut steps = 0;
    while a != Action::Finished {
        steps += 1;
        assert!(steps < 1000);
        log.push(a);
        let e = match a {
            Action::SelectStream { source } => Event::Selected { stream: source + 10 },
            Action::ReadPacket { source } => {
                if remaining[source] > 0 {
                    remaining[source] -= 1;
                    Event::Packet { stream: source + 10 }
                } else {
                    Event::EndOfInput
                }
            }
            Action::Decode { source } => {
                decoded[source] += 1;
                Event::Completed
            }
            _ => Event::Completed,
        };
        a = p.step(e);
    }
    assert_eq!(p.phase, Phase::Done);
    // every packet of every source reaches the one encoder: the output holds their sum
    assert_eq!(decoded, packets);
    assert_eq!(log.iter().filter(|x| **x == Action::CreateOutput).count(), 1);
    assert_eq!(log.iter().filter(|x| **x == Action::WriteTrailer).count(), 1);
    // sources are drained one after another
    let flushes: Vec<usize> = log
        .iter()
        .enumerate()
        .filter_map(|(i, x)| matches!(x, Action::FlushDecoder { .. }).then_some(i))
        .collect();
    assert_eq!(flushes.len(), 3);
    let first_read_of = |s: usize| log.iter().position(|x| *x == Action::ReadPacket { source: s }).unwrap();
    assert!(flushes[0] < first_read_of(1));
    assert!(flushes[1] < first_read_of(2));
    let encoder_flush = log.iter().position(|x| *x == Action::FlushEncoder).unwrap();
    assert!(flushes[2] < encoder_flush);
}

#[test]
fn resample_flushes_transform_before_encoder() {
    let shape = pipeline_shape(&TaskPlan::Resample { sample_rate: 48000 }).unwrap();
    let mut p = Pipeline::new(shape);
    p.step(Event::Completed);
    p.step(Event::Selected { stream: 0 });
    assert_eq!(p.step(Event::Completed), Action::SetUpTransform);
    assert_eq!(p.step(Event::Completed), Action::OpenEncoder);
    p.step(Event::Completed);
    p.step(Event::Completed);
    assert_eq!(p.step(Event::Completed), Action::ReadPacket { source: 0 });
    assert_eq!(p.step(Event::EndOfInput), Action::FlushDecoder { source: 0 });
    assert_eq!(p.step(Event::Completed), Action::FlushTransform);
    assert_eq!(p.step(Event::Completed), Action::FlushEncoder);
    // a failure after the output exists asks for its removal
    assert_eq!(p.step(Event::Error(JobError::EncodeFailed)), Action::Abort { remove_output: true });
    assert!(!p.output_created);
}

#[test]
fn report_tasks_write_their_report_last() {
    let shape = pipeline_shape(&TaskPlan::SceneCuts { threshold_ppm: 300_000 }).unwrap();
    let mut p = Pipeline::new(shape);
    p.step(Event::Completed);
    p.step(Event::Selected { stream: 0 });
    assert_eq!(p.step(Event::Completed), Action::ReadPacket { source: 0 });
    assert_eq!(p.step(Event::EndOfInput), Action::FlushDecoder { source: 0 });
    assert_eq!(p.step(Event::Completed), Action::WriteReport);
    assert_eq!(p.step(Event::Completed), Action::Close);
    let info = pipeline_shape(&TaskPlan::VideoInfo).unwrap();
    let mut q = Pipeline::new(info);
    assert_eq!(q.step(Event::Completed), Action::WriteReport);
    assert!(pipeline_shape(&TaskPlan::Utility(rust_worker::task::TaskKind::CalculateSha256)).is_none());
}
