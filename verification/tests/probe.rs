use hwcodec::common::{AdapterDesc, DataFormat, Driver};
use hwcodec::vram::encode::available;
use hwcodec::vram::inner::{EntryPoint, InnerEncodeContext, Native};
use hwcodec::vram::probe::{collect, ProbeReport, ProbeTask};
use hwcodec::vram::search::{ProbeStep, Prober};
use hwcodec::vram::{DynamicContext, FeatureContext, MAX_ADAPTERS};

fn baseline() -> DynamicContext {
    DynamicContext {
        device: None,
        width: 1920,
        height: 1080,
        kbitrate: 5000,
        framerate: 60,
        gop: 120,
        luid: None,
    }
}

fn inner(api: i32, format: DataFormat) -> InnerEncodeContext {
    InnerEncodeContext { api, format }
}

fn both(api: i32) -> Vec<InnerEncodeContext> {
    vec![inner(api, DataFormat::H264), inner(api, DataFormat::H265)]
}

fn report(status: i32, desc_count: i32, luids: &[i64]) -> Option<ProbeReport> {
    let mut descs = [AdapterDesc { luid: 0 }; MAX_ADAPTERS];
    for (i, luid) in luids.iter().enumerate() {
        descs[i].luid = *luid;
    }
    Some(ProbeReport { status, desc_count, descs })
}

fn found(luids: &[i64]) -> Option<ProbeReport> {
    report(0, luids.len() as i32, luids)
}

fn context(driver: Driver, api: i32, data_format: DataFormat, luid: i64) -> FeatureContext {
    FeatureContext { driver, api, data_format, luid }
}

fn next(step: ProbeStep) -> Prober {
    match step {
        ProbeStep::Probe(prober) => prober,
        ProbeStep::Done(_) => panic!("the search ended early"),
    }
}

fn done(step: ProbeStep) -> Vec<FeatureContext> {
    match step {
        ProbeStep::Probe(_) => panic!("the search did not end"),
        ProbeStep::Done(found) => found,
    }
}

fn run(
    nv: Vec<InnerEncodeContext>,
    amf: Vec<InnerEncodeContext>,
    mfx: Vec<InnerEncodeContext>,
    ffmpeg: Vec<InnerEncodeContext>,
    hardware: Vec<Option<ProbeReport>>,
    h264: Vec<Option<ProbeReport>>,
    h265: Vec<Option<ProbeReport>>,
) -> Vec<FeatureContext> {
    let first = available(baseline(), nv, amf, mfx, ffmpeg);
    let second = next(first.advance(hardware));
    let third = next(second.advance(h264));
    done(third.advance(h265))
}

#[test]
fn nothing_built_gives_an_empty_list() {
    let first = available(baseline(), vec![], vec![], vec![], vec![]);
    assert!(first.batch().tasks.is_empty());
    let second = next(first.advance(vec![]));
    assert!(second.batch().tasks.is_empty());
    let third = next(second.advance(vec![]));
    assert!(third.batch().tasks.is_empty());
    assert_eq!(done(third.advance(vec![])), vec![]);
}

#[test]
fn nothing_built_ignores_stray_reports() {
    let all = run(
        vec![],
        vec![],
        vec![],
        vec![],
        vec![found(&[1, 2])],
        vec![found(&[3])],
        vec![found(&[4])],
    );
    assert_eq!(all, vec![]);
}

#[test]
fn first_batch_tries_every_hardware_format_with_an_empty_range() {
    let prober = available(
        baseline(),
        both(0),
        vec![inner(7, DataFormat::H265)],
        both(2),
        both(5),
    );
    let batch = prober.batch();
    let task = |driver: Driver, api: i32, data_format: i32, serialized: bool| ProbeTask {
        entry: EntryPoint { driver, function: Native::TestEncode },
        serialized,
        api,
        data_format,
    };
    assert_eq!(
        batch.tasks,
        vec![
            task(Driver::NV, 0, 0, true),
            task(Driver::NV, 0, 1, true),
            task(Driver::AMF, 7, 1, false),
            task(Driver::MFX, 2, 0, false),
            task(Driver::MFX, 2, 1, false),
        ]
    );
    assert_eq!(batch.luid_range, Vec::<i64>::new());
    assert_eq!(batch.max_count, 16);
    assert_eq!(batch.width, 1920);
    assert_eq!(batch.height, 1080);
    assert_eq!(batch.kbitrate, 5000);
    assert_eq!(batch.framerate, 60);
    assert_eq!(batch.gop, 120);
}

#[test]
fn only_the_first_backend_and_the_fallback_are_serialized() {
    assert!(Driver::NV.requires_serialization());
    assert!(Driver::FFMPEG.requires_serialization());
    assert!(!Driver::AMF.requires_serialization());
    assert!(!Driver::MFX.requires_serialization());
    let first = available(baseline(), both(0), both(0), both(0), both(0));
    for task in first.batch().tasks {
        assert_eq!(task.serialized, task.entry.driver == Driver::NV);
    }
    let second = next(first.advance(vec![]));
    let batch = second.batch();
    assert_eq!(batch.tasks.len(), 1);
    assert!(batch.tasks[0].serialized);
    assert_eq!(batch.tasks[0].entry.driver, Driver::FFMPEG);
}

#[test]
fn each_reported_adapter_becomes_a_context() {
    let all = run(
        both(0),
        vec![inner(1, DataFormat::H264)],
        vec![],
        vec![],
        vec![found(&[11, 12]), found(&[]), found(&[13])],
        vec![],
        vec![],
    );
    assert_eq!(
        all,
        vec![
            context(Driver::NV, 0, DataFormat::H264, 11),
            context(Driver::NV, 0, DataFormat::H264, 12),
            context(Driver::AMF, 1, DataFormat::H264, 13),
        ]
    );
}

#[test]
fn no_returned_context_is_unresolved() {
    let all = run(
        both(0),
        both(0),
        both(0),
        both(0),
        vec![found(&[1]), found(&[2, 3]), None, found(&[4]), report(1, 1, &[5]), found(&[-6])],
        vec![found(&[1, 4])],
        vec![found(&[2])],
    );
    assert_eq!(all.len(), 8);
    for e in all {
        assert!(e.is_resolved());
        assert!(e.luid != 0);
    }
    assert!(!context(Driver::NV, 0, DataFormat::H264, 0).is_resolved());
}

#[test]
fn count_over_the_buffer_size_discards_the_whole_report() {
    let luids: Vec<i64> = (1..=16).collect();
    let all = run(
        both(0),
        vec![],
        vec![],
        vec![],
        vec![report(0, 17, &luids), found(&[99])],
        vec![],
        vec![],
    );
    assert_eq!(all, vec![context(Driver::NV, 0, DataFormat::H265, 99)]);
    let all = run(
        both(0),
        vec![],
        vec![],
        vec![],
        vec![report(0, i32::MAX, &luids)],
        vec![],
        vec![],
    );
    assert_eq!(all, vec![]);
}

#[test]
fn count_equal_to_the_buffer_size_is_accepted() {
    let luids: Vec<i64> = (101..=116).collect();
    let all = run(
        vec![inner(0, DataFormat::H264)],
        vec![],
        vec![],
        vec![],
        vec![report(0, 16, &luids)],
        vec![],
        vec![],
    );
    assert_eq!(all.len(), 16);
    for (i, e) in all.iter().enumerate() {
        assert_eq!(*e, context(Driver::NV, 0, DataFormat::H264, 101 + i as i64));
    }
    assert!(report(0, 16, &luids).unwrap().accepted());
    assert!(!report(0, 17, &luids).unwrap().accepted());
}

#[test]
fn negative_count_discards_the_report() {
    let all = run(
        vec![inner(0, DataFormat::H264)],
        vec![],
        vec![],
        vec![],
        vec![report(0, -1, &[5])],
        vec![],
        vec![],
    );
    assert_eq!(all, vec![]);
    assert!(!report(0, i32::MIN, &[5]).unwrap().accepted());
}

#[test]
fn failed_probe_supports_nothing() {
    let all = run(
        both(0),
        vec![],
        vec![],
        vec![],
        vec![report(-1, 2, &[5, 6]), report(3, 1, &[7])],
        vec![],
        vec![],
    );
    assert_eq!(all, vec![]);
}

#[test]
fn probe_that_did_not_finish_does_not_stop_the_others() {
    let all = run(
        both(0),
        both(1),
        vec![],
        vec![],
        vec![None, found(&[2]), None, found(&[4])],
        vec![],
        vec![],
    );
    assert_eq!(
        all,
        vec![
            context(Driver::NV, 0, DataFormat::H265, 2),
            context(Driver::AMF, 1, DataFormat::H265, 4),
        ]
    );
}

#[test]
fn missing_reports_count_as_unfinished_and_extra_ones_are_not_read() {
    let all = run(both(0), vec![], vec![], vec![], vec![found(&[1])], vec![], vec![]);
    assert_eq!(all, vec![context(Driver::NV, 0, DataFormat::H264, 1)]);
    let all = run(
        vec![inner(0, DataFormat::H264)],
        vec![],
        vec![],
        vec![],
        vec![found(&[1]), found(&[2]), found(&[3])],
        vec![],
        vec![],
    );
    assert_eq!(all, vec![context(Driver::NV, 0, DataFormat::H264, 1)]);
}

#[test]
fn only_the_counted_descriptors_are_read() {
    let all = run(
        vec![inner(0, DataFormat::H264)],
        vec![],
        vec![],
        vec![],
        vec![report(0, 1, &[8, 9, 10])],
        vec![],
        vec![],
    );
    assert_eq!(all, vec![context(Driver::NV, 0, DataFormat::H264, 8)]);
}

#[test]
fn fallback_is_handed_the_adapters_found_for_its_format() {
    let first = available(
        baseline(),
        both(0),
        both(0),
        vec![],
        vec![
            inner(3, DataFormat::H265),
            inner(4, DataFormat::H264),
            inner(5, DataFormat::H264),
        ],
    );
    let second = next(first.advance(vec![
        found(&[10]),
        found(&[20, 21]),
        found(&[11]),
        found(&[]),
    ]));
    let batch = second.batch();
    assert_eq!(batch.luid_range, vec![10, 11]);
    assert_eq!(
        batch.tasks,
        vec![
            ProbeTask {
                entry: EntryPoint { driver: Driver::FFMPEG, function: Native::TestEncode },
                serialized: true,
                api: 4,
                data_format: 0,
            },
            ProbeTask {
                entry: EntryPoint { driver: Driver::FFMPEG, function: Native::TestEncode },
                serialized: true,
                api: 5,
                data_format: 0,
            },
        ]
    );
    assert_eq!(batch.width, 1920);
    let third = next(second.advance(vec![found(&[10]), found(&[11, 10])]));
    let batch = third.batch();
    // What the fallback found for H.264 adds nothing to the range for H.265.
    assert_eq!(batch.luid_range, vec![20, 21]);
    assert_eq!(batch.tasks.len(), 1);
    assert_eq!(batch.tasks[0].api, 3);
    assert_eq!(batch.tasks[0].data_format, 1);
    let all = done(third.advance(vec![found(&[21])]));
    assert_eq!(
        all,
        vec![
            context(Driver::NV, 0, DataFormat::H264, 10),
            context(Driver::NV, 0, DataFormat::H265, 20),
            context(Driver::NV, 0, DataFormat::H265, 21),
            context(Driver::AMF, 0, DataFormat::H264, 11),
            context(Driver::FFMPEG, 4, DataFormat::H264, 10),
            context(Driver::FFMPEG, 5, DataFormat::H264, 11),
            context(Driver::FFMPEG, 5, DataFormat::H264, 10),
            context(Driver::FFMPEG, 3, DataFormat::H265, 21),
        ]
    );
}

#[test]
fn fallback_is_probed_even_where_no_hardware_was_found() {
    let first = available(baseline(), vec![], vec![], vec![], both(0));
    let second = next(first.advance(vec![]));
    let batch = second.batch();
    assert_eq!(batch.tasks.len(), 1);
    assert!(batch.luid_range.is_empty());
    let third = next(second.advance(vec![found(&[5])]));
    assert!(third.batch().luid_range.is_empty());
    let all = done(third.advance(vec![None]));
    assert_eq!(all, vec![context(Driver::FFMPEG, 0, DataFormat::H264, 5)]);
}

#[test]
fn one_adapter_found_twice_is_listed_twice_in_the_range() {
    let first = available(baseline(), both(0), vec![], both(0), both(0));
    let second = next(first.advance(vec![found(&[1]), None, found(&[1]), None]));
    assert_eq!(second.batch().luid_range, vec![1, 1]);
}

#[test]
fn collect_appends_in_the_order_of_the_probes() {
    let mut all = vec![context(Driver::MFX, 9, DataFormat::H265, 77)];
    let inputs = vec![
        context(Driver::NV, 0, DataFormat::H264, 0),
        context(Driver::AMF, 1, DataFormat::H265, 0),
    ];
    collect(&mut all, &inputs, &vec![found(&[3, 1]), found(&[2])]);
    assert_eq!(
        all,
        vec![
            context(Driver::MFX, 9, DataFormat::H265, 77),
            context(Driver::NV, 0, DataFormat::H264, 3),
            context(Driver::NV, 0, DataFormat::H264, 1),
            context(Driver::AMF, 1, DataFormat::H265, 2),
        ]
    );
}

#[test]
fn adapter_reported_as_zero_is_not_returned() {
    let mut all = vec![];
    let inputs = vec![context(Driver::NV, 0, DataFormat::H264, 0)];
    collect(&mut all, &inputs, &vec![found(&[0])]);
    assert_eq!(all, vec![]);
    let all = run(
        vec![inner(0, DataFormat::H264)],
        vec![],
        vec![],
        vec![],
        vec![found(&[0])],
        vec![],
        vec![],
    );
    assert_eq!(all, vec![]);
}

#[test]
fn adapter_zero_among_others_is_skipped_and_the_others_are_kept() {
    let all = run(
        both(0),
        vec![inner(1, DataFormat::H264)],
        vec![],
        both(2),
        vec![found(&[0, 5, 0, 6]), found(&[7, 0]), found(&[0, 0, 0])],
        vec![found(&[0, 5]), found(&[9])],
        vec![found(&[0])],
    );
    assert_eq!(
        all,
        vec![
            context(Driver::NV, 0, DataFormat::H264, 5),
            context(Driver::NV, 0, DataFormat::H264, 6),
            context(Driver::NV, 0, DataFormat::H265, 7),
            context(Driver::FFMPEG, 2, DataFormat::H264, 5),
        ]
    );
    for e in all {
        assert!(e.is_resolved());
    }
}

#[test]
fn adapter_zero_does_not_enter_the_range_of_the_fallback() {
    let first = available(baseline(), both(0), vec![], vec![], both(0));
    let second = next(first.advance(vec![found(&[0, 3, 0]), found(&[0])]));
    assert_eq!(second.batch().luid_range, vec![3]);
    let third = next(second.advance(vec![found(&[0])]));
    assert_eq!(third.batch().luid_range, Vec::<i64>::new());
    assert_eq!(
        done(third.advance(vec![None])),
        vec![context(Driver::NV, 0, DataFormat::H264, 3)]
    );
}

#[test]
fn a_full_buffer_of_zeros_is_believed_and_finds_nothing() {
    let zeros = [0i64; 16];
    assert!(report(0, 16, &zeros).unwrap().accepted());
    let all = run(
        vec![inner(0, DataFormat::H264)],
        vec![],
        vec![],
        vec![],
        vec![report(0, 16, &zeros)],
        vec![],
        vec![],
    );
    assert_eq!(all, vec![]);
}

#[test]
fn backend_built_for_nothing_contributes_no_probe() {
    let prober = available(baseline(), vec![], both(4), vec![], vec![]);
    let batch = prober.batch();
    assert_eq!(batch.tasks.len(), 2);
    for task in batch.tasks {
        assert_eq!(task.entry.driver, Driver::AMF);
        assert_eq!(task.api, 4);
    }
    let second = next(prober.advance(vec![found(&[1]), found(&[2])]));
    assert!(second.batch().tasks.is_empty());
    assert_eq!(second.batch().luid_range, vec![1]);
}
