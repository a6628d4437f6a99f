use pq_analysis::clip::{summarize, ClipSummary};
use pq_analysis::frame::{combine, reduce_partitioned, reduce_range, FrameInfo};
use pq_analysis::pipeline::{percent_complete, Pipeline, PipelineState, Progress, DEFAULT_REPORT_INTERVAL};
use pq_analysis::samples::{clamp_code, luma_codes_from_bytes};
use pq_analysis::CODE_MAX;

#[test]
fn parse_frame_basic() {
    let frame: Vec<u16> = vec![100, 500, 1023];
    let info = FrameInfo::parse_frame(&frame);
    assert_eq!(info.min, 100);
    assert_eq!(info.max, 1023);
    // 1623 / 3 == 541
    assert_eq!(info.avg, 541);
}

#[test]
fn parse_frame_single_sample() {
    let frame: Vec<u16> = vec![7];
    let info = FrameInfo::parse_frame(&frame);
    assert_eq!(info, FrameInfo { max: 7, min: 7, avg: 7 });
}

#[test]
fn parse_frame_average_truncates() {
    let frame: Vec<u16> = vec![1, 2];
    let info = FrameInfo::parse_frame(&frame);
    assert_eq!(info.min, 1);
    assert_eq!(info.max, 2);
    assert_eq!(info.avg, 1);
}

#[test]
fn parse_frame_matches_naive_scan() {
    let mut frame: Vec<u16> = Vec::new();
    let mut x: u32 = 12345;
    for _ in 0..1000 {
        x = x.wrapping_mul(1103515245).wrapping_add(12345);
        frame.push((x % 1024) as u16);
    }
    let mut naive_min = u16::MAX;
    let mut naive_max = 0u16;
    let mut naive_sum = 0u64;
    for &s in &frame {
        naive_min = naive_min.min(s);
        naive_max = naive_max.max(s);
        naive_sum += s as u64;
    }
    let info = FrameInfo::parse_frame(&frame);
    assert_eq!(info.min, naive_min);
    assert_eq!(info.max, naive_max);
    assert_eq!(info.avg, (naive_sum / frame.len() as u64) as u16);
    assert!(info.min <= info.avg && info.avg <= info.max);
}

#[test]
fn reduction_partition_invariance() {
    let mut frame: Vec<u16> = Vec::new();
    let mut x: u32 = 99;
    for _ in 0..23 {
        x = x.wrapping_mul(1103515245).wrapping_add(12345);
        frame.push((x % 1024) as u16);
    }
    let whole = reduce_range(&frame, 0, frame.len());
    for partition_len in [1, 2, 17, 23, 100] {
        let split = reduce_partitioned(&frame, partition_len);
        assert_eq!(split, whole);
    }
}

#[test]
fn combine_joins_adjacent_partitions() {
    let frame: Vec<u16> = vec![9, 1, 1023, 0, 512, 512, 3];
    let whole = reduce_range(&frame, 0, frame.len());
    for cut in 0..=frame.len() {
        let left = reduce_range(&frame, 0, cut);
        let right = reduce_range(&frame, cut, frame.len());
        assert_eq!(combine(left, right), whole);
    }
}

#[test]
fn clip_aggregation() {
    let results = vec![
        FrameInfo { max: 10, avg: 5, min: 1 },
        FrameInfo { max: 20, avg: 15, min: 2 },
        FrameInfo { max: 5, avg: 3, min: 0 },
    ];
    let summary = summarize(&results);
    assert_eq!(summary.maxcll, 20);
    assert_eq!(summary.maxfall, 15);
    // (10 + 20 + 5) / 3 == 11, (5 + 15 + 3) / 3 == 7
    assert_eq!(summary.maxcll_avg, 11);
    assert_eq!(summary.maxfall_avg, 7);
    assert_eq!(summary.max_of_min, 2);
}

#[test]
fn clip_aggregation_ties_report_the_value() {
    let results = vec![
        FrameInfo { max: 20, avg: 4, min: 1 },
        FrameInfo { max: 20, avg: 4, min: 1 },
    ];
    let summary = summarize(&results);
    assert_eq!(
        summary,
        ClipSummary { maxcll: 20, maxcll_avg: 20, maxfall: 4, maxfall_avg: 4, max_of_min: 1 }
    );
}

#[test]
fn end_to_end_constant_frames() {
    let mut p = Pipeline::new(DEFAULT_REPORT_INTERVAL, Some(3));
    p.begin_streaming();
    for code in [100u16, 500, 1023] {
        let frame = vec![code; 64];
        p.process_frame(&frame);
    }
    p.begin_flushing();
    let summary = p.complete();
    assert_eq!(p.state, PipelineState::Completed);
    let results = p.results();
    assert_eq!(results.len(), 3);
    for (i, code) in [100u16, 500, 1023].into_iter().enumerate() {
        assert_eq!(results[i], FrameInfo { max: code, min: code, avg: code });
    }
    assert_eq!(summary.maxcll, CODE_MAX);
    assert_eq!(summary.maxfall, CODE_MAX);
}

#[test]
fn pipeline_states_and_rate_reports() {
    let mut p = Pipeline::new(2, None);
    assert_eq!(p.state, PipelineState::Initialized);
    assert_eq!(p.frame_count, 0);
    p.begin_streaming();
    assert_eq!(p.state, PipelineState::Streaming);
    let frame = vec![10u16, 20];
    assert_eq!(p.process_frame(&frame), Progress::Quiet);
    assert_eq!(p.process_frame(&frame), Progress::Rate { frames: 2 });
    assert_eq!(p.process_frame(&frame), Progress::Quiet);
    p.begin_flushing();
    assert_eq!(p.state, PipelineState::Flushing);
    assert_eq!(p.flush_frame(&frame), Progress::Rate { frames: 2 });
    assert_eq!(p.frame_count, 4);
    let _ = p.complete();
    assert_eq!(p.state, PipelineState::Completed);
    assert_eq!(p.results().len(), 4);
}

#[test]
fn pipeline_percent_reports() {
    let mut p = Pipeline::new(2, Some(4));
    p.begin_streaming();
    let frame = vec![1u16];
    assert_eq!(p.process_frame(&frame), Progress::Quiet);
    assert_eq!(p.process_frame(&frame), Progress::Percent { percent: 50 });
    assert_eq!(p.process_frame(&frame), Progress::Quiet);
    assert_eq!(p.process_frame(&frame), Progress::Percent { percent: 100 });
}

#[test]
fn pipeline_keeps_delivery_order() {
    let mut p = Pipeline::new(100, None);
    p.begin_streaming();
    p.process_frame(&[5u16, 5]);
    p.process_frame(&[900u16]);
    p.process_frame(&[0u16, 1023]);
    let results = p.results();
    assert_eq!(results[0].max, 5);
    assert_eq!(results[1].max, 900);
    assert_eq!(results[2].max, 1023);
}

#[test]
fn percent_complete_values() {
    assert_eq!(percent_complete(0, 100), 0);
    assert_eq!(percent_complete(50, 200), 25);
    assert_eq!(percent_complete(1, 3), 33);
    assert_eq!(percent_complete(200, 200), 100);
    // a hint that undershoots saturates at 100
    assert_eq!(percent_complete(250, 200), 100);
}

#[test]
fn clamp_code_bounds() {
    assert_eq!(clamp_code(0), 0);
    assert_eq!(clamp_code(522), 522);
    assert_eq!(clamp_code(1023), 1023);
    assert_eq!(clamp_code(1024), 1023);
    assert_eq!(clamp_code(u16::MAX), 1023);
}

#[test]
fn luma_codes_little_endian() {
    let bytes: Vec<u8> = vec![0x34, 0x12, 0xFF, 0x03, 0x00, 0x00];
    let codes = luma_codes_from_bytes(&bytes);
    assert_eq!(codes, vec![0x1234, 0x03FF, 0x0000]);
}

#[test]
fn luma_codes_empty_plane() {
    let bytes: Vec<u8> = Vec::new();
    let codes = luma_codes_from_bytes(&bytes);
    assert!(codes.is_empty());
}
