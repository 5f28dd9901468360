use payload_router::recipe::lookup_recipe;
use payload_router::recipe::Stage;

#[test]
fn h264_selects_the_presentation_chain() {
    let r = lookup_recipe(&b"H264".to_vec());
    assert_eq!(
        r.stages,
        vec![
            Stage::RtpH264Depay,
            Stage::H264ParseUpdateTimecode,
            Stage::VaapiDecode,
            Stage::VideoConvert,
            Stage::AutoVideoSink,
        ]
    );
    assert_eq!(r.sink_stage, 0);
}

#[test]
fn lookup_is_case_insensitive() {
    let lower = lookup_recipe(&b"h264".to_vec());
    let upper = lookup_recipe(&b"H264".to_vec());
    assert_eq!(lower.stages, upper.stages);
    assert_eq!(lower.stages.len(), 5);
}

#[test]
fn unknown_codec_falls_back_to_discard() {
    let r = lookup_recipe(&b"XYZ".to_vec());
    assert_eq!(r.stages, vec![Stage::Discard]);
    assert_eq!(r.sink_stage, 0);
}

#[test]
fn empty_codec_name_falls_back_to_discard() {
    let r = lookup_recipe(&Vec::new());
    assert_eq!(r.stages, vec![Stage::Discard]);
}

#[test]
fn near_miss_codec_names_fall_back_to_discard() {
    assert_eq!(lookup_recipe(&b"H26".to_vec()).stages, vec![Stage::Discard]);
    assert_eq!(lookup_recipe(&b"H265".to_vec()).stages, vec![Stage::Discard]);
    assert_eq!(lookup_recipe(&b"H2644".to_vec()).stages, vec![Stage::Discard]);
}
