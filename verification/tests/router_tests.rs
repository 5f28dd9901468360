use payload_router::recipe::Stage;
use payload_router::router::BranchRouter;
use payload_router::router::TIMELINE_OFFSET_NS;

#[test]
fn first_sight_of_a_payload_type_builds_exactly_one_branch() {
    let mut router = BranchRouter::new();
    let codec = b"H264".to_vec();
    let first = router.on_new_payload_type(96, &codec);
    let second = router.on_new_payload_type(96, &codec);
    let third = router.on_new_payload_type(96, &codec);
    assert!(first.is_some());
    assert!(second.is_none());
    assert!(third.is_none());
    let plan = first.unwrap();
    assert_eq!(plan.payload_type, 96);
    assert_eq!(plan.recipe.stages.len(), 5);
    assert_eq!(plan.recipe.stages[0], Stage::RtpH264Depay);
    assert_eq!(plan.timeline_offset_ns, TIMELINE_OFFSET_NS);
}

#[test]
fn distinct_payload_types_get_their_own_branches() {
    let mut router = BranchRouter::new();
    let video = router.on_new_payload_type(96, &b"H264".to_vec());
    let audio = router.on_new_payload_type(111, &b"OPUS".to_vec());
    assert!(video.is_some());
    assert!(audio.is_some());
    assert_eq!(video.unwrap().payload_type, 96);
    assert_eq!(audio.unwrap().payload_type, 111);
}

#[test]
fn unknown_codec_plans_a_discard_branch_without_error() {
    let mut router = BranchRouter::new();
    let plan = router.on_new_payload_type(97, &b"XYZ".to_vec()).unwrap();
    assert_eq!(plan.recipe.stages, vec![Stage::Discard]);
    assert_eq!(plan.recipe.sink_stage, 0);
    assert_eq!(plan.timeline_offset_ns, TIMELINE_OFFSET_NS);
}

#[test]
fn construction_failure_degrades_to_a_discard_branch() {
    let plan = BranchRouter::fallback_plan(96);
    assert_eq!(plan.payload_type, 96);
    assert_eq!(plan.recipe.stages, vec![Stage::Discard]);
    assert_eq!(plan.timeline_offset_ns, TIMELINE_OFFSET_NS);
}

#[test]
fn timeline_offset_is_the_documented_policy_constant() {
    assert_eq!(TIMELINE_OFFSET_NS, 1_000_000_000);
}
