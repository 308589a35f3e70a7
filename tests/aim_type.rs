use osu_pplus::aim_type::AimType;

#[test]
fn aim_type_components() {
    assert!(AimType::All.includes_jump() && AimType::All.includes_flow());
    assert!(AimType::All.has_small_circle_bonus());
    assert!(!AimType::Flow.includes_jump() && AimType::Flow.includes_flow());
    assert!(AimType::Flow.has_small_circle_bonus());
    assert!(AimType::Jump.includes_jump() && !AimType::Jump.includes_flow());
    assert!(AimType::Jump.has_small_circle_bonus());
    assert!(AimType::Raw.includes_jump() && AimType::Raw.includes_flow());
    assert!(!AimType::Raw.has_small_circle_bonus());
}
