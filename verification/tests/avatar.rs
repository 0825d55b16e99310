use lau_protocol::AvatarMapping;

#[test]
fn phase_animations() {
    assert_eq!(AvatarMapping::room_phase_to_animation("Gestating"), "idle");
    assert_eq!(AvatarMapping::room_phase_to_animation("Forming"), "exploring");
    assert_eq!(AvatarMapping::room_phase_to_animation("Stable"), "confident");
    assert_eq!(AvatarMapping::room_phase_to_animation("Dissolving"), "fading");
    assert_eq!(AvatarMapping::room_phase_to_animation("Custom"), "custom");
}

#[test]
fn unknown_phase_is_lowercased_whole() {
    assert_eq!(AvatarMapping::room_phase_to_animation("MELTING Down"), "melting down");
    assert_eq!(AvatarMapping::room_phase_to_animation("ÉTÉ"), "été");
    assert_eq!(AvatarMapping::room_phase_to_animation(""), "");
}

#[test]
fn phase_names_are_case_sensitive() {
    // Only the exact phase names get their own animation.
    assert_eq!(AvatarMapping::room_phase_to_animation("gestating"), "gestating");
    assert_eq!(AvatarMapping::room_phase_to_animation("STABLE"), "stable");
}
