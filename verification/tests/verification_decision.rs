use trueid::template_quorum_required;

#[test]
fn template_quorum_required_is_ceil_half() {
    assert_eq!(template_quorum_required(1), 1);
    assert_eq!(template_quorum_required(2), 1);
    assert_eq!(template_quorum_required(3), 2);
    assert_eq!(template_quorum_required(4), 2);
    assert_eq!(template_quorum_required(5), 3);
}
