use complementary::world::WorldType;

#[test]
fn inverse_swaps_the_worlds() {
    assert_eq!(WorldType::Light.inverse(), WorldType::Dark);
    assert_eq!(WorldType::Dark.inverse(), WorldType::Light);
    assert_eq!(WorldType::Light.inverse().inverse(), WorldType::Light);
}
