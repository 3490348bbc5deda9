use platformer_core::asset_tracker::{AssetKey, AssetReference, AssetTracker};
use platformer_core::collectibles::Potions;
use platformer_core::player::PlayerSprite;

#[test]
fn default_tracker_is_empty() {
    let tracker: AssetTracker<Potions, u32> = AssetTracker::default();
    assert!(tracker.assets.is_empty());
    assert_eq!(tracker.get_handle(Potions::Blue), None);
}

#[test]
fn lookup_returns_the_registered_handle() {
    let mut tracker: AssetTracker<Potions, u32> = AssetTracker::default();
    tracker.register(Potions::Blue, 17);
    assert_eq!(tracker.get_handle(Potions::Blue), Some(17));
}

#[test]
fn lookup_of_an_unregistered_key_is_none() {
    let mut tracker: AssetTracker<Potions, u32> = AssetTracker::default();
    tracker.register(Potions::Blue, 17);
    tracker.register(Potions::Red, 18);
    assert_eq!(tracker.get_handle(Potions::Green), None);
}

#[test]
fn lookup_finds_each_key_among_several() {
    let mut tracker: AssetTracker<PlayerSprite, u32> = AssetTracker::default();
    tracker.register(PlayerSprite::NormalGary, 1);
    tracker.register(PlayerSprite::LittleGary, 2);
    assert_eq!(tracker.get_handle(PlayerSprite::LittleGary), Some(2));
    assert_eq!(tracker.get_handle(PlayerSprite::NormalGary), Some(1));
}

#[test]
fn first_registration_of_a_key_wins() {
    let mut tracker: AssetTracker<Potions, u32> = AssetTracker::default();
    tracker.register(Potions::Green, 5);
    tracker.register(Potions::Red, 6);
    tracker.register(Potions::Green, 7);
    assert_eq!(tracker.get_handle(Potions::Green), Some(5));
    assert_eq!(tracker.assets.len(), 3);
}

#[test]
fn register_appends_in_order() {
    let mut tracker: AssetTracker<Potions, u32> = AssetTracker::default();
    tracker.register(Potions::Green, 5);
    tracker.register(Potions::Red, 6);
    assert_eq!(tracker.assets[0].asset, Potions::Green);
    assert_eq!(tracker.assets[0].handle, 5);
    assert_eq!(tracker.assets[1].asset, Potions::Red);
    assert_eq!(tracker.assets[1].handle, 6);
}

#[test]
fn lookup_works_on_a_tracker_built_by_hand() {
    let tracker = AssetTracker {
        assets: vec![
            AssetReference { asset: Potions::Red, handle: "red" },
            AssetReference { asset: Potions::Blue, handle: "blue" },
        ],
    };
    assert_eq!(tracker.get_handle(Potions::Blue), Some("blue"));
    assert_eq!(tracker.get_handle(Potions::Green), None);
}

#[test]
fn lookup_does_not_take_the_handle_away() {
    let mut tracker: AssetTracker<Potions, u32> = AssetTracker::default();
    tracker.register(Potions::Blue, 17);
    assert_eq!(tracker.get_handle(Potions::Blue), Some(17));
    assert_eq!(tracker.get_handle(Potions::Blue), Some(17));
    assert_eq!(tracker.assets.len(), 1);
}

#[derive(Debug, Clone, Copy, PartialEq)]
struct Level(u8);

impl AssetKey for Level {
    fn same_key(&self, other: &Level) -> bool {
        self.0 == other.0
    }
}

#[test]
fn any_key_type_can_be_tracked() {
    let mut tracker: AssetTracker<Level, u32> = AssetTracker::default();
    tracker.register(Level(1), 10);
    tracker.register(Level(2), 20);
    assert_eq!(tracker.get_handle(Level(2)), Some(20));
    assert_eq!(tracker.get_handle(Level(3)), None);
}
