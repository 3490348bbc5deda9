use platformer_core::asset_tracker::AssetTracker;
use platformer_core::collectibles::{
    add_collectibles, load_collectibles, pickup_collectibles, spawn_collectibles, Collectible,
    CollectibleBundle, CollectiblesPlugin, CollisionEvent, Placement, Potions, SENSOR,
};
use platformer_core::player::TransformPlayer;
use platformer_core::shapes::{Collider, Position};

fn three_potions() -> Vec<Collectible> {
    vec![
        Collectible { entity: 10, collectible_type: Potions::Blue },
        Collectible { entity: 11, collectible_type: Potions::Green },
        Collectible { entity: 12, collectible_type: Potions::Red },
    ]
}

fn loaded_potions() -> AssetTracker<Potions, u32> {
    let mut tracker = AssetTracker::default();
    load_collectibles(&mut tracker, 1, 2, 3);
    tracker
}

#[test]
fn potion_pictures() {
    assert_eq!(Potions::Blue.image_path(), "potion_blue.png");
    assert_eq!(Potions::Red.image_path(), "potion_red.png");
    assert_eq!(Potions::Green.image_path(), "potion_green.png");
}

#[test]
fn potions_compare_by_kind() {
    assert!(Potions::Blue == Potions::Blue);
    assert!(Potions::Blue != Potions::Red);
    assert!(Potions::Green != Potions::Red);
    assert!(Potions::Green == Potions::Green);
    assert!(Potions::Red == Potions::Red);
}

#[test]
fn load_collectibles_registers_red_green_blue() {
    let tracker = loaded_potions();
    assert_eq!(tracker.assets.len(), 3);
    assert_eq!(tracker.assets[0].asset, Potions::Red);
    assert_eq!(tracker.assets[1].asset, Potions::Green);
    assert_eq!(tracker.assets[2].asset, Potions::Blue);
    assert_eq!(tracker.get_handle(Potions::Blue), Some(1));
    assert_eq!(tracker.get_handle(Potions::Red), Some(2));
    assert_eq!(tracker.get_handle(Potions::Green), Some(3));
}

#[test]
fn load_collectibles_keeps_an_earlier_picture() {
    let mut tracker: AssetTracker<Potions, u32> = AssetTracker::default();
    tracker.register(Potions::Green, 99);
    load_collectibles(&mut tracker, 1, 2, 3);
    assert_eq!(tracker.get_handle(Potions::Green), Some(99));
    assert_eq!(tracker.get_handle(Potions::Blue), Some(1));
}

#[test]
fn add_collectibles_places_the_three_potions() {
    let bundles = add_collectibles(&loaded_potions());
    assert_eq!(
        bundles,
        vec![
            CollectibleBundle {
                collectible_type: Potions::Blue,
                position: Position { x: -100, y: -250 },
                texture: 1,
                collider: Collider::CapsuleY { half_height: 10, radius: 8 },
                sensor: true,
            },
            CollectibleBundle {
                collectible_type: Potions::Green,
                position: Position { x: 100, y: -250 },
                texture: 3,
                collider: Collider::CapsuleY { half_height: 10, radius: 8 },
                sensor: true,
            },
            CollectibleBundle {
                collectible_type: Potions::Red,
                position: Position { x: 320, y: -250 },
                texture: 2,
                collider: Collider::CapsuleY { half_height: 10, radius: 8 },
                sensor: true,
            },
        ]
    );
}

#[test]
fn add_collectibles_passes_over_a_missing_picture() {
    let mut tracker: AssetTracker<Potions, u32> = AssetTracker::default();
    tracker.register(Potions::Red, 2);
    let bundles = add_collectibles(&tracker);
    assert_eq!(bundles.len(), 1);
    assert_eq!(bundles[0].collectible_type, Potions::Red);
    assert_eq!(bundles[0].position, Position { x: 320, y: -250 });
    assert_eq!(bundles[0].texture, 2);
}

#[test]
fn add_collectibles_without_pictures_places_nothing() {
    let tracker: AssetTracker<Potions, u32> = AssetTracker::default();
    assert!(add_collectibles(&tracker).is_empty());
}

#[test]
fn spawn_collectibles_follows_the_layout() {
    let layout = vec![
        Placement { collectible_type: Potions::Red, position: Position { x: 1, y: 2 } },
        Placement { collectible_type: Potions::Red, position: Position { x: 3, y: 4 } },
        Placement { collectible_type: Potions::Blue, position: Position { x: 5, y: 6 } },
    ];
    let mut tracker: AssetTracker<Potions, u32> = AssetTracker::default();
    tracker.register(Potions::Red, 2);
    let bundles = spawn_collectibles(&tracker, &layout);
    assert_eq!(bundles.len(), 2);
    assert_eq!(bundles[0].position, Position { x: 1, y: 2 });
    assert_eq!(bundles[1].position, Position { x: 3, y: 4 });
    assert!(spawn_collectibles(&tracker, &Vec::new()).is_empty());
}

#[test]
fn sensor_flag_is_the_lowest_bit() {
    assert_eq!(SENSOR, 1);
}

#[test]
fn pickup_on_a_sensor_contact() {
    let mut potions = three_potions();
    let events = vec![CollisionEvent::Started(7, 10, 1)];
    let pickups = pickup_collectibles(&mut potions, &events);
    assert_eq!(pickups.signals, vec![TransformPlayer { catalyst: Potions::Blue }]);
    assert_eq!(pickups.despawned, vec![10]);
    assert_eq!(
        potions,
        vec![
            Collectible { entity: 11, collectible_type: Potions::Green },
            Collectible { entity: 12, collectible_type: Potions::Red },
        ]
    );
}

#[test]
fn pickup_names_the_potion_on_either_side() {
    let mut potions = three_potions();
    let pickups = pickup_collectibles(&mut potions, &vec![CollisionEvent::Started(12, 7, 1)]);
    assert_eq!(pickups.signals, vec![TransformPlayer { catalyst: Potions::Red }]);
    assert_eq!(pickups.despawned, vec![12]);
    assert_eq!(potions.len(), 2);
}

#[test]
fn pickup_ignores_contacts_that_ended() {
    let mut potions = three_potions();
    let pickups = pickup_collectibles(&mut potions, &vec![CollisionEvent::Stopped(7, 10, 1)]);
    assert!(pickups.signals.is_empty());
    assert!(pickups.despawned.is_empty());
    assert_eq!(potions, three_potions());
}

#[test]
fn pickup_ignores_contacts_without_the_sensor_flag() {
    let mut potions = three_potions();
    let events = vec![
        CollisionEvent::Started(7, 10, 0),
        CollisionEvent::Started(7, 11, 2),
        CollisionEvent::Started(7, 12, 3),
    ];
    let pickups = pickup_collectibles(&mut potions, &events);
    assert!(pickups.signals.is_empty());
    assert_eq!(potions, three_potions());
}

#[test]
fn pickup_ignores_entities_that_are_no_potions() {
    let mut potions = three_potions();
    let pickups = pickup_collectibles(&mut potions, &vec![CollisionEvent::Started(7, 8, 1)]);
    assert!(pickups.signals.is_empty());
    assert_eq!(potions, three_potions());
}

#[test]
fn pickup_without_events_changes_nothing() {
    let mut potions = three_potions();
    let pickups = pickup_collectibles(&mut potions, &Vec::new());
    assert!(pickups.signals.is_empty());
    assert!(pickups.despawned.is_empty());
    assert_eq!(potions, three_potions());
}

#[test]
fn a_potion_is_picked_up_once_in_a_pass() {
    let mut potions = three_potions();
    let events = vec![
        CollisionEvent::Started(7, 10, 1),
        CollisionEvent::Started(7, 10, 1),
        CollisionEvent::Started(10, 7, 1),
    ];
    let pickups = pickup_collectibles(&mut potions, &events);
    assert_eq!(pickups.signals, vec![TransformPlayer { catalyst: Potions::Blue }]);
    assert_eq!(pickups.despawned, vec![10]);
}

#[test]
fn a_potion_is_not_picked_up_again_in_a_later_pass() {
    let mut potions = three_potions();
    let events = vec![CollisionEvent::Started(7, 11, 1)];
    let first = pickup_collectibles(&mut potions, &events);
    assert_eq!(first.signals.len(), 1);
    let second = pickup_collectibles(&mut potions, &events);
    assert!(second.signals.is_empty());
    assert!(second.despawned.is_empty());
    assert_eq!(potions.len(), 2);
}

#[test]
fn two_potions_in_one_pass_signal_in_event_order() {
    let mut potions = three_potions();
    let events = vec![CollisionEvent::Started(7, 12, 1), CollisionEvent::Started(10, 7, 1)];
    let pickups = pickup_collectibles(&mut potions, &events);
    assert_eq!(
        pickups.signals,
        vec![
            TransformPlayer { catalyst: Potions::Red },
            TransformPlayer { catalyst: Potions::Blue },
        ]
    );
    assert_eq!(pickups.despawned, vec![12, 10]);
    assert_eq!(potions, vec![Collectible { entity: 11, collectible_type: Potions::Green }]);
}

#[test]
fn one_event_between_two_potions_picks_up_both() {
    let mut potions = three_potions();
    let pickups = pickup_collectibles(&mut potions, &vec![CollisionEvent::Started(12, 10, 1)]);
    assert_eq!(
        pickups.signals,
        vec![
            TransformPlayer { catalyst: Potions::Blue },
            TransformPlayer { catalyst: Potions::Red },
        ]
    );
    assert_eq!(pickups.despawned, vec![10, 12]);
}

#[test]
fn picked_and_left_add_up() {
    let mut potions = three_potions();
    let events = vec![
        CollisionEvent::Started(7, 12, 1),
        CollisionEvent::Stopped(7, 11, 1),
        CollisionEvent::Started(11, 7, 1),
        CollisionEvent::Started(7, 12, 1),
    ];
    let pickups = pickup_collectibles(&mut potions, &events);
    assert_eq!(pickups.signals.len() + potions.len(), 3);
    assert_eq!(pickups.despawned, vec![12, 11]);
}

#[test]
fn collectibles_plugin_starts_empty_and_takes_note_of_potions() {
    let mut plugin: CollectiblesPlugin<u32> = CollectiblesPlugin::build();
    assert!(plugin.tracker.assets.is_empty());
    assert!(plugin.collectibles.is_empty());
    assert!(plugin.spawn(4, Potions::Green));
    assert!(plugin.spawn(5, Potions::Blue));
    assert_eq!(
        plugin.collectibles,
        vec![
            Collectible { entity: 4, collectible_type: Potions::Green },
            Collectible { entity: 5, collectible_type: Potions::Blue },
        ]
    );
}

#[test]
fn collectibles_plugin_takes_an_entity_once() {
    let mut plugin: CollectiblesPlugin<u32> = CollectiblesPlugin::build();
    assert!(plugin.spawn(4, Potions::Green));
    assert!(!plugin.spawn(4, Potions::Blue));
    assert!(!plugin.spawn(4, Potions::Green));
    assert!(plugin.spawn(5, Potions::Green));
    assert_eq!(
        plugin.collectibles,
        vec![
            Collectible { entity: 4, collectible_type: Potions::Green },
            Collectible { entity: 5, collectible_type: Potions::Green },
        ]
    );
}

#[test]
fn each_potion_signals_once_however_often_it_is_named() {
    let mut potions = three_potions();
    let events = vec![
        CollisionEvent::Started(7, 11, 1),
        CollisionEvent::Started(11, 7, 1),
        CollisionEvent::Started(10, 11, 1),
        CollisionEvent::Started(7, 10, 1),
        CollisionEvent::Started(7, 11, 1),
    ];
    let pickups = pickup_collectibles(&mut potions, &events);
    assert_eq!(pickups.despawned, vec![11, 10]);
    assert_eq!(
        pickups.signals,
        vec![
            TransformPlayer { catalyst: Potions::Green },
            TransformPlayer { catalyst: Potions::Blue },
        ]
    );
    assert_eq!(potions, vec![Collectible { entity: 12, collectible_type: Potions::Red }]);
}
