//! Collectible potions: where they are put, and how touching one is noticed.

use crate::asset_tracker::{lemma_lookup_after_register, AssetKey, AssetReference, AssetTracker};
use crate::player::TransformPlayer;
use crate::shapes::{Collider, Position};
use vstd::prelude::*;

verus! {

/// The kinds of potion. Each transforms the player in its own way.
#[derive(Debug, Clone, Copy, PartialEq, Eq, Structural)]
pub enum Potions {
    Red,
    Green,
    Blue,
}

impl AssetKey for Potions {
    fn same_key(&self, other: &Potions) -> (same: bool) {
        *self == *other
    }
}

/// The file that holds the picture of each potion.
pub open spec fn potion_image(kind: Potions) -> Seq<char> {
    match kind {
        Potions::Blue => "potion_blue.png"@,
        Potions::Red => "potion_red.png"@,
        Potions::Green => "potion_green.png"@,
    }
}

impl Potions {
    /// Path of the potion's picture among the assets.
    pub fn image_path(self) -> (path: &'static str)
        ensures
            path@ == potion_image(self),
    {
        match self {
            Potions::Blue => "potion_blue.png",
            Potions::Red => "potion_red.png",
            Potions::Green => "potion_green.png",
        }
    }
}

/// The handle in `handles`, given as blue, red, green, that belongs to `kind`.
pub open spec fn potion_handle<H>(kind: Potions, handles: (H, H, H)) -> H {
    match kind {
        Potions::Blue => handles.0,
        Potions::Red => handles.1,
        Potions::Green => handles.2,
    }
}

/// Registers the pictures of the three potions, once they are being loaded:
/// red, green and blue, in this order, behind what the registry holds. A
/// kind that had a picture keeps it.
pub fn load_collectibles<H>(
    tracker: &mut AssetTracker<Potions, H>,
    blue_handle: H,
    red_handle: H,
    green_handle: H,
)
    ensures
        final(tracker).assets@ == old(tracker).assets@.push(
            AssetReference { asset: Potions::Red, handle: red_handle },
        ).push(AssetReference { asset: Potions::Green, handle: green_handle }).push(
            AssetReference { asset: Potions::Blue, handle: blue_handle },
        ),
        forall|kind: Potions| #[trigger]
            final(tracker).lookup(kind) == match old(tracker).lookup(kind) {
                Some(handle) => Some(handle),
                None => Some(potion_handle(kind, (blue_handle, red_handle, green_handle))),
            },
{
    let ghost t0 = *tracker;
    tracker.register(Potions::Red, red_handle);
    let ghost t1 = *tracker;
    tracker.register(Potions::Green, green_handle);
    let ghost t2 = *tracker;
    tracker.register(Potions::Blue, blue_handle);
    proof {
        assert forall|kind: Potions| #[trigger]
            tracker.lookup(kind) == match t0.lookup(kind) {
                Some(handle) => Some(handle),
                None => Some(potion_handle(kind, (blue_handle, red_handle, green_handle))),
            } by {
            lemma_lookup_after_register(t0, t1, Potions::Red, red_handle, kind);
            lemma_lookup_after_register(t1, t2, Potions::Green, green_handle, kind);
            lemma_lookup_after_register(t2, *tracker, Potions::Blue, blue_handle, kind);
        }
    }
}

/// Where one potion of the level stands.
#[derive(Clone, Copy, Debug, PartialEq, Eq)]
pub struct Placement {
    pub collectible_type: Potions,
    pub position: Position,
}

/// What is needed to put one potion into the world: its picture, its place
/// and the shape that senses the player.
#[derive(Debug, PartialEq, Eq)]
pub struct CollectibleBundle<H> {
    pub collectible_type: Potions,
    pub position: Position,
    pub texture: H,
    pub collider: Collider,
    /// The shape only senses: it reports what begins to overlap it and stands
    /// in nobody's way.
    pub sensor: bool,
}

/// Height at which the potions of the level stand.
pub const POTION_Y: i32 = -250;

/// Where the blue potion stands, left of the start.
pub const BLUE_POTION_X: i32 = -100;

/// Where the green potion stands, right of the start.
pub const GREEN_POTION_X: i32 = 100;

/// Where the red potion stands, further right.
pub const RED_POTION_X: i32 = 320;

/// The sensing shape of every potion.
pub open spec fn potion_collider() -> Collider {
    Collider::CapsuleY { half_height: 10, radius: 8 }
}

/// The potions of the level: a blue one left of the start, a green one right
/// of it, a red one further right.
pub open spec fn level_layout() -> Seq<Placement> {
    seq![
        Placement {
            collectible_type: Potions::Blue,
            position: Position { x: BLUE_POTION_X, y: POTION_Y },
        },
        Placement {
            collectible_type: Potions::Green,
            position: Position { x: GREEN_POTION_X, y: POTION_Y },
        },
        Placement {
            collectible_type: Potions::Red,
            position: Position { x: RED_POTION_X, y: POTION_Y },
        },
    ]
}

/// The test "the registry has a picture for the potion of this placement".
pub open spec fn pictured<H>(tracker: AssetTracker<Potions, H>) -> spec_fn(Placement) -> bool {
    |place: Placement| tracker.has(place.collectible_type)
}

/// The potion to put at a placement, with the picture that the registry has
/// for its kind.
pub open spec fn bundled<H>(
    tracker: AssetTracker<Potions, H>,
) -> spec_fn(Placement) -> CollectibleBundle<H> {
    |place: Placement|
        CollectibleBundle {
            collectible_type: place.collectible_type,
            position: place.position,
            texture: tracker.lookup(place.collectible_type)->0,
            collider: potion_collider(),
            sensor: true,
        }
}

/// The potions that are put into the world for `layout`, in its order: one
/// for each placement whose kind has a picture in the registry. The others
/// are passed over.
pub open spec fn spawn_plan<H>(
    tracker: AssetTracker<Potions, H>,
    layout: Seq<Placement>,
) -> Seq<CollectibleBundle<H>> {
    layout.filter(pictured(tracker)).map_values(bundled(tracker))
}

/// Plans the potions of `layout`. A kind whose picture is not registered is
/// passed over without a word: it is not loaded yet.
pub fn spawn_collectibles<H: Copy>(
    tracker: &AssetTracker<Potions, H>,
    layout: &Vec<Placement>,
) -> (bundles: Vec<CollectibleBundle<H>>)
    ensures
        bundles@ == spawn_plan(*tracker, layout@),
{
    let mut bundles: Vec<CollectibleBundle<H>> = Vec::new();
    let n = layout.len();
    let mut i: usize = 0;
    proof {
        assert(layout@.take(0) =~= Seq::empty());
        layout@.take(0).lemma_all_neg_filter_empty(pictured(*tracker));
        assert(bundles@ =~= spawn_plan(*tracker, layout@.take(0)));
    }
    while i < n
        invariant
            n == layout@.len(),
            i <= n,
            bundles@ == spawn_plan(*tracker, layout@.take(i as int)),
        decreases n - i,
    {
        let place = layout[i];
        proof {
            let seen = layout@.take(i as int);
            assert(layout@.take(i + 1) =~= seen.push(place));
            seen.lemma_filter_push(place, pictured(*tracker));
            seen.filter(pictured(*tracker)).lemma_push_map_commute(bundled(*tracker), place);
        }
        match tracker.get_handle(place.collectible_type) {
            Some(texture) => {
                bundles.push(
                    CollectibleBundle {
                        collectible_type: place.collectible_type,
                        position: place.position,
                        texture,
                        collider: Collider::CapsuleY { half_height: 10, radius: 8 },
                        sensor: true,
                    },
                );
            },
            None => {},
        }
        i += 1;
    }
    assert(layout@.take(n as int) =~= layout@);
    bundles
}

/// Plans the potions of the level.
pub fn add_collectibles<H: Copy>(
    tracker: &AssetTracker<Potions, H>,
) -> (bundles: Vec<CollectibleBundle<H>>)
    ensures
        bundles@ == spawn_plan(*tracker, level_layout()),
{
    let mut layout: Vec<Placement> = Vec::new();
    layout.push(
        Placement {
            collectible_type: Potions::Blue,
            position: Position { x: BLUE_POTION_X, y: POTION_Y },
        },
    );
    layout.push(
        Placement {
            collectible_type: Potions::Green,
            position: Position { x: GREEN_POTION_X, y: POTION_Y },
        },
    );
    layout.push(
        Placement {
            collectible_type: Potions::Red,
            position: Position { x: RED_POTION_X, y: POTION_Y },
        },
    );
    assert(layout@ =~= level_layout());
    spawn_collectibles(tracker, &layout)
}

/// A potion that stands in the world, under the name the engine gave it.
#[derive(Clone, Copy, Debug, PartialEq, Eq)]
pub struct Collectible {
    pub entity: u64,
    pub collectible_type: Potions,
}

/// No entity stands for two potions. The engine names every entity apart, so
/// this holds of the potions that stand in the world.
pub open spec fn distinct_entities(potions: Seq<Collectible>) -> bool {
    forall|i: int, j: int|
        #![trigger potions[i], potions[j]]
        0 <= i < j < potions.len() ==> potions[i].entity != potions[j].entity
}

/// Two shapes began or ceased to touch. The numbers are the entities that
/// carry the shapes and the flags that the physics engine set on the event.
#[derive(Clone, Copy, Debug, PartialEq, Eq)]
pub enum CollisionEvent {
    Started(u64, u64, u32),
    Stopped(u64, u64, u32),
}

/// The flags of an event in which a sensor took part and nothing else is of
/// note.
pub const SENSOR: u32 = 1;

/// The bits of `CollisionEventFlags::SENSOR`, the flag that the physics
/// engine `rapier` sets on an event in which a sensor takes part. Believed of
/// it: it is the lowest bit.
#[verifier::external_body]
fn sensor_flags() -> (bits: u32)
    ensures
        bits == SENSOR,
{
    bevy_rapier2d::rapier::prelude::CollisionEventFlags::SENSOR.bits()
}

impl CollisionEvent {
    /// The event picks up the potion `entity`: a sensor began to touch, and
    /// `entity` is one of the two.
    pub open spec fn picks_up(self, entity: u64) -> bool {
        match self {
            CollisionEvent::Started(a, b, flags) => (a == entity || b == entity) && flags
                == SENSOR,
            CollisionEvent::Stopped(_, _, _) => false,
        }
    }

    fn touches(&self, entity: u64, sensor: u32) -> (hit: bool)
        requires
            sensor == SENSOR,
        ensures
            hit == self.picks_up(entity),
    {
        match self {
            CollisionEvent::Started(a, b, flags) => (*a == entity || *b == entity) && *flags
                == sensor,
            CollisionEvent::Stopped(_, _, _) => false,
        }
    }
}

/// The test "`event` picks this potion up".
pub open spec fn picks(event: CollisionEvent) -> spec_fn(Collectible) -> bool {
    |c: Collectible| event.picks_up(c.entity)
}

/// The test "`event` leaves this potion".
pub open spec fn spares(event: CollisionEvent) -> spec_fn(Collectible) -> bool {
    |c: Collectible| !event.picks_up(c.entity)
}

/// The potions of `live` that `events`, taken in order, pick up: event by
/// event, and for one event in the order in which the potions stand. A
/// potion that an event picked up is gone for the events after it.
pub open spec fn picked(live: Seq<Collectible>, events: Seq<CollisionEvent>) -> Seq<Collectible>
    decreases events.len(),
{
    if events.len() == 0 {
        Seq::empty()
    } else {
        picked(live, events.drop_last()) + left(live, events.drop_last()).filter(
            picks(events.last()),
        )
    }
}

/// The potions of `live` that are still there after `events`.
pub open spec fn left(live: Seq<Collectible>, events: Seq<CollisionEvent>) -> Seq<Collectible>
    decreases events.len(),
{
    if events.len() == 0 {
        live
    } else {
        left(live, events.drop_last()).filter(spares(events.last()))
    }
}

/// The signals that go out for potions picked up, one each, in their order.
pub open spec fn signals_of(potions: Seq<Collectible>) -> Seq<TransformPlayer> {
    potions.map_values(|c: Collectible| TransformPlayer { catalyst: c.collectible_type })
}

/// The entities of the potions, in their order.
pub open spec fn entities_of(potions: Seq<Collectible>) -> Seq<u64> {
    potions.map_values(|c: Collectible| c.entity)
}

/// What a pass over the collision events brought: a signal for each potion
/// picked up, and the entity to take out of the world for it.
#[derive(Debug, PartialEq, Eq)]
pub struct Pickups {
    pub signals: Vec<TransformPlayer>,
    pub despawned: Vec<u64>,
}

/// Lets one event act on the potions: those it picks up leave `collectibles`
/// and are added to `pickups`.
fn pick_up(
    collectibles: &mut Vec<Collectible>,
    event: &CollisionEvent,
    sensor: u32,
    pickups: &mut Pickups,
)
    requires
        sensor == SENSOR,
    ensures
        final(collectibles)@ == old(collectibles)@.filter(spares(*event)),
        final(pickups).signals@ == old(pickups).signals@ + signals_of(
            old(collectibles)@.filter(picks(*event)),
        ),
        final(pickups).despawned@ == old(pickups).despawned@ + entities_of(
            old(collectibles)@.filter(picks(*event)),
        ),
{
    let ghost before = collectibles@;
    let mut kept: Vec<Collectible> = Vec::new();
    let n = collectibles.len();
    let mut j: usize = 0;
    assert(before.take(0) =~= Seq::empty());
    proof {
        before.take(0).lemma_all_neg_filter_empty(picks(*event));
        before.take(0).lemma_all_neg_filter_empty(spares(*event));
    }
    while j < n
        invariant
            sensor == SENSOR,
            collectibles@ == before,
            n == before.len(),
            j <= n,
            kept@ == before.take(j as int).filter(spares(*event)),
            pickups.signals@ == old(pickups).signals@ + signals_of(
                before.take(j as int).filter(picks(*event)),
            ),
            pickups.despawned@ == old(pickups).despawned@ + entities_of(
                before.take(j as int).filter(picks(*event)),
            ),
        decreases n - j,
    {
        let potion = collectibles[j];
        proof {
            let seen = before.take(j as int);
            assert(before.take(j + 1) =~= seen.push(potion));
            seen.lemma_filter_push(potion, picks(*event));
            seen.lemma_filter_push(potion, spares(*event));
            let got = seen.filter(picks(*event));
            assert(signals_of(got.push(potion)) =~= signals_of(got).push(
                TransformPlayer { catalyst: potion.collectible_type },
            ));
            assert(entities_of(got.push(potion)) =~= entities_of(got).push(potion.entity));
        }
        if event.touches(potion.entity, sensor) {
            pickups.signals.push(TransformPlayer { catalyst: potion.collectible_type });
            pickups.despawned.push(potion.entity);
            proof {
                let got = before.take(j as int).filter(picks(*event));
                assert(pickups.signals@ =~= old(pickups).signals@ + signals_of(got.push(potion)));
                assert(pickups.despawned@ =~= old(pickups).despawned@ + entities_of(
                    got.push(potion),
                ));
            }
        } else {
            kept.push(potion);
        }
        j += 1;
    }
    assert(before.take(n as int) =~= before);
    *collectibles = kept;
}

/// Goes through the collision events of one tick. Each event in which a
/// sensor began to touch picks up the potions it names, on either side;
/// every other event is passed over. A potion picked up leaves
/// `collectibles` at once and sends one signal; whatever names it later
/// finds it gone.
pub fn pickup_collectibles(
    collectibles: &mut Vec<Collectible>,
    collision_events: &Vec<CollisionEvent>,
) -> (pickups: Pickups)
    ensures
        final(collectibles)@ == left(old(collectibles)@, collision_events@),
        final(collectibles)@ == old(collectibles)@.filter(spared_by_all(collision_events@)),
        pickups.signals@ == signals_of(picked(old(collectibles)@, collision_events@)),
        pickups.despawned@ == entities_of(picked(old(collectibles)@, collision_events@)),
        pickups.signals@.len() + final(collectibles)@.len() == old(collectibles)@.len(),
        distinct_entities(old(collectibles)@) ==> {
            &&& distinct_entities(final(collectibles)@)
            &&& forall|j: int|
                0 <= j < old(collectibles)@.len() ==> #[trigger] picked(
                    old(collectibles)@,
                    collision_events@,
                ).filter(has_entity(old(collectibles)@[j].entity)) == if spared_by_all(
                    collision_events@,
                )(old(collectibles)@[j]) {
                    Seq::<Collectible>::empty()
                } else {
                    seq![old(collectibles)@[j]]
                }
        },
{
    let sensor = sensor_flags();
    let mut pickups = Pickups { signals: Vec::new(), despawned: Vec::new() };
    let n = collision_events.len();
    let mut i: usize = 0;
    assert(collision_events@.take(0) =~= Seq::empty());
    assert(pickups.signals@ =~= signals_of(Seq::empty()));
    assert(pickups.despawned@ =~= entities_of(Seq::empty()));
    while i < n
        invariant
            sensor == SENSOR,
            n == collision_events@.len(),
            i <= n,
            collectibles@ == left(old(collectibles)@, collision_events@.take(i as int)),
            pickups.signals@ == signals_of(
                picked(old(collectibles)@, collision_events@.take(i as int)),
            ),
            pickups.despawned@ == entities_of(
                picked(old(collectibles)@, collision_events@.take(i as int)),
            ),
        decreases n - i,
    {
        proof {
            let seen = collision_events@.take(i as int);
            let next = collision_events@.take(i + 1);
            assert(next.drop_last() =~= seen);
            assert(next.last() == collision_events@[i as int]);
            let got = picked(old(collectibles)@, seen);
            let more = collectibles@.filter(picks(collision_events@[i as int]));
            assert(signals_of(got + more) =~= signals_of(got) + signals_of(more));
            assert(entities_of(got + more) =~= entities_of(got) + entities_of(more));
        }
        pick_up(collectibles, &collision_events[i], sensor, &mut pickups);
        i += 1;
    }
    proof {
        assert(collision_events@.take(n as int) =~= collision_events@);
        lemma_left_is_what_no_event_picks(old(collectibles)@, collision_events@);
        lemma_picked_or_left(old(collectibles)@, collision_events@);
        if distinct_entities(old(collectibles)@) {
            lemma_filter_keeps_distinct(old(collectibles)@, spared_by_all(collision_events@));
            assert forall|j: int| 0 <= j < old(collectibles)@.len() implies #[trigger] picked(
                old(collectibles)@,
                collision_events@,
            ).filter(has_entity(old(collectibles)@[j].entity)) == if spared_by_all(
                collision_events@,
            )(old(collectibles)@[j]) {
                Seq::<Collectible>::empty()
            } else {
                seq![old(collectibles)@[j]]
            } by {
                lemma_one_signal_for_each_potion(old(collectibles)@, collision_events@, j);
            }
        }
    }
    pickups
}

/// Every potion is picked up or left, none is both and none is made: what a
/// pass picks up and what it leaves are together as many as there were.
pub proof fn lemma_picked_or_left(live: Seq<Collectible>, events: Seq<CollisionEvent>)
    ensures
        picked(live, events).len() + left(live, events).len() == live.len(),
    decreases events.len(),
{
    if events.len() > 0 {
        lemma_picked_or_left(live, events.drop_last());
        lemma_split_in_two(
            left(live, events.drop_last()),
            picks(events.last()),
            spares(events.last()),
        );
    }
}

/// The test "none of `events` picks this potion up".
pub open spec fn spared_by_all(events: Seq<CollisionEvent>) -> spec_fn(Collectible) -> bool {
    |c: Collectible|
        forall|i: int| 0 <= i < events.len() ==> !(#[trigger] events[i]).picks_up(c.entity)
}

/// What a pass leaves are the potions that none of its events picks up, in
/// the order in which they stood.
pub proof fn lemma_left_is_what_no_event_picks(live: Seq<Collectible>, events: Seq<CollisionEvent>)
    ensures
        left(live, events) == live.filter(spared_by_all(events)),
    decreases events.len(),
{
    if events.len() == 0 {
        lemma_filter_keeps_all(live, spared_by_all(events));
    } else {
        let earlier = events.drop_last();
        lemma_left_is_what_no_event_picks(live, earlier);
        assert forall|c: Collectible|
            (spared_by_all(earlier)(c) && spares(events.last())(c)) == #[trigger] spared_by_all(
                events,
            )(c) by {
            if spared_by_all(earlier)(c) && spares(events.last())(c) {
                assert forall|i: int| 0 <= i < events.len() implies !(
                #[trigger] events[i]).picks_up(c.entity) by {
                    if i < earlier.len() {
                        assert(events[i] == earlier[i]);
                    }
                }
            }
            if spared_by_all(events)(c) {
                assert(!events[events.len() - 1].picks_up(c.entity));
                assert forall|i: int| 0 <= i < earlier.len() implies !(
                #[trigger] earlier[i]).picks_up(c.entity) by {
                    assert(events[i] == earlier[i]);
                }
            }
        }
        lemma_filter_by_two(
            live,
            spared_by_all(earlier),
            spares(events.last()),
            spared_by_all(events),
        );
    }
}

proof fn lemma_filter_keeps_all(live: Seq<Collectible>, keep: spec_fn(Collectible) -> bool)
    requires
        forall|c: Collectible| #[trigger] keep(c),
    ensures
        live.filter(keep) == live,
    decreases live.len(),
{
    if live.len() == 0 {
        reveal(Seq::filter);
    } else {
        lemma_filter_keeps_all(live.drop_last(), keep);
        assert(live.drop_last().push(live.last()) =~= live);
        live.drop_last().lemma_filter_push(live.last(), keep);
    }
}

proof fn lemma_filter_by_two(
    live: Seq<Collectible>,
    first: spec_fn(Collectible) -> bool,
    second: spec_fn(Collectible) -> bool,
    both: spec_fn(Collectible) -> bool,
)
    requires
        forall|c: Collectible| (first(c) && second(c)) == #[trigger] both(c),
    ensures
        live.filter(first).filter(second) == live.filter(both),
    decreases live.len(),
{
    if live.len() == 0 {
        reveal(Seq::filter);
        assert(live.filter(first) =~= live);
    } else {
        let front = live.drop_last();
        lemma_filter_by_two(front, first, second, both);
        assert(front.push(live.last()) =~= live);
        front.lemma_filter_push(live.last(), first);
        front.lemma_filter_push(live.last(), both);
        if first(live.last()) {
            front.filter(first).lemma_filter_push(live.last(), second);
        }
    }
}

/// What a pass leaves was there before, and none of the events picks it up.
pub proof fn lemma_left_untouched(
    live: Seq<Collectible>,
    events: Seq<CollisionEvent>,
    k: int,
    i: int,
)
    requires
        0 <= k < left(live, events).len(),
        0 <= i < events.len(),
    ensures
        live.contains(left(live, events)[k]),
        !events[i].picks_up(left(live, events)[k].entity),
    decreases events.len(),
{
    let before = left(live, events.drop_last());
    let potion = left(live, events)[k];
    // The last event spared the potion, which was there before it.
    before.lemma_filter_pred(spares(events.last()), k);
    assert(before.filter(spares(events.last())).contains(potion));
    before.lemma_filter_contains_rev(spares(events.last()), potion);
    if events.len() > 1 {
        // So did the events before the last.
        let j = choose|j: int| 0 <= j < before.len() && before[j] == potion;
        let earlier = if i < events.len() - 1 {
            i
        } else {
            0
        };
        lemma_left_untouched(live, events.drop_last(), j, earlier);
    }
}

/// What a pass picks up was there before.
pub proof fn lemma_picked_was_live(live: Seq<Collectible>, events: Seq<CollisionEvent>, k: int)
    requires
        0 <= k < picked(live, events).len(),
    ensures
        live.contains(picked(live, events)[k]),
    decreases events.len(),
{
    let earlier = picked(live, events.drop_last());
    if k < earlier.len() {
        lemma_picked_was_live(live, events.drop_last(), k);
    } else {
        let before = left(live, events.drop_last());
        let potion = picked(live, events)[k];
        assert(before.filter(picks(events.last()))[k - earlier.len()] == potion);
        assert(before.filter(picks(events.last())).contains(potion));
        before.lemma_filter_contains_rev(picks(events.last()), potion);
        if events.len() > 1 {
            let j = choose|j: int| 0 <= j < before.len() && before[j] == potion;
            lemma_left_untouched(live, events.drop_last(), j, 0);
        } else {
            assert(before == live);
        }
    }
}

/// A potion is picked up once. Whatever events come after the pass that
/// picked it up, no signal goes out for an entity that an event of that pass
/// picked up: it is no longer among the potions.
pub proof fn lemma_picked_up_once(
    live: Seq<Collectible>,
    first: Seq<CollisionEvent>,
    later: Seq<CollisionEvent>,
    i: int,
    k: int,
)
    requires
        0 <= i < first.len(),
        0 <= k < picked(left(live, first), later).len(),
    ensures
        !first[i].picks_up(picked(left(live, first), later)[k].entity),
{
    let remaining = left(live, first);
    let potion = picked(remaining, later)[k];
    lemma_picked_was_live(remaining, later, k);
    let j = choose|j: int| 0 <= j < remaining.len() && remaining[j] == potion;
    lemma_left_untouched(live, first, j, i);
}

/// The test "this potion stands in the world as `entity`".
pub open spec fn has_entity(entity: u64) -> spec_fn(Collectible) -> bool {
    |c: Collectible| c.entity == entity
}

/// The test "one of `events` picks this potion up".
pub open spec fn picked_by_some(events: Seq<CollisionEvent>) -> spec_fn(Collectible) -> bool {
    |c: Collectible| !spared_by_all(events)(c)
}

/// Each potion is picked up once or not at all. Where no entity stands for
/// two potions, what a pass picks up under the entity of a potion is that
/// potion, once, if one of the events picks it up, and nothing if none does:
/// so one signal of its kind goes out for it, or none, however often the
/// events name it.
pub proof fn lemma_one_signal_for_each_potion(
    live: Seq<Collectible>,
    events: Seq<CollisionEvent>,
    j: int,
)
    requires
        distinct_entities(live),
        0 <= j < live.len(),
    ensures
        picked(live, events).filter(has_entity(live[j].entity)) == if spared_by_all(events)(
            live[j],
        ) {
            Seq::<Collectible>::empty()
        } else {
            seq![live[j]]
        },
    decreases events.len(),
{
    let potion = live[j];
    let named = has_entity(potion.entity);
    if events.len() == 0 {
        picked(live, events).lemma_all_neg_filter_empty(named);
        assert(picked(live, events).filter(named) =~= Seq::<Collectible>::empty());
    } else {
        let earlier = events.drop_last();
        let last = events.last();
        let before = left(live, earlier);
        lemma_one_signal_for_each_potion(live, earlier, j);
        Seq::filter_distributes_over_add(picked(live, earlier), before.filter(picks(last)), named);
        // What the last event picks up under this entity, seen from the
        // potions that stood at the start.
        lemma_left_is_what_no_event_picks(live, earlier);
        let first_now = |c: Collectible| spared_by_all(earlier)(c) && picks(last)(c);
        let first_now_named = |c: Collectible| first_now(c) && named(c);
        let named_first_now = |c: Collectible| named(c) && first_now(c);
        lemma_filter_by_two(live, spared_by_all(earlier), picks(last), first_now);
        lemma_filter_by_two(live, first_now, named, first_now_named);
        lemma_filter_by_two(live, named, first_now, named_first_now);
        lemma_filter_same(live, first_now_named, named_first_now);
        lemma_only_one_has_entity(live, j);
        Seq::<Collectible>::empty().lemma_filter_push(potion, first_now);
        assert(Seq::<Collectible>::empty().push(potion) =~= seq![potion]);
        Seq::<Collectible>::empty().lemma_all_neg_filter_empty(first_now);
        assert(Seq::<Collectible>::empty().filter(first_now) =~= Seq::<Collectible>::empty());
        assert(spared_by_all(events)(potion) == (spared_by_all(earlier)(potion) && !last.picks_up(
            potion.entity,
        ))) by {
            if spared_by_all(earlier)(potion) && !last.picks_up(potion.entity) {
                assert forall|i: int| 0 <= i < events.len() implies !(
                #[trigger] events[i]).picks_up(potion.entity) by {
                    if i < earlier.len() {
                        assert(events[i] == earlier[i]);
                    }
                }
            }
            if spared_by_all(events)(potion) {
                assert(!events[events.len() - 1].picks_up(potion.entity));
                assert forall|i: int| 0 <= i < earlier.len() implies !(
                #[trigger] earlier[i]).picks_up(potion.entity) by {
                    assert(events[i] == earlier[i]);
                }
            }
        }
        assert(picked(live, events).filter(named) =~= if spared_by_all(events)(potion) {
            Seq::<Collectible>::empty()
        } else {
            seq![potion]
        });
    }
}

/// As many signals go out as there are potions that some event picks up.
pub proof fn lemma_as_many_signals_as_potions_picked(
    live: Seq<Collectible>,
    events: Seq<CollisionEvent>,
)
    ensures
        signals_of(picked(live, events)).len() == live.filter(picked_by_some(events)).len(),
        entities_of(picked(live, events)).len() == live.filter(picked_by_some(events)).len(),
{
    lemma_picked_or_left(live, events);
    lemma_left_is_what_no_event_picks(live, events);
    lemma_split_in_two(live, picked_by_some(events), spared_by_all(events));
}

/// Filtering keeps the potions apart: where no entity stands for two
/// potions, none does among those that pass a test.
pub proof fn lemma_filter_keeps_distinct(live: Seq<Collectible>, keep: spec_fn(Collectible) -> bool)
    requires
        distinct_entities(live),
    ensures
        distinct_entities(live.filter(keep)),
    decreases live.len(),
{
    if live.len() == 0 {
        reveal(Seq::filter);
    } else {
        let front = live.drop_last();
        let last = live.last();
        assert(distinct_entities(front)) by {
            assert forall|i: int, k: int| 0 <= i < k < front.len() implies front[i].entity
                != front[k].entity by {
                assert(live[i].entity != live[k].entity);
            }
        }
        lemma_filter_keeps_distinct(front, keep);
        assert(front.push(last) =~= live);
        front.lemma_filter_push(last, keep);
        if keep(last) {
            let kept = front.filter(keep);
            assert forall|i: int, k: int| 0 <= i < k < kept.push(last).len() implies kept.push(
                last,
            )[i].entity != kept.push(last)[k].entity by {
                if k == kept.len() {
                    assert(kept.contains(kept[i]));
                    front.lemma_filter_contains_rev(keep, kept[i]);
                    let m = choose|m: int| 0 <= m < front.len() && front[m] == kept[i];
                    assert(live[m].entity != live[live.len() - 1].entity);
                } else {
                    assert(kept[i].entity != kept[k].entity);
                }
            }
        }
    }
}

proof fn lemma_only_one_has_entity(live: Seq<Collectible>, j: int)
    requires
        distinct_entities(live),
        0 <= j < live.len(),
    ensures
        live.filter(has_entity(live[j].entity)) == seq![live[j]],
    decreases live.len(),
{
    let named = has_entity(live[j].entity);
    let front = live.drop_last();
    let last = live.last();
    assert(front.push(last) =~= live);
    front.lemma_filter_push(last, named);
    if j == live.len() - 1 {
        assert(front.all(|c: Collectible| !named(c))) by {
            assert forall|i: int| 0 <= i < front.len() implies !named(#[trigger] front[i]) by {
                assert(live[i].entity != live[j].entity);
            }
        }
        front.lemma_all_neg_filter_empty(named);
        assert(front.filter(named).push(last) =~= seq![last]);
    } else {
        assert(distinct_entities(front)) by {
            assert forall|i: int, k: int| 0 <= i < k < front.len() implies front[i].entity
                != front[k].entity by {
                assert(live[i].entity != live[k].entity);
            }
        }
        assert(front[j] == live[j]);
        lemma_only_one_has_entity(front, j);
        assert(live[j].entity != live[live.len() - 1].entity);
    }
}

proof fn lemma_filter_same(
    live: Seq<Collectible>,
    one: spec_fn(Collectible) -> bool,
    other: spec_fn(Collectible) -> bool,
)
    requires
        forall|c: Collectible| #[trigger] one(c) == other(c),
    ensures
        live.filter(one) == live.filter(other),
    decreases live.len(),
{
    if live.len() == 0 {
        reveal(Seq::filter);
    } else {
        lemma_filter_same(live.drop_last(), one, other);
        assert(live.drop_last().push(live.last()) =~= live);
        live.drop_last().lemma_filter_push(live.last(), one);
        live.drop_last().lemma_filter_push(live.last(), other);
    }
}

proof fn lemma_split_in_two(
    live: Seq<Collectible>,
    one: spec_fn(Collectible) -> bool,
    other: spec_fn(Collectible) -> bool,
)
    requires
        forall|c: Collectible| #[trigger] one(c) == !other(c),
    ensures
        live.filter(one).len() + live.filter(other).len() == live.len(),
    decreases live.len(),
{
    if live.len() == 0 {
        reveal(Seq::filter);
    } else {
        lemma_split_in_two(live.drop_last(), one, other);
        assert(live.drop_last().push(live.last()) =~= live);
        live.drop_last().lemma_filter_push(live.last(), one);
        live.drop_last().lemma_filter_push(live.last(), other);
    }
}

/// The potions' part of the game: the registry of their pictures and the
/// potions that stand in the world.
pub struct CollectiblesPlugin<H> {
    pub tracker: AssetTracker<Potions, H>,
    pub collectibles: Vec<Collectible>,
}

impl<H> CollectiblesPlugin<H> {
    /// No entity stands for two of the potions.
    pub open spec fn wf(&self) -> bool {
        distinct_entities(self.collectibles@)
    }

    /// `entity` stands for one of the potions.
    pub open spec fn holds(&self, entity: u64) -> bool {
        exists|k: int|
            0 <= k < self.collectibles@.len() && (#[trigger] self.collectibles@[k]).entity
                == entity
    }

    /// The plugin before anything is loaded: an empty registry, no potion.
    pub fn build() -> (plugin: CollectiblesPlugin<H>)
        ensures
            plugin.tracker.assets@ == Seq::<AssetReference<Potions, H>>::empty(),
            plugin.collectibles@ == Seq::<Collectible>::empty(),
            plugin.wf(),
    {
        CollectiblesPlugin { tracker: AssetTracker::default(), collectibles: Vec::new() }
    }

    /// Takes note of a potion that was put into the world as `entity`, and
    /// says so. An entity that stands for a potion already is not taken
    /// again: then nothing changes.
    pub fn spawn(&mut self, entity: u64, collectible_type: Potions) -> (noted: bool)
        ensures
            noted == !old(self).holds(entity),
            final(self).tracker == old(self).tracker,
            final(self).collectibles@ == if noted {
                old(self).collectibles@.push(Collectible { entity, collectible_type })
            } else {
                old(self).collectibles@
            },
            old(self).wf() ==> final(self).wf(),
    {
        let n = self.collectibles.len();
        let mut k: usize = 0;
        while k < n
            invariant
                n == self.collectibles@.len(),
                k <= n,
                *self == *old(self),
                forall|m: int| 0 <= m < k ==> (#[trigger] self.collectibles@[m]).entity != entity,
            decreases n - k,
        {
            if self.collectibles[k].entity == entity {
                return false;
            }
            k += 1;
        }
        self.collectibles.push(Collectible { entity, collectible_type });
        true
    }
}

} // verus!
