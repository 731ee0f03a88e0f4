use argus::space::debris::{
    AlienCrap, Asteroid, Bolt, Col, Collectible, Debris, Finder, Meteoroid, Rock, Screw, UFO,
};
use argus::space::num::{Four, One, Three, Two};
use argus::space::planet::Yavin;
use argus::space::probe::CollectionDeposit;
use argus::space::travel::{ExplorationDsl, Rocket};

#[derive(Debug)]
struct FermiBubble;

impl Collectible for FermiBubble {}

impl Rock for FermiBubble {}

fn collect_bubble(_bubble: Col<FermiBubble>, query: Finder<(Meteoroid, Asteroid)>) {
    let mut found = query.into_iter();
    assert!(found.next().is_none());
}

fn collect_meteoroid(query: Finder<Meteoroid>) {
    let mut found = query.into_iter();
    assert!(found.next().is_none());
}

fn collect_debris(query: Finder<(Bolt, AlienCrap)>) {
    let mut found = query.into_iter();
    assert!(found.next().is_none());
}

fn collect_screws(_query: Finder<(Bolt, Screw)>) {}

fn check_for_ufo(depot: &mut CollectionDeposit, ufo: Finder<UFO>) {
    let mut found = ufo.into_iter();
    if let Some(ufo) = found.next() {
        depot.add_debris(ufo);
    }
}

// Rocks are collected where the first coordinate is odd and the second even.
#[test]
fn rocks_are_collected_at_one_zero() {
    Rocket::from_origin().right().forward(One).probe(collect_bubble)
}

#[test]
fn a_meteoroid_is_collected_at_one_two() {
    Rocket::from_origin().up().forward(Two).right().forward(One).probe(collect_meteoroid)
}

// Debris is collected where the first coordinate is even and the second odd,
// neither of them zero. The tank holds four units, so the way to (2, 5)
// leads over Yavin at (2, 2), with a tank that is empty on arrival.
#[test]
fn debris_is_collected_at_two_five() {
    Rocket::from_origin()
        .up()
        .forward(Two)
        .right()
        .forward(Two)
        .refuel(Yavin, Four)
        .up()
        .forward(Three)
        .probe(collect_debris)
}

#[test]
fn several_probes_run_at_one_stop() {
    Rocket::from_origin()
        .up()
        .forward(One)
        .right()
        .forward(Two)
        .probe((collect_screws, check_for_ufo))
}

#[test]
fn turning_costs_no_fuel() {
    Rocket::from_origin()
        .left()
        .down()
        .right()
        .forward(One)
        .up()
        .forward(Two)
        .probe(collect_meteoroid)
}

struct Junk;

impl Debris for Junk {}

fn fill(depot: &mut CollectionDeposit, bubble: FermiBubble, junk: Junk) {
    depot.add_rock(bubble);
    depot.add_debris(junk);
    depot.add_debris((Junk, Junk));
}

// An exclusive probe gets the deposit and may put rocks and debris into it.
#[test]
fn deposits_take_rocks_and_debris() {
    fn probe(depot: &mut CollectionDeposit, _query: Finder<(Bolt, Screw)>) {
        fill(depot, FermiBubble, Junk);
    }
    Rocket::from_origin().up().forward(One).right().forward(Two).probe(probe)
}
