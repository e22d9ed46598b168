use twinstick_arena::engine::rng::Rng;

#[test]
fn rolls_from_seed_zero() {
    let mut rng = Rng::new(0);
    let rolls: Vec<i32> = (0..12).map(|_| rng.roll()).collect();
    assert_eq!(rolls, vec![807, 424, 937, 236, 125, 891, 184, 975, 264, 139, 503, 482]);
    assert_eq!(rng.state, 6736625987792804572);
}

#[test]
fn rolls_from_other_seeds() {
    let mut one = Rng::new(1);
    let rolls: Vec<i32> = (0..6).map(|_| one.roll()).collect();
    assert_eq!(rolls, vec![774, 153, 196, 870, 34, 795]);
    let mut answer = Rng::new(42);
    let rolls: Vec<i32> = (0..6).map(|_| answer.roll()).collect();
    assert_eq!(rolls, vec![334, 26, 538, 503, 294, 156]);
}

#[test]
fn the_first_step_from_seed_zero_is_the_increment() {
    let mut rng = Rng::new(0);
    rng.roll();
    assert_eq!(rng.state, 1442695040888963407);
}

#[test]
fn a_saved_state_replays_the_same_rolls() {
    let mut rng = Rng::new(77);
    rng.roll();
    rng.roll();
    let mut copy = Rng::new(rng.state);
    for _ in 0..100 {
        assert_eq!(rng.roll(), copy.roll());
    }
}

#[test]
fn rolls_stay_below_a_thousand_and_cover_the_range() {
    let mut rng = Rng::new(2024);
    let mut low = 0;
    let mut high = 0;
    for _ in 0..20_000 {
        let r = rng.roll();
        assert!((0..1000).contains(&r));
        if r < 300 {
            low += 1;
        }
        if r >= 500 {
            high += 1;
        }
    }
    assert!((5400..6600).contains(&low), "{}", low);
    assert!((9400..10600).contains(&high), "{}", high);
}
