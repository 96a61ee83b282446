use boids::flock::{Boid, BoidManager};
use boids::rules::{observe, Nudge, Pose, Sighting};
use boids::scalar::Scalar;
use boids::tally::Tally;
use boids::tick::{Reply, Step};

fn scalar(x: f32) -> Scalar {
    Scalar::from_bits(x.to_bits())
}

fn number(s: Scalar) -> f32 {
    f32::from_bits(s.to_bits())
}

fn boid(x: f32, y: f32, rotation: f32, speed: f32) -> Boid {
    Boid {
        position: (scalar(x), scalar(y)),
        color: (scalar(0.1), scalar(0.2), scalar(0.3)),
        rotation: scalar(rotation),
        speed: scalar(speed),
    }
}

fn wrap(coordinate: f32) -> f32 {
    (coordinate + 105.0).rem_euclid(210.0) - 105.0
}

fn measure(own: &Boid, other: &Boid) -> Sighting {
    let dx = number(own.position.0) - number(other.position.0);
    let dy = number(own.position.1) - number(other.position.1);
    let dist = dx.powi(2) + dy.powi(2);
    let rotation = number(own.rotation);
    let dot = rotation.cos() * (-dx) + rotation.sin() * (-dy);
    Sighting { dist: scalar(dist), dot: scalar(dot) }
}

/// The arithmetic of one step; `draw` is the uniform draw of the jitter.
fn compute(step: Step, draw: f32) -> Option<Reply> {
    match step {
        Step::Measure { own, other } => Some(Reply::Sighting(measure(&own, &other))),
        Step::Push { own, sighting, nudge } => {
            let push = 0.00000025 * (40.0 - number(sighting.dist)).powi(3);
            let mut rotation = number(own.rotation);
            match nudge {
                Nudge::Raise => rotation += push,
                Nudge::Lower => rotation -= push,
                Nudge::Hold => {}
            }
            Some(Reply::Rotation(scalar(rotation)))
        }
        Step::Accelerate { own, bias } => Some(Reply::Speed(scalar(number(own.speed) + 0.00012 * bias as f32))),
        Step::Move { own, bias } => {
            let mut rotation = number(own.rotation);
            rotation += 0.00175 * bias as f32;
            rotation += 0.0005 * (draw - 0.5);
            let speed = number(own.speed);
            let x = wrap(number(own.position.0) + rotation.cos() * speed / 300.0);
            let y = wrap(number(own.position.1) + rotation.sin() * speed / 300.0);
            Some(Reply::Motion { rotation: scalar(rotation), position: (scalar(x), scalar(y)) })
        }
        Step::Done => None,
    }
}

/// One tick of the flock; the agent at place `k` takes `draws[k]` for its
/// jitter. Gives the biases that each agent was moved by too.
fn tick_with_biases(flock: Vec<Boid>, draws: &[f32]) -> (Vec<Boid>, Vec<(i32, i32)>) {
    let mut tick = BoidManager::new(flock).update();
    let mut biases = Vec::new();
    let mut speed_bias = 0;
    loop {
        let step = tick.pending();
        match step {
            Step::Accelerate { bias, .. } => speed_bias = bias,
            Step::Move { bias, .. } => biases.push((speed_bias, bias)),
            _ => {}
        }
        let draw = draws.get(biases.len().saturating_sub(1)).copied().unwrap_or(0.5);
        match compute(step, draw) {
            Some(reply) => {
                let (next, taken) = tick.answer(reply);
                assert!(taken);
                tick = next;
            }
            None => break,
        }
    }
    (tick.finish().into_boids(), biases)
}

fn tick(flock: Vec<Boid>, draws: &[f32]) -> Vec<Boid> {
    tick_with_biases(flock, draws).0
}

struct Draws(u64);

impl Draws {
    fn unit(&mut self) -> f32 {
        self.0 = self.0.wrapping_mul(6364136223846793005).wrapping_add(1442695040888963407);
        ((self.0 >> 40) as u32) as f32 / 16777216.0
    }

    fn units(&mut self, count: usize) -> Vec<f32> {
        (0..count).map(|_| self.unit()).collect()
    }

    fn flock(&mut self, count: usize) -> Vec<Boid> {
        (0..count)
            .map(|_| Boid {
                position: (scalar(100.0 * self.unit() - 50.0), scalar(100.0 * self.unit() - 50.0)),
                color: (scalar(self.unit() * 0.7), scalar(self.unit() * 0.7), scalar(self.unit() * 0.7)),
                rotation: scalar(self.unit() * 2.0 * std::f32::consts::PI),
                speed: scalar(self.unit() * 2.0 + 1.0),
            })
            .collect()
    }
}

#[test]
fn an_empty_flock_ticks_to_an_empty_flock() {
    assert!(tick(Vec::new(), &[]).is_empty());
}

#[test]
fn the_tally_does_not_depend_on_the_order_of_a_scan() {
    let own = boid(0.0, 0.0, 0.3, 2.0);
    let others = Draws(31).flock(25);
    let scan = |order: &[usize]| {
        let mut tally = Tally::new();
        let mut met = 0i128;
        for &k in order {
            let other = &others[k];
            let near = Sighting { dist: scalar(number(measure(&own, other).dist) / 20.0), ..measure(&own, other) };
            tally = observe(tally, own.pose(), other.pose(), near).0;
            met += 1;
            assert!(-met <= tally.speed && tally.speed <= met);
            assert!(-met <= tally.turn && tally.turn <= met);
        }
        tally
    };
    let straight: Vec<usize> = (0..25).collect();
    let reversed: Vec<usize> = (0..25).rev().collect();
    let strided: Vec<usize> = (0..25).map(|k| (7 * k + 3) % 25).collect();
    let tally = scan(&straight);
    assert_ne!(tally, Tally::new());
    assert_eq!(scan(&reversed), tally);
    assert_eq!(scan(&strided), tally);
}

#[test]
fn speed_stays_between_one_and_three() {
    let mut draws = Draws(11);
    let mut flock = draws.flock(40);
    flock[0].speed = scalar(1.0);
    flock[1].speed = scalar(3.0);
    for _ in 0..60 {
        let jitter = draws.units(flock.len());
        flock = tick(flock, &jitter);
        for agent in &flock {
            let speed = number(agent.speed);
            assert!(1.0 <= speed && speed <= 3.0, "{agent:?}");
        }
    }
}

#[test]
fn speed_is_brought_back_from_anywhere() {
    for start in [0.2f32, 0.99995, 3.00005, 12.0, -4.0, f32::NAN, f32::INFINITY] {
        let after = tick(vec![boid(0.0, 0.0, 1.0, start)], &[0.5]);
        let speed = number(after[0].speed);
        assert!(1.0 <= speed && speed <= 3.0, "{start:?}");
    }
}

#[test]
fn position_stays_in_the_arena() {
    let mut draws = Draws(12);
    let mut flock = draws.flock(40);
    flock[0].position = (scalar(104.995), scalar(-104.995));
    flock[1].position = (scalar(-104.995), scalar(104.995));
    for _ in 0..60 {
        let jitter = draws.units(flock.len());
        flock = tick(flock, &jitter);
        for agent in &flock {
            for coordinate in [number(agent.position.0), number(agent.position.1)] {
                assert!(-105.0 <= coordinate && coordinate < 105.0, "{agent:?}");
            }
        }
    }
}

#[test]
fn equal_flocks_with_equal_draws_stay_equal() {
    let mut first = Draws(13).flock(30);
    let mut second = Draws(13).flock(30);
    let (mut first_draws, mut second_draws) = (Draws(77), Draws(77));
    for _ in 0..30 {
        first = tick(first, &first_draws.units(30));
        second = tick(second, &second_draws.units(30));
    }
    assert_eq!(first, second);
    assert_ne!(first, Draws(13).flock(30));
}

#[test]
fn storage_order_does_not_change_an_agent() {
    // Seven apart on a line: near enough to be perceived, too far to crowd.
    let flock: Vec<Boid> = (0..6)
        .map(|k| {
            boid(
                7.0 * k as f32 - 20.0,
                0.5 * k as f32,
                [0.1f32, 3.0, 6.2, 0.4, 2.9, 0.0][k],
                [1.5f32, 2.5, 1.0, 3.0, 2.0, 1.5][k],
            )
        })
        .collect();
    let draws = Draws(5).units(6);
    let order = [4usize, 0, 5, 2, 1, 3];

    let (straight, biases) = tick_with_biases(flock.clone(), &draws);
    assert!(biases.iter().any(|&bias| bias != (0, 0)));

    let shuffled: Vec<Boid> = order.iter().map(|&k| flock[k]).collect();
    let shuffled_draws: Vec<f32> = order.iter().map(|&k| draws[k]).collect();
    let shuffled = tick(shuffled, &shuffled_draws);

    for (place, &k) in order.iter().enumerate() {
        assert_eq!(shuffled[place], straight[k]);
    }
}

#[test]
fn an_agent_is_advanced_as_if_it_were_the_first() {
    // What the tick settles of the agents before an agent does not reach it:
    // put the agent first, and it comes out the same.
    let flock = Draws(21).flock(12);
    let draws = Draws(22).units(12);
    let ticked = tick(flock.clone(), &draws);
    assert_ne!(ticked, flock);
    for place in 1..flock.len() {
        let mut turned = flock.clone();
        turned.rotate_left(place);
        let mut turned_draws = draws.clone();
        turned_draws.rotate_left(place);
        let mut met = Vec::new();
        let mut tick = BoidManager::new(turned).update();
        let first = loop {
            let step = tick.pending();
            if let Step::Measure { other, .. } = step {
                met.push(other);
            }
            if let (Step::Move { own, .. }, Some(Reply::Motion { rotation, position })) =
                (step, compute(step, turned_draws[0]))
            {
                break Boid { rotation, position, ..own };
            }
            tick = tick.answer(compute(step, turned_draws[0]).unwrap()).0;
        };
        // The scan runs in another order here, so the pushes add up in
        // another order: the outcome is compared where no neighbour pushed.
        let pushed = met.iter().any(|other| {
            observe(Tally::new(), flock[place].pose(), other.pose(), measure(&flock[place], other)).1 != Nudge::Hold
        });
        if !pushed {
            assert_eq!(first, ticked[place]);
        }
    }
}

#[test]
fn a_lone_agent_is_moved_by_jitter_and_speed_alone() {
    let lone = boid(3.0, -4.0, 0.75, 2.25);
    let draw = 0.875f32;
    let (after, biases) = tick_with_biases(vec![lone], &[draw]);
    assert_eq!(biases, vec![(0, 0)]);
    let rotation = 0.75f32 + 0.0005 * (draw - 0.5);
    let expected = Boid {
        position: (
            scalar(wrap(3.0 + rotation.cos() * 2.25 / 300.0)),
            scalar(wrap(-4.0 + rotation.sin() * 2.25 / 300.0)),
        ),
        rotation: scalar(rotation),
        ..lone
    };
    assert_eq!(after, vec![expected]);
}

#[test]
fn agents_in_one_place_with_one_heading_do_not_see_each_other() {
    let twin = boid(1.0, 1.0, 0.5, 2.0);
    let (_, biases) = tick_with_biases(vec![twin, Boid { speed: scalar(2.5), ..twin }, twin], &[0.5; 3]);
    assert_eq!(biases, vec![(0, 0); 3]);
}

#[test]
fn an_agent_that_leaves_on_one_side_comes_back_on_the_other() {
    let mut flock = vec![boid(104.9999, 0.0, 0.0, 3.0)];
    let mut wrapped = false;
    for _ in 0..20 {
        flock = tick(flock, &[0.5]);
        let x = number(flock[0].position.0);
        assert!(-105.0 <= x && x < 105.0);
        if !wrapped && x < 0.0 {
            assert!(-105.0 <= x && x < -104.9, "{x}");
            wrapped = true;
        }
    }
    assert!(wrapped);
}

#[test]
fn agents_that_face_each_other_closely_turn_apart() {
    let west = boid(0.0, 0.0, 0.0, 2.0);
    let east = boid(10.0f32.sqrt(), 0.0, std::f32::consts::PI, 2.0);
    let after = tick(vec![west, east], &[0.5, 0.5]);
    let (west_before, east_before) = (number(west.rotation), number(east.rotation));
    let (west_after, east_after) = (number(after[0].rotation), number(after[1].rotation));
    assert!(west_after < west_before);
    assert!(east_after > east_before);
    assert!((east_after - west_after).abs() > (east_before - west_before).abs());
    // The push outweighs the pull of the vote: about 0.00675 against 0.00175.
    assert!((west_before - west_after - 0.005).abs() < 0.0001);
    assert!((east_after - east_before - 0.005).abs() < 0.0001);
}

#[test]
fn a_flock_is_its_boids_in_their_order() {
    let boids = Draws(3).flock(5);
    let flock = BoidManager::new(boids.clone());
    assert_eq!(flock.boids_len(), 5);
    assert_eq!(flock.boids(), &boids);
    assert_eq!(flock.into_boids(), boids);
    assert_eq!(BoidManager::new(Vec::new()).boids_len(), 0);
}

#[test]
fn a_boid_shows_its_speed_and_heading() {
    let agent = boid(1.0, 2.0, 0.25, 1.5);
    assert_eq!(agent.pose(), Pose { speed: scalar(1.5), rotation: scalar(0.25) });
    let rest = Boid::new_at_rest();
    assert_eq!(rest, boid_of_bits(0));
}

fn boid_of_bits(bits: u32) -> Boid {
    let s = Scalar::from_bits(bits);
    Boid { position: (s, s), color: (s, s, s), rotation: s, speed: s }
}

#[test]
fn randomise_colour_takes_three_draws_for_each_boid() {
    let boids = Draws(4).flock(3);
    let mut flock = BoidManager::new(boids.clone());
    let draws: Vec<Scalar> = (0..9).map(|k| scalar(k as f32 / 16.0)).collect();
    flock.randomise_colour(&draws);
    assert_eq!(flock.boids_len(), 3);
    for (k, agent) in flock.boids().iter().enumerate() {
        let color = (draws[3 * k], draws[3 * k + 1], draws[3 * k + 2]);
        assert_eq!(*agent, Boid { color, ..boids[k] });
    }
    assert_eq!(flock.boids()[1].color, (scalar(3.0 / 16.0), scalar(4.0 / 16.0), scalar(5.0 / 16.0)));
}

#[test]
fn randomise_position_takes_two_draws_for_each_boid() {
    let boids = Draws(4).flock(3);
    let mut flock = BoidManager::new(boids.clone());
    let draws: Vec<Scalar> = (0..6).map(|k| scalar(k as f32 / 8.0)).collect();
    flock.randomise_position(&draws);
    assert_eq!(flock.boids_len(), 3);
    for (k, agent) in flock.boids().iter().enumerate() {
        assert_eq!(*agent, Boid { position: (draws[2 * k], draws[2 * k + 1]), ..boids[k] });
    }
    assert_eq!(flock.boids()[2].position, (scalar(0.5), scalar(0.625)));
}

#[test]
fn randomising_an_empty_flock_takes_no_draw() {
    let mut flock = BoidManager::new(Vec::new());
    flock.randomise_colour(&Vec::new());
    flock.randomise_position(&Vec::new());
    assert_eq!(flock.boids_len(), 0);
}
