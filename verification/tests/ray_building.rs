use chess_rays::{all_pos, Dir, Idir, Pos, Ray, Upos};

const STEPS: [Idir; 5] = [Idir::STILL, Idir::UP, Idir::DOWN, Idir::UP2, Idir::DOWN2];

const A1: Pos = Pos { file: Upos::A, rank: Upos::A };
const B1: Pos = Pos { file: Upos::B, rank: Upos::A };
const C1: Pos = Pos { file: Upos::C, rank: Upos::A };
const B3: Pos = Pos { file: Upos::B, rank: Upos::C };
const C3: Pos = Pos { file: Upos::C, rank: Upos::C };
const D3: Pos = Pos { file: Upos::D, rank: Upos::C };
const E3: Pos = Pos { file: Upos::E, rank: Upos::C };
const F3: Pos = Pos { file: Upos::F, rank: Upos::C };
const G3: Pos = Pos { file: Upos::G, rank: Upos::C };
const H3: Pos = Pos { file: Upos::H, rank: Upos::C };
const H8: Pos = Pos { file: Upos::H, rank: Upos::H };

fn delta(step: Idir) -> i32 {
    match step {
        Idir::STILL => 0,
        Idir::UP => 1,
        Idir::DOWN => -1,
        Idir::UP2 => 2,
        Idir::DOWN2 => -2,
    }
}

/// The square `k` steps of `dir` from `pos`, by plain arithmetic on the coordinates.
fn walk(pos: Pos, dir: Dir, k: i32) -> Option<Pos> {
    let file = pos.file.index() as i32 + k * delta(dir.0);
    let rank = pos.rank.index() as i32 + k * delta(dir.1);
    if (0..8).contains(&file) && (0..8).contains(&rank) {
        Some(all_pos()[(file * 8 + rank) as usize])
    } else {
        None
    }
}

#[test]
fn one_step_has_no_squares_between() {
    let ray = Ray::new(A1, Dir(Idir::UP, Idir::STILL), 1);
    let ray = ray.expect("b1 is on the board");
    assert_eq!(ray.orig, A1);
    assert_eq!(ray.dest, B1);
    assert!(ray.between.is_empty());
}

#[test]
fn two_steps_from_a1_pass_b1_and_end_on_c1() {
    let ray = Ray::new(A1, Dir(Idir::UP, Idir::STILL), 2);
    let ray = ray.expect("c1 is on the board");
    assert_eq!(ray.orig, A1);
    assert_eq!(ray.between, vec![B1]);
    assert_eq!(ray.dest, C1);
}

#[test]
fn six_steps_from_b3_along_the_rank_end_on_h3() {
    let ray = Ray::new(B3, Dir(Idir::UP, Idir::STILL), 6);
    let ray = ray.expect("h3 is on the board");
    assert_eq!(ray.orig, B3);
    assert_eq!(ray.between, vec![C3, D3, E3, F3, G3]);
    assert_eq!(ray.dest, H3);
}

#[test]
fn the_long_diagonal_has_six_squares_between() {
    let ray = Ray::new(A1, Dir(Idir::UP, Idir::UP), 7);
    let ray = ray.expect("h8 is on the board");
    assert_eq!(ray.dest, H8);
    assert_eq!(ray.between.len(), 6);
    for (i, pos) in ray.between.iter().enumerate() {
        assert_eq!(pos.file.index(), i + 1);
        assert_eq!(pos.rank.index(), i + 1);
    }
}

#[test]
fn a_knight_jump_is_a_ray_of_one_step() {
    let ray = Ray::new(B1, Dir(Idir::UP, Idir::UP2), 1);
    let ray = ray.expect("c3 is on the board");
    assert_eq!(ray.dest, C3);
    assert!(ray.between.is_empty());
    assert!(Ray::new(B1, Dir(Idir::UP2, Idir::DOWN), 1).is_none());
}

#[test]
fn standing_still_gives_a_ray_that_stays() {
    let ray = Ray::new(A1, Dir(Idir::STILL, Idir::STILL), 3);
    let ray = ray.expect("a1 is on the board");
    assert_eq!(ray.orig, A1);
    assert_eq!(ray.dest, A1);
    assert_eq!(ray.between, vec![A1, A1]);
}

#[test]
fn a_walk_that_leaves_the_board_gives_no_ray() {
    assert!(Ray::new(H3, Dir(Idir::UP, Idir::STILL), 1).is_none());
    assert!(Ray::new(G3, Dir(Idir::UP, Idir::STILL), 2).is_none());
    assert!(Ray::new(B3, Dir(Idir::UP, Idir::STILL), 7).is_none());
    assert!(Ray::new(A1, Dir(Idir::UP, Idir::UP), 8).is_none());
    assert!(Ray::new(A1, Dir(Idir::DOWN, Idir::STILL), 1).is_none());
    assert!(Ray::new(F3, Dir(Idir::UP2, Idir::STILL), 2).is_none());
    assert!(Ray::new(A1, Dir(Idir::UP, Idir::STILL), 255).is_none());
}

#[test]
fn no_shorter_ray_stands_in_for_one_that_leaves_the_board() {
    let dir = Dir(Idir::UP, Idir::STILL);
    for n in 1..=6u8 {
        let ray = Ray::new(B3, dir, n).expect("the ray ends on the board");
        assert_eq!(ray.between.len(), n as usize - 1);
    }
    for n in 7..=20u8 {
        assert!(Ray::new(B3, dir, n).is_none(), "{} steps from b3 leave the board", n);
    }
}

#[test]
fn zero_steps_give_no_ray() {
    for pos in all_pos() {
        for df in STEPS {
            for dr in STEPS {
                assert!(Ray::new(pos, Dir(df, dr), 0).is_none());
            }
        }
    }
}

#[test]
fn every_ray_agrees_with_arithmetic() {
    let mut built = 0;
    for pos in all_pos() {
        for df in STEPS {
            for dr in STEPS {
                let dir = Dir(df, dr);
                for n in 1..=9u8 {
                    let ray = Ray::new(pos, dir, n);
                    match walk(pos, dir, n as i32) {
                        None => assert!(ray.is_none()),
                        Some(dest) => {
                            let ray = ray.expect("the ray ends on the board");
                            assert_eq!(ray.orig, pos);
                            assert_eq!(ray.dest, dest);
                            assert_eq!(ray.between.len(), n as usize - 1);
                            for (i, passed) in ray.between.iter().enumerate() {
                                assert_eq!(Some(*passed), walk(pos, dir, i as i32 + 1));
                            }
                            built += 1;
                        },
                    }
                }
            }
        }
    }
    assert!(built > 0);
}

#[test]
fn a_longer_ray_passes_what_the_shorter_one_passes() {
    let dir = Dir(Idir::UP, Idir::UP);
    let long = Ray::new(A1, dir, 7).expect("h8 is on the board");
    for n in 1..7u8 {
        let short = Ray::new(A1, dir, n).expect("the ray ends on the board");
        assert_eq!(short.between[..], long.between[..n as usize - 1]);
        assert_eq!(short.dest, long.between[n as usize - 1]);
    }
}
