use chess_rays::{all_pos, all_upos, Dir, Idir, Pos, Upos};

const STEPS: [Idir; 5] = [Idir::STILL, Idir::UP, Idir::DOWN, Idir::UP2, Idir::DOWN2];

fn delta(step: Idir) -> i32 {
    match step {
        Idir::STILL => 0,
        Idir::UP => 1,
        Idir::DOWN => -1,
        Idir::UP2 => 2,
        Idir::DOWN2 => -2,
    }
}

fn axis() -> Vec<Upos> {
    vec![Upos::A, Upos::B, Upos::C, Upos::D, Upos::E, Upos::F, Upos::G, Upos::H]
}

fn place(u: Upos) -> i32 {
    axis().iter().position(|&v| v == u).map_or(-1, |i| i as i32)
}

fn moved(u: Upos, step: Idir) -> Option<Upos> {
    let target = place(u) + delta(step);
    if (0..8).contains(&target) {
        Some(axis()[target as usize])
    } else {
        None
    }
}

#[test]
fn coordinate_plus_step_agrees_with_arithmetic() {
    let mut seen = 0;
    for u in axis() {
        for step in STEPS {
            assert_eq!(u + step, moved(u, step), "{:?} + {:?}", u, step);
            seen += 1;
        }
    }
    assert_eq!(seen, 40);
}

#[test]
fn standing_still_keeps_every_coordinate() {
    for u in axis() {
        assert_eq!(u + Idir::STILL, Some(u));
    }
}

#[test]
fn single_steps_at_the_ends_of_the_axis() {
    assert_eq!(Upos::A + Idir::UP, Some(Upos::B));
    assert_eq!(Upos::G + Idir::UP, Some(Upos::H));
    assert_eq!(Upos::H + Idir::UP, None);
    assert_eq!(Upos::H + Idir::DOWN, Some(Upos::G));
    assert_eq!(Upos::B + Idir::DOWN, Some(Upos::A));
    assert_eq!(Upos::A + Idir::DOWN, None);
}

#[test]
fn double_steps_land_two_places_away() {
    assert_eq!(Upos::A + Idir::UP2, Some(Upos::C));
    assert_eq!(Upos::B + Idir::UP2, Some(Upos::D));
    assert_eq!(Upos::C + Idir::UP2, Some(Upos::E));
    assert_eq!(Upos::D + Idir::UP2, Some(Upos::F));
    assert_eq!(Upos::E + Idir::UP2, Some(Upos::G));
    assert_eq!(Upos::F + Idir::UP2, Some(Upos::H));
    assert_eq!(Upos::H + Idir::DOWN2, Some(Upos::F));
    assert_eq!(Upos::G + Idir::DOWN2, Some(Upos::E));
    assert_eq!(Upos::F + Idir::DOWN2, Some(Upos::D));
    assert_eq!(Upos::E + Idir::DOWN2, Some(Upos::C));
    assert_eq!(Upos::D + Idir::DOWN2, Some(Upos::B));
    assert_eq!(Upos::C + Idir::DOWN2, Some(Upos::A));
}

#[test]
fn double_step_fails_where_a_single_step_would_stay() {
    assert_eq!(Upos::G + Idir::UP, Some(Upos::H));
    assert_eq!(Upos::G + Idir::UP2, None);
    assert_eq!(Upos::H + Idir::UP2, None);
    assert_eq!(Upos::B + Idir::DOWN, Some(Upos::A));
    assert_eq!(Upos::B + Idir::DOWN2, None);
    assert_eq!(Upos::A + Idir::DOWN2, None);
}

#[test]
fn coordinate_index_counts_from_a() {
    let places: Vec<usize> = axis().into_iter().map(|u| u.index()).collect();
    assert_eq!(places, vec![0, 1, 2, 3, 4, 5, 6, 7]);
}

#[test]
fn all_coordinates_lowest_first() {
    assert_eq!(all_upos(), axis());
}

#[test]
fn new_square_keeps_file_and_rank() {
    let pos = Pos::new(Upos::C, Upos::H);
    assert_eq!(pos.file, Upos::C);
    assert_eq!(pos.rank, Upos::H);
    assert_eq!(pos, Pos { file: Upos::C, rank: Upos::H });
    assert_ne!(pos, Pos::new(Upos::H, Upos::C));
}

#[test]
fn square_index_is_eight_files_plus_rank() {
    assert_eq!(Pos::new(Upos::A, Upos::A).index(), 0);
    assert_eq!(Pos::new(Upos::A, Upos::H).index(), 7);
    assert_eq!(Pos::new(Upos::B, Upos::A).index(), 8);
    assert_eq!(Pos::new(Upos::C, Upos::H).index(), 23);
    assert_eq!(Pos::new(Upos::H, Upos::A).index(), 56);
    assert_eq!(Pos::new(Upos::H, Upos::H).index(), 63);
    for file in axis() {
        for rank in axis() {
            assert_eq!(Pos::new(file, rank).index(), file.index() * 8 + rank.index());
        }
    }
}

#[test]
fn square_index_is_one_to_one_onto_0_to_63() {
    let mut seen = [false; 64];
    for file in axis() {
        for rank in axis() {
            let i = Pos::new(file, rank).index();
            assert!(i < 64);
            assert!(!seen[i], "index {} is taken twice", i);
            seen[i] = true;
        }
    }
    assert!(seen.iter().all(|&s| s));
}

#[test]
fn all_squares_are_listed_by_index() {
    let all = all_pos();
    assert_eq!(all.len(), 64);
    assert_eq!(all[0], Pos::new(Upos::A, Upos::A));
    assert_eq!(all[1], Pos::new(Upos::A, Upos::B));
    assert_eq!(all[7], Pos::new(Upos::A, Upos::H));
    assert_eq!(all[8], Pos::new(Upos::B, Upos::A));
    assert_eq!(all[63], Pos::new(Upos::H, Upos::H));
    for (i, pos) in all.iter().enumerate() {
        assert_eq!(pos.index(), i);
        assert_eq!(all[pos.index()], *pos);
    }
}

#[test]
fn the_corner_a8_is_on_file_a() {
    let a8 = all_pos()[7];
    assert_eq!(a8.file, Upos::A);
    assert_eq!(a8.rank, Upos::H);
}

#[test]
fn square_plus_direction_fails_exactly_when_an_axis_leaves_the_board() {
    let mut pairs = 0;
    for pos in all_pos() {
        for df in STEPS {
            for dr in STEPS {
                let file = moved(pos.file, df);
                let rank = moved(pos.rank, dr);
                let got = pos + Dir(df, dr);
                assert_eq!(got.is_none(), file.is_none() || rank.is_none());
                match (file, rank) {
                    (Some(file), Some(rank)) => assert_eq!(got, Some(Pos::new(file, rank))),
                    _ => assert_eq!(got, None),
                }
                pairs += 1;
            }
        }
    }
    assert_eq!(pairs, 64 * 25);
}

#[test]
fn square_plus_direction_examples() {
    let a1 = Pos::new(Upos::A, Upos::A);
    assert_eq!(a1 + Dir(Idir::UP, Idir::STILL), Some(Pos::new(Upos::B, Upos::A)));
    assert_eq!(a1 + Dir(Idir::STILL, Idir::UP), Some(Pos::new(Upos::A, Upos::B)));
    assert_eq!(a1 + Dir(Idir::UP, Idir::UP2), Some(Pos::new(Upos::B, Upos::C)));
    assert_eq!(a1 + Dir(Idir::UP2, Idir::DOWN), None);
    assert_eq!(a1 + Dir(Idir::DOWN, Idir::UP), None);
    assert_eq!(a1 + Dir(Idir::STILL, Idir::STILL), Some(a1));
    let g7 = Pos::new(Upos::G, Upos::G);
    assert_eq!(g7 + Dir(Idir::UP, Idir::UP), Some(Pos::new(Upos::H, Upos::H)));
    assert_eq!(g7 + Dir(Idir::UP2, Idir::UP), None);
    assert_eq!(g7 + Dir(Idir::UP, Idir::UP2), None);
    assert_eq!(g7 + Dir(Idir::DOWN2, Idir::DOWN2), Some(Pos::new(Upos::E, Upos::E)));
}
