use rubiks_cube::{
    build_face, build_facet, build_rubiks_cube, ColorFacet, Face, Facet, RotationDirection,
    RubiksCube,
};

fn scrambled() -> RubiksCube {
    build_rubiks_cube()
        .rotate(ColorFacet::Red, RotationDirection::Clockwise)
        .rotate(ColorFacet::White, RotationDirection::Anticlockwise)
        .rotate(ColorFacet::Blue, RotationDirection::Clockwise)
        .rotate(ColorFacet::Yellow, RotationDirection::Clockwise)
        .rotate(ColorFacet::Green, RotationDirection::Anticlockwise)
        .rotate(ColorFacet::Orange, RotationDirection::Clockwise)
}

fn faces(cube: &RubiksCube) -> Vec<Face> {
    vec![cube.red, cube.blue, cube.green, cube.orange, cube.white, cube.yellow]
}

fn cells(face: &Face) -> Vec<Facet> {
    vec![
        face.left_top,
        face.top,
        face.right_top,
        face.left,
        face.center,
        face.right,
        face.left_bottom,
        face.bottom,
        face.right_bottom,
    ]
}

fn face_of(cube: &RubiksCube, color: ColorFacet) -> Face {
    match color {
        ColorFacet::Red => cube.red,
        ColorFacet::Blue => cube.blue,
        ColorFacet::Green => cube.green,
        ColorFacet::Orange => cube.orange,
        ColorFacet::White => cube.white,
        ColorFacet::Yellow => cube.yellow,
    }
}

fn across(color: ColorFacet) -> ColorFacet {
    match color {
        ColorFacet::Red => ColorFacet::Orange,
        ColorFacet::Orange => ColorFacet::Red,
        ColorFacet::Blue => ColorFacet::Green,
        ColorFacet::Green => ColorFacet::Blue,
        ColorFacet::White => ColorFacet::Yellow,
        ColorFacet::Yellow => ColorFacet::White,
    }
}

#[test]
fn turn_then_back_restores_a_scrambled_cube() {
    let cube = scrambled();
    assert_ne!(cube, build_rubiks_cube());
    for color in ColorFacet::iterator() {
        for direction in RotationDirection::iterator() {
            let back = cube.rotate(color, direction).rotate(color, direction.opposite());
            assert_eq!(back, cube);
        }
    }
}

#[test]
fn four_turns_restore_a_scrambled_cube() {
    let cube = scrambled();
    for color in ColorFacet::iterator() {
        for direction in RotationDirection::iterator() {
            let once = cube.rotate(color, direction);
            assert_ne!(once, cube);
            let four = once.rotate(color, direction).rotate(color, direction).rotate(color, direction);
            assert_eq!(four, cube);
        }
    }
}

#[test]
fn one_turn_equals_three_back_on_a_scrambled_cube() {
    let cube = scrambled();
    for color in ColorFacet::iterator() {
        for direction in RotationDirection::iterator() {
            let back = direction.opposite();
            assert_eq!(
                cube.rotate(color, direction),
                cube.rotate(color, back).rotate(color, back).rotate(color, back)
            );
        }
    }
}

#[test]
fn moves_keep_nine_facets_of_each_color() {
    let mut cube = build_rubiks_cube();
    for round in 0..3 {
        for color in ColorFacet::iterator() {
            let direction = if round % 2 == 0 {
                RotationDirection::Clockwise
            } else {
                RotationDirection::Anticlockwise
            };
            cube = cube.rotate(color, direction);
        }
    }
    assert_ne!(cube, build_rubiks_cube());
    for color in ColorFacet::iterator() {
        let n = faces(&cube)
            .iter()
            .flat_map(|f| cells(f))
            .filter(|x| x.color == color)
            .count();
        assert_eq!(n, 9);
    }
    let mut all: Vec<(u8, u8)> = faces(&cube)
        .iter()
        .flat_map(|f| cells(f))
        .map(|x| (x.color.letter() as u8, x.index))
        .collect();
    let mut solved: Vec<(u8, u8)> = faces(&build_rubiks_cube())
        .iter()
        .flat_map(|f| cells(f))
        .map(|x| (x.color.letter() as u8, x.index))
        .collect();
    all.sort();
    solved.sort();
    assert_eq!(all, solved);
}

#[test]
fn a_turn_leaves_the_face_across_alone() {
    let cube = scrambled();
    for color in ColorFacet::iterator() {
        for direction in RotationDirection::iterator() {
            let turned = cube.rotate(color, direction);
            assert_eq!(face_of(&turned, across(color)), face_of(&cube, across(color)));
            assert_ne!(face_of(&turned, color), face_of(&cube, color));
        }
    }
}

#[test]
fn red_clockwise_cycles_the_four_strips_around_red() {
    let cube = build_rubiks_cube();
    let t = cube.rotate(ColorFacet::Red, RotationDirection::Clockwise);
    // White's bottom strip goes to Blue's left column.
    assert_eq!(t.blue.left_top, cube.white.left_bottom);
    assert_eq!(t.blue.left, cube.white.bottom);
    assert_eq!(t.blue.left_bottom, cube.white.right_bottom);
    // Blue's left column goes to Yellow's top row, reversed.
    assert_eq!(t.yellow.right_top, cube.blue.left_top);
    assert_eq!(t.yellow.top, cube.blue.left);
    assert_eq!(t.yellow.left_top, cube.blue.left_bottom);
    // Yellow's top row goes to Green's right column.
    assert_eq!(t.green.right_bottom, cube.yellow.right_top);
    assert_eq!(t.green.right, cube.yellow.top);
    assert_eq!(t.green.right_top, cube.yellow.left_top);
    // Green's right column goes to White's bottom row.
    assert_eq!(t.white.left_bottom, cube.green.right_bottom);
    assert_eq!(t.white.bottom, cube.green.right);
    assert_eq!(t.white.right_bottom, cube.green.right_top);
    // Red's center and the whole Orange face stay.
    assert_eq!(t.red.center, cube.red.center);
    assert_eq!(t.orange, cube.orange);
    // Cells off the strips keep their facets.
    assert_eq!(t.white.top, cube.white.top);
    assert_eq!(t.blue.right, cube.blue.right);
    assert_eq!(t.blue.left_top, Facet::new(ColorFacet::White, 7));
    assert_eq!(t.yellow.right_top, Facet::new(ColorFacet::Blue, 1));
}

#[test]
fn face_turns_move_the_ring_one_step() {
    let face = Face::new(ColorFacet::Green);
    let cw = face.rotate_clockwise();
    let tags: Vec<u8> = cells(&cw).iter().map(|x| x.index).collect();
    assert_eq!(tags, vec![7, 4, 1, 8, 5, 2, 9, 6, 3]);
    let acw = face.rotate_anticlockwise();
    let tags: Vec<u8> = cells(&acw).iter().map(|x| x.index).collect();
    assert_eq!(tags, vec![3, 6, 9, 2, 5, 8, 1, 4, 7]);
    assert_eq!(face.rotate(RotationDirection::Clockwise), cw);
    assert_eq!(face.rotate(RotationDirection::Anticlockwise), acw);
    assert_eq!(cw.rotate_anticlockwise(), face);
    assert_eq!(cw.rotate_clockwise().rotate_clockwise().rotate_clockwise(), face);
}

#[test]
fn each_dispatcher_matches_its_leaf() {
    let cube = scrambled();
    assert_eq!(cube.rotate_red(RotationDirection::Clockwise), cube.rotate_red_clockwise());
    assert_eq!(cube.rotate_red(RotationDirection::Anticlockwise), cube.rotate_red_anticlockwise());
    assert_eq!(cube.rotate_blue(RotationDirection::Clockwise), cube.rotate_blue_clockwise());
    assert_eq!(cube.rotate_blue(RotationDirection::Anticlockwise), cube.rotate_blue_anticlockwise());
    assert_eq!(cube.rotate_green(RotationDirection::Clockwise), cube.rotate_green_clockwise());
    assert_eq!(cube.rotate_green(RotationDirection::Anticlockwise), cube.rotate_green_anticlockwise());
    assert_eq!(cube.rotate_orange(RotationDirection::Clockwise), cube.rotate_orange_clockwise());
    assert_eq!(cube.rotate_orange(RotationDirection::Anticlockwise), cube.rotate_orange_anticlockwise());
    assert_eq!(cube.rotate_white(RotationDirection::Clockwise), cube.rotate_white_clockwise());
    assert_eq!(cube.rotate_white(RotationDirection::Anticlockwise), cube.rotate_white_anticlockwise());
    assert_eq!(cube.rotate_yellow(RotationDirection::Clockwise), cube.rotate_yellow_clockwise());
    assert_eq!(cube.rotate_yellow(RotationDirection::Anticlockwise), cube.rotate_yellow_anticlockwise());
}

#[test]
fn white_clockwise_passes_top_rows_from_red_to_green() {
    let cube = scrambled();
    let t = cube.rotate_white_clockwise();
    assert_eq!(t.green.left_top, cube.red.left_top);
    assert_eq!(t.green.top, cube.red.top);
    assert_eq!(t.orange.right_top, cube.green.right_top);
    assert_eq!(t.blue.top, cube.orange.top);
    assert_eq!(t.red.right_top, cube.blue.right_top);
    assert_eq!(t.yellow, cube.yellow);
}

#[test]
fn builders_tag_cells_row_by_row() {
    assert_eq!(build_facet(ColorFacet::Blue, 4), Facet { color: ColorFacet::Blue, index: 4 });
    assert_eq!(Facet::new(ColorFacet::Blue, 4), build_facet(ColorFacet::Blue, 4));
    let face = build_face(ColorFacet::Yellow);
    assert_eq!(face, Face::new(ColorFacet::Yellow));
    let tags: Vec<u8> = cells(&face).iter().map(|x| x.index).collect();
    assert_eq!(tags, vec![1, 2, 3, 4, 5, 6, 7, 8, 9]);
    assert!(cells(&face).iter().all(|x| x.color == ColorFacet::Yellow));
    let cube = build_rubiks_cube();
    for color in ColorFacet::iterator() {
        assert_eq!(face_of(&cube, color), Face::new(color));
    }
}

#[test]
fn enumerations_and_opposite() {
    assert_eq!(
        ColorFacet::iterator(),
        vec![
            ColorFacet::Red,
            ColorFacet::Blue,
            ColorFacet::Green,
            ColorFacet::Orange,
            ColorFacet::White,
            ColorFacet::Yellow
        ]
    );
    assert_eq!(
        RotationDirection::iterator(),
        vec![RotationDirection::Clockwise, RotationDirection::Anticlockwise]
    );
    assert_eq!(RotationDirection::Clockwise.opposite(), RotationDirection::Anticlockwise);
    assert_eq!(RotationDirection::Anticlockwise.opposite(), RotationDirection::Clockwise);
    let letters: String = ColorFacet::iterator().iter().map(|c| c.letter()).collect();
    assert_eq!(letters, "RBGOWY");
}
