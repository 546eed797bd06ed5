use rubiks_cube::{build_rubiks_cube, ColorFacet, RotationDirection};

#[test]
fn test_rotation_in_one_direction_then_opposite_should_give_identity() {
    let my_rubiks_cube = build_rubiks_cube();
    for color in ColorFacet::iterator().iter() {
        for direction in RotationDirection::iterator().iter() {
            let rotated_cube = my_rubiks_cube
                .rotate(*color, *direction)
                .rotate(*color, direction.opposite());
            assert!(
                my_rubiks_cube == rotated_cube,
                "\n{:?}\n{:?}",
                color,
                rotated_cube
            );
        }
    }
}

#[test]
fn test_four_same_rotation_should_give_identity() {
    let my_rubiks_cube = build_rubiks_cube();
    for color in ColorFacet::iterator().iter() {
        for direction in RotationDirection::iterator().iter() {
            let rotated_cube = my_rubiks_cube
                .rotate(*color, *direction)
                .rotate(*color, *direction)
                .rotate(*color, *direction)
                .rotate(*color, *direction);
            assert!(
                my_rubiks_cube == rotated_cube,
                "\n{:?}\n{:?}",
                color,
                rotated_cube
            );
        }
    }
}

#[test]
fn test_one_rotation_should_give_same_as_three_opposite_rotation() {
    let my_rubiks_cube = build_rubiks_cube();
    for color in ColorFacet::iterator().iter() {
        for direction in RotationDirection::iterator().iter() {
            let rotated_cube = my_rubiks_cube.rotate(*color, *direction);
            let opposite_rotated_cube = my_rubiks_cube
                .rotate(*color, direction.opposite())
                .rotate(*color, direction.opposite())
                .rotate(*color, direction.opposite());
            assert!(
                rotated_cube == opposite_rotated_cube,
                "\n{:?}\n{:?}",
                color,
                rotated_cube
            );
        }
    }
}
