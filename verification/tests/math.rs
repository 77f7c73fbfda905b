use glam::{Mat3, Mat4, Vec4, Vec4Swizzles};
use mesh_tools::math::{normal_matrix, xyz};

fn sample() -> mesh_tools::Mat4 {
    mesh_tools::Mat4 {
        x_axis: [11, 21, 31, 41],
        y_axis: [12, 22, 32, 42],
        z_axis: [13, 23, 33, 43],
        w_axis: [14, 24, 34, 44],
    }
}

#[test]
fn transposing_turns_rows_into_columns() {
    let t = sample().transpose();
    assert_eq!(
        t,
        mesh_tools::Mat4 {
            x_axis: [11, 12, 13, 14],
            y_axis: [21, 22, 23, 24],
            z_axis: [31, 32, 33, 34],
            w_axis: [41, 42, 43, 44],
        }
    );
    assert_eq!(t.transpose(), sample());
}

#[test]
fn the_normal_matrix_is_the_upper_left_part_of_the_transpose() {
    assert_eq!(xyz(&[5, 6, 7, 8]), [5, 6, 7]);
    assert_eq!(
        normal_matrix(&sample()),
        mesh_tools::Mat3 { x_axis: [11, 12, 13], y_axis: [21, 22, 23], z_axis: [31, 32, 33] }
    );
}

#[test]
fn bit_patterns_are_moved_as_glam_moves_floats() {
    let floats = Mat4::from_cols(
        Vec4::new(1.5, -2.0, 0.25, 0.0),
        Vec4::new(3.0, 4.5, -0.5, 0.0),
        Vec4::new(-7.0, 8.0, 9.75, 0.0),
        Vec4::new(10.0, -11.0, 12.0, 1.0),
    );
    let bits = |m: Mat4| mesh_tools::Mat4 {
        x_axis: m.x_axis.to_array().map(f32::to_bits),
        y_axis: m.y_axis.to_array().map(f32::to_bits),
        z_axis: m.z_axis.to_array().map(f32::to_bits),
        w_axis: m.w_axis.to_array().map(f32::to_bits),
    };
    assert_eq!(bits(floats).transpose(), bits(floats.transpose()));

    let transposed = floats.transpose();
    let upper_left = Mat3 {
        x_axis: transposed.x_axis.xyz(),
        y_axis: transposed.y_axis.xyz(),
        z_axis: transposed.z_axis.xyz(),
    };
    assert_eq!(
        normal_matrix(&bits(floats)),
        mesh_tools::Mat3 {
            x_axis: upper_left.x_axis.to_array().map(f32::to_bits),
            y_axis: upper_left.y_axis.to_array().map(f32::to_bits),
            z_axis: upper_left.z_axis.to_array().map(f32::to_bits),
        }
    );
}
