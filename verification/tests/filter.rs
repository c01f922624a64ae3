use compute_dispatch::filter::{
    generate_uniform_kernel, kernel_side, squared_distances, MAX_RADIUS, MAX_UNIFORM_SIDE,
};

fn gaussian_over(grid: &[u32], sigma: f32) -> Vec<f32> {
    let mut kernel: Vec<f32> = Vec::new();
    let mut sum = 0.0;
    for d in grid {
        let value = (1.0 / (2.0 * std::f32::consts::PI * sigma.powi(2)))
            * (-(*d as f32) / (2.0 * sigma.powi(2))).exp();
        kernel.push(value);
        sum += value;
    }
    for ele in kernel.iter_mut() {
        *ele /= sum;
    }
    kernel
}

#[test]
fn test_generate_kernel() {
    let kernel_size: usize = 5;

    let grid = squared_distances(kernel_size as i32 / 2);
    let kernel = gaussian_over(&grid, 1.0);
    assert_eq!(kernel.len(), kernel_size * kernel_size);
    assert!((1.0 - kernel.iter().sum::<f32>()).abs() < 1e-6);
}

#[test]
fn gaussian_kernels_sum_to_one() {
    for radius in 0..8 {
        for sigma in [0.5f32, 1.0, 2.0, 7.5] {
            let grid = squared_distances(radius);
            let kernel = gaussian_over(&grid, sigma);
            assert_eq!(kernel.len(), ((2 * radius + 1) * (2 * radius + 1)) as usize);
            assert!((1.0 - kernel.iter().sum::<f32>()).abs() < 1e-6);
        }
    }
}

#[test]
fn kernel_side_is_odd() {
    assert_eq!(kernel_side(0), 1);
    assert_eq!(kernel_side(1), 3);
    assert_eq!(kernel_side(2), 5);
    assert_eq!(kernel_side(7), 15);
    assert_eq!(kernel_side(MAX_RADIUS), 65535);
}

#[test]
fn grid_of_radius_zero() {
    assert_eq!(squared_distances(0), vec![0]);
}

#[test]
fn grid_of_radius_one() {
    assert_eq!(squared_distances(1), vec![2, 1, 2, 1, 0, 1, 2, 1, 2]);
}

#[test]
fn grid_of_radius_two() {
    assert_eq!(
        squared_distances(2),
        vec![
            8, 5, 4, 5, 8, //
            5, 2, 1, 2, 5, //
            4, 1, 0, 1, 4, //
            5, 2, 1, 2, 5, //
            8, 5, 4, 5, 8,
        ]
    );
}

#[test]
fn grid_entries_by_offset() {
    let radius: i32 = 6;
    let side = kernel_side(radius);
    let grid = squared_distances(radius);
    assert_eq!(grid.len(), side * side);
    for y in -radius..=radius {
        for x in -radius..=radius {
            let index = (y + radius) as usize * side + (x + radius) as usize;
            assert_eq!(grid[index], (x * x + y * y) as u32);
        }
    }
}

#[test]
fn grid_is_symmetric() {
    let radius: i32 = 4;
    let side = kernel_side(radius);
    let grid = squared_distances(radius);
    for row in 0..side {
        for col in 0..side {
            assert_eq!(grid[row * side + col], grid[col * side + row]);
            assert_eq!(grid[row * side + col], grid[(side - 1 - row) * side + (side - 1 - col)]);
        }
    }
    assert_eq!(grid[(side * side) / 2], 0);
}

#[test]
fn uniform_kernel_of_side_three() {
    let kernel = generate_uniform_kernel(3);
    assert_eq!(kernel.side(), 3);
    assert_eq!(kernel.weights(), &vec![1u64; 9]);
    assert_eq!(kernel.divisor(), 9);
}

#[test]
fn uniform_kernel_of_side_one() {
    let kernel = generate_uniform_kernel(1);
    assert_eq!(kernel.side(), 1);
    assert_eq!(kernel.weights(), &vec![1u64]);
    assert_eq!(kernel.divisor(), 1);
}

#[test]
fn uniform_kernels_sum_to_one() {
    for size in 1..=32u32 {
        let kernel = generate_uniform_kernel(size);
        assert_eq!(kernel.weights().len() as u32, size * size);
        assert!(kernel.weights().iter().all(|w| *w == 1));
        assert_eq!(kernel.weights().iter().sum::<u64>(), kernel.divisor());
        assert_eq!(kernel.divisor(), (size * size) as u64);
    }
}

#[test]
fn uniform_kernel_as_floats() {
    let filter_size: u32 = 15;
    let kernel = generate_uniform_kernel(filter_size);
    let floats: Vec<f32> =
        kernel.weights().iter().map(|w| *w as f32 / kernel.divisor() as f32).collect();
    assert_eq!(floats, vec![1.0 / 225.0f32; 225]);
    assert!((1.0 - floats.iter().sum::<f32>()).abs() < 1e-5);
}

#[test]
fn uniform_three_by_three_keeps_a_flat_image_flat() {
    let kernel = generate_uniform_kernel(3);
    let pixel = 1.0f32;
    let mut out = 0.0f32;
    for w in kernel.weights() {
        out += pixel * (*w as f32 / kernel.divisor() as f32);
    }
    assert!((out - 1.0).abs() < 1e-6);
}

#[test]
fn side_bounds() {
    assert_eq!(MAX_RADIUS, 32767);
    assert_eq!(MAX_UNIFORM_SIDE, 65535);
    let kernel = generate_uniform_kernel(256);
    assert_eq!(kernel.divisor(), 65536);
}
