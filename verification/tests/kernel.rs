use compute_dispatch::error::ComputeError;
use compute_dispatch::kernel::{
    build_kernel, Addressing, ArgKind, Filtering, KernelArg, Sampler, Scalar,
};
use compute_dispatch::memory::{create_buffer, create_image, Access, Channels, ElementType};
use compute_dispatch::shape::Extent;

#[test]
fn new_kernel_has_no_arguments() {
    let kernel = build_kernel("add_vectors".to_string(), Extent::One(1024), Extent::One(256)).unwrap();
    assert_eq!(kernel.entry_point(), "add_vectors");
    assert_eq!(kernel.shape().global(), Extent::One(1024));
    assert_eq!(kernel.shape().local(), Extent::One(256));
    assert!(kernel.args().is_empty());
    assert!(kernel.matches_signature(&vec![]));
}

#[test]
fn kernel_with_indivisible_shape_is_rejected() {
    let r = build_kernel("add_vectors".to_string(), Extent::One(1000), Extent::One(256));
    assert_eq!(r.err(), Some(ComputeError::InvalidWorkShape));
    let r = build_kernel("convolution".to_string(), Extent::Two(1500, 1500), Extent::Two(4, 7));
    assert_eq!(r.err(), Some(ComputeError::InvalidWorkShape));
}

#[test]
fn arguments_keep_the_order_of_binding() {
    let x = create_buffer(1024, Access::ReadOnly, Some(1024)).unwrap();
    let y = create_buffer(1024, Access::ReadOnly, Some(1024)).unwrap();
    let z = create_buffer(1024, Access::ReadWrite, None).unwrap();
    let mut kernel =
        build_kernel("add_vectors".to_string(), Extent::One(1024), Extent::One(256)).unwrap();
    kernel.bind_argument(KernelArg::Buffer(x));
    kernel.bind_argument(KernelArg::Buffer(y));
    kernel.bind_argument(KernelArg::Buffer(z));
    assert_eq!(
        kernel.args(),
        &vec![KernelArg::Buffer(x), KernelArg::Buffer(y), KernelArg::Buffer(z)]
    );
    assert_eq!(kernel.entry_point(), "add_vectors");
    assert_eq!(kernel.shape().groups(), Extent::One(4));
}

#[test]
fn arguments_in_another_order_are_bound_all_the_same() {
    let input = create_buffer(64, Access::ReadOnly, Some(64)).unwrap();
    let output = create_buffer(256, Access::HostReadOnly, None).unwrap();
    let count = Scalar::UInt(64);
    let declared = vec![ArgKind::Buffer, ArgKind::Scalar, ArgKind::Buffer];

    let mut right = build_kernel("histogram".to_string(), Extent::One(1024), Extent::One(64)).unwrap();
    right.bind_argument(KernelArg::Buffer(input));
    right.bind_argument(KernelArg::Scalar(count));
    right.bind_argument(KernelArg::Buffer(output));
    assert!(right.matches_signature(&declared));

    let mut swapped =
        build_kernel("histogram".to_string(), Extent::One(1024), Extent::One(64)).unwrap();
    swapped.bind_argument(KernelArg::Buffer(output));
    swapped.bind_argument(KernelArg::Scalar(count));
    swapped.bind_argument(KernelArg::Buffer(input));
    assert_eq!(swapped.args().len(), 3);
    assert_eq!(swapped.args()[0], KernelArg::Buffer(output));
    assert_eq!(swapped.args()[2], KernelArg::Buffer(input));
    assert!(swapped.matches_signature(&declared));
    assert_ne!(swapped.args(), right.args());

    let mut wrong = build_kernel("histogram".to_string(), Extent::One(1024), Extent::One(64)).unwrap();
    wrong.bind_argument(KernelArg::Scalar(count));
    wrong.bind_argument(KernelArg::Buffer(input));
    wrong.bind_argument(KernelArg::Buffer(output));
    assert_eq!(wrong.args().len(), 3);
    assert!(!wrong.matches_signature(&declared));
}

#[test]
fn signature_of_the_convolution_kernel() {
    let input = create_image(1488, 1488, Channels::R, ElementType::Float32, Access::ReadOnly).unwrap();
    let output = create_image(1488, 1488, Channels::R, ElementType::Float32, Access::WriteOnly).unwrap();
    let filter = create_buffer(25, Access::ReadOnly, Some(25)).unwrap();
    let sampler = Sampler {
        normalized_coords: false,
        addressing: Addressing::ClampToEdge,
        filtering: Filtering::Nearest,
    };
    let mut kernel =
        build_kernel("convolution".to_string(), Extent::Two(1500, 1500), Extent::Two(4, 4)).unwrap();
    kernel.bind_argument(KernelArg::Image(input));
    kernel.bind_argument(KernelArg::Image(output));
    kernel.bind_argument(KernelArg::Buffer(filter));
    kernel.bind_argument(KernelArg::Scalar(Scalar::Int(5)));
    assert!(!kernel.matches_signature(&vec![
        ArgKind::Image,
        ArgKind::Image,
        ArgKind::Buffer,
        ArgKind::Scalar,
        ArgKind::Sampler,
    ]));
    kernel.bind_argument(KernelArg::Sampler(sampler));
    assert!(kernel.matches_signature(&vec![
        ArgKind::Image,
        ArgKind::Image,
        ArgKind::Buffer,
        ArgKind::Scalar,
        ArgKind::Sampler,
    ]));
    assert!(!kernel.matches_signature(&vec![
        ArgKind::Image,
        ArgKind::Image,
        ArgKind::Buffer,
        ArgKind::Scalar,
    ]));
    assert_eq!(kernel.args()[4], KernelArg::Sampler(sampler));
}

#[test]
fn kinds_of_arguments() {
    let buffer = create_buffer(1, Access::ReadWrite, None).unwrap();
    let image = create_image(1, 1, Channels::Rgba, ElementType::Float32, Access::ReadWrite).unwrap();
    let sampler = Sampler {
        normalized_coords: true,
        addressing: Addressing::Repeat,
        filtering: Filtering::Linear,
    };
    assert_eq!(KernelArg::Buffer(buffer).kind(), ArgKind::Buffer);
    assert_eq!(KernelArg::Image(image).kind(), ArgKind::Image);
    assert_eq!(KernelArg::Scalar(Scalar::FloatBits(0x3f80_0000)).kind(), ArgKind::Scalar);
    assert_eq!(KernelArg::Sampler(sampler).kind(), ArgKind::Sampler);
}
