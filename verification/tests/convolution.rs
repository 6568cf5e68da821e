use recipe_ops::{ByteCount, OperationErrorKind, prepare_channelwise_convolution_1d};

#[test]
fn window_and_gradient_tables_for_a_small_convolution() {
    // batch 1, input length 3, 2 channels, 1 filter, kernel 2: output length 2.
    let prepared = prepare_channelwise_convolution_1d(1, 3, 2, 1, 2).unwrap();
    assert_eq!(prepared.output_length(), 2);
    assert_eq!(prepared.input_elements(), 6);
    assert_eq!(prepared.output_elements(), 2);
    assert_eq!(prepared.window_indices(), &[0, 1, 2, 3, 2, 3, 4, 5]);
    assert_eq!(prepared.window_indices_shape(), [1, 2, 2, 2]);
    assert_eq!(prepared.input_gradient_indices_shape(), [1, 3, 2, 1]);
    assert_eq!(prepared.input_gradient_indices(), &[0, 0, 1, 0, 0, 1]);
    assert_eq!(prepared.input_gradient_validity(), &[0x3f80_0000, 0, 0x3f80_0000, 0x3f80_0000, 0, 0x3f80_0000]);
    assert_eq!(prepared.input_shape(), [6]);
    assert_eq!(prepared.output_shape(), [1, 2, 1]);
    assert_eq!(prepared.forward_workspace(), ByteCount(32));
    assert_eq!(prepared.backward_workspace(), ByteCount(56));
    assert_eq!(
        (prepared.batch(), prepared.input_length(), prepared.input_channels(), prepared.filters(), prepared.kernel_size()),
        (1, 3, 2, 1, 2)
    );
}

#[test]
fn batched_filters_index_the_flat_output() {
    let prepared = prepare_channelwise_convolution_1d(2, 2, 1, 2, 1).unwrap();
    assert_eq!(prepared.output_length(), 2);
    assert_eq!(prepared.window_indices(), &[0, 1, 2, 3]);
    assert_eq!(prepared.input_gradient_indices(), &[0, 1, 2, 3, 4, 5, 6, 7]);
    assert!(prepared.input_gradient_validity().iter().all(|bits| *bits == 0x3f80_0000));
    assert_eq!(prepared.forward_workspace(), ByteCount(16));
    assert_eq!(prepared.backward_workspace(), ByteCount(48));
}

#[test]
fn unsupported_convolutions_are_refused() {
    for (batch, length, channels, filters, kernel) in [(0, 3, 1, 1, 1), (1, 0, 1, 1, 1), (1, 3, 0, 1, 1), (1, 3, 1, 0, 1), (1, 3, 1, 1, 0), (1, 3, 1, 1, 4)] {
        let error = prepare_channelwise_convolution_1d(batch, length, channels, filters, kernel).unwrap_err();
        assert_eq!(error.kind, OperationErrorKind::UnsupportedConcreteShape);
    }
    let too_large = prepare_channelwise_convolution_1d(1, 1 << 31, 1, 1, 1).unwrap_err();
    assert_eq!(too_large.kind, OperationErrorKind::UnsupportedConcreteShape);
    let overflow = prepare_channelwise_convolution_1d(u64::MAX, 2, 2, 1, 1).unwrap_err();
    assert_eq!(overflow.kind, OperationErrorKind::UnsupportedConcreteShape);
}
