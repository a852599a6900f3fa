use attention_rs::arith::{ProductOverflow, Quantity};
use attention_rs::kv_cache_copy::{CudaRangeError, KvCopyError};
use attention_rs::messages::OperandShapes;
use attention_rs::qk_rmsnorm_rope::{Extent, Operand, PositionsFault, QkError};
use attention_rs::ragged_prefill::{Count, RaggedError, Side};
use attention_rs::sampler::SamplerError;
use attention_rs::tensor::{DType, Location, RankError, TensorDesc};

#[test]
fn copy_errors_say_what_is_wrong() {
    assert_eq!(
        KvCopyError::BlockIndex { source: 0, destination: 10, blocks: 3 }.message(),
        "copy_kv_cache_block indices source=0, destination=10 exceed block count 3"
    );
    assert_eq!(
        KvCopyError::DTypeMismatch { key_dtype: DType::U8, value_dtype: DType::BF16 }.message(),
        "copy_kv_cache_block requires matching dtypes, got U8 and BF16"
    );
    assert_eq!(
        KvCopyError::BlockSizes { key_elements: 17, value_elements: 1031 }.message(),
        "copy_kv_cache_block requires matching non-empty blocks, got 17 and 1031 elements"
    );
    assert_eq!(
        KvCopyError::LaunchFailed { status: -700 }.message(),
        "copy_kv_cache_block CUDA launch failed with error -700"
    );
    assert_eq!(
        KvCopyError::LaunchFailed { status: i32::MIN }.message(),
        "copy_kv_cache_block CUDA launch failed with error -2147483648"
    );
    let range = CudaRangeError::ViewExceedsStorage { start: 4, end: usize::MAX, len: 99 };
    assert_eq!(
        KvCopyError::Range(range).message(),
        format!("copy_kv_cache_block view range [4, {}) exceeds storage length 99", usize::MAX)
    );
    let product = ProductOverflow { quantity: Quantity::CacheViewByteCount };
    assert_eq!(
        CudaRangeError::Product(product).message(),
        "cache view byte count overflows usize"
    );
}

#[test]
fn request_errors_say_what_is_wrong() {
    assert_eq!(
        PositionsFault::OutOfRange { index: 2, bound: 8, position: i64::MIN }.message(),
        "position at index 2 must be in [0, 8), got -9223372036854775808"
    );
    assert_eq!(
        QkError::QkvShape { tokens: 3, expected_width: 1152, width: 1024 }.message(),
        "qk_rmsnorm_rope expected QKV shape [3, 1152], got [3, 1024]"
    );
    assert_eq!(
        QkError::Certificate { len: 1, bound: 7, certified_tokens: 1, table_rows: 8 }.message(),
        "qk_rmsnorm_rope position certificate len/bound (1, 7) is incompatible with \
         tokens/table rows (1, 8)"
    );
    assert_eq!(
        QkError::DifferentDevice { operand: Operand::Positions }.message(),
        "qk_rmsnorm_rope positions are on a different Candle device identity"
    );
    assert_eq!(
        QkError::DifferentDevice { operand: Operand::Cos }.message(),
        "qk_rmsnorm_rope cos is on a different Candle device identity"
    );
    assert_eq!(
        QkError::StorageDType { operand: Operand::Positions }.message(),
        "qk_rmsnorm_rope position storage is not I64"
    );
    assert_eq!(
        QkError::StorageDType { operand: Operand::Sin }.message(),
        "qk_rmsnorm_rope sin storage is not F32"
    );
    assert_eq!(
        QkError::ExceedsU32 { extent: Extent::RowWidth }.message(),
        "qk_rmsnorm_rope QKV row width exceeds u32"
    );
    let error = RankError { expected: 2, got: 3 };
    assert_eq!(
        QkError::Rank { operand: Operand::Qkv, error }.message(),
        "unexpected rank, expected: 2, got: 3"
    );
}

#[test]
fn prefill_and_sampler_errors_say_what_is_wrong() {
    assert_eq!(
        RaggedError::DeviceLengths { side: Side::Query }.message(),
        "query device cumulative lengths have an invalid shape, dtype, layout, or device"
    );
    assert_eq!(
        RaggedError::ExceedsI32 { count: Count::QoHeads }.message(),
        "QO head count exceeds i32"
    );
    assert_eq!(
        RaggedError::ComputeCapability { sm: 89 }.message(),
        "checked ragged prefill requires SM90+, got SM89"
    );
    assert_eq!(
        RaggedError::SliceDType { expected: DType::U32, got: DType::F64 }.message(),
        "unexpected dtype, expected: U32, got: F64"
    );
    assert_eq!(
        SamplerError::VocabWidth { vocab: 151_935 }.message(),
        "greedy_cuda requires vocab width 151936, got 151935"
    );
    assert_eq!(
        SamplerError::SamplerNotCuda { location: Location::Cpu }.message(),
        "expected a cuda device, got cpu"
    );
    assert_eq!(
        SamplerError::SamplerNotCuda { location: Location::Metal { gpu_id: 1 } }.message(),
        "expected a cuda device, got Metal"
    );
    assert_eq!(
        SamplerError::SliceDType { expected: DType::F16 }.message(),
        "Dtype mismatch: expected F16 storage"
    );
    assert_eq!(
        SamplerError::UnsupportedDType { sampled: DType::I64 }.message(),
        "Sampler only supports F32, F16, and BF16 dtypes, got I64"
    );
}

#[test]
fn errors_name_the_shapes_they_found() {
    let shapes = OperandShapes {
        qkv: &[1, 2, 512],
        q_weight: &[1, 128],
        k_weight: &[64],
        cos: &[8],
        sin: &[8, 63],
        positions: &[3],
    };
    let error = RankError { expected: 2, got: 3 };
    assert_eq!(
        QkError::Rank { operand: Operand::Qkv, error }.message_with_shapes(shapes),
        "unexpected rank, expected: 2, got: 3 ([1, 2, 512])"
    );
    assert_eq!(
        QkError::WeightContract { operand: Operand::QWeight, weight_dtype: DType::F32 }
            .message_with_shapes(shapes),
        "qk_rmsnorm_rope q_weight must be F32 [128], got F32 [1, 128]"
    );
    assert_eq!(
        QkError::WeightContract { operand: Operand::KWeight, weight_dtype: DType::BF16 }
            .message_with_shapes(shapes),
        "qk_rmsnorm_rope k_weight must be F32 [128], got BF16 [64]"
    );
    assert_eq!(
        QkError::TableShapes.message_with_shapes(shapes),
        "qk_rmsnorm_rope cos/sin must have matching F32 [max_position, 64] shapes, \
         got [8] and [8, 63]"
    );
    assert_eq!(QkError::NoTokens.message_with_shapes(shapes), QkError::NoTokens.message());

    let rank = |side| RaggedError::Rank { side, error: RankError { expected: 3, got: 2 } };
    assert_eq!(
        rank(Side::Query).message_with_shapes(&[4, 5], &[]),
        "unexpected rank, expected: 3, got: 2 ([4, 5])"
    );
    assert_eq!(
        rank(Side::Kv).message_with_shapes(&[4, 5], &[]),
        "unexpected rank, expected: 3, got: 2 ([])"
    );
    assert_eq!(
        SamplerError::Rank(RankError { expected: 2, got: 1 }).message_with_shape(&[151_936]),
        "unexpected rank, expected: 2, got: 1 ([151936])"
    );
}

#[test]
fn rank_errors_read_as_those_of_candle() -> candle_core::Result<()> {
    let device = candle_core::Device::Cpu;
    let tensor = candle_core::Tensor::zeros((2, 3, 4), candle_core::DType::U8, &device)?;
    let expected = tensor.dims2().unwrap_err().to_string();
    let error = TensorDesc::of(&tensor).dims2().unwrap_err();
    assert!(expected.starts_with(&error.message_with_shape(tensor.dims())), "{expected}");
    Ok(())
}
