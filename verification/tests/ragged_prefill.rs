use attention_rs::float_bits::is_finite_and_positive;
use attention_rs::ragged_prefill::{
    is_supported_group_size, is_supported_head_dim, launch_outcome, prefill_ragged_tensors,
    prefill_ragged_with_mask, storage_ptr, tensor_ptr, tensor_u32_ptr, validate_contract,
    validate_device_lengths, validate_lengths, CheckedLengthsError, CheckedRaggedLengths,
    CheckedRaggedPrefill, LengthsFault, RaggedError, RaggedLaunch, RaggedMask, Side,
};
use attention_rs::tensor::{
    CudaSlice, DType, Location, RankError, Storage, StoredTensor, TensorDesc,
};
use candle_core::{Device, Result, Tensor};
use std::sync::Arc;

fn describe(tensor: &Tensor) -> TensorDesc {
    TensorDesc::of(tensor)
}

fn lengths_on_cpu(host: &[u32]) -> CheckedRaggedLengths {
    CheckedRaggedLengths::new(host, &Device::Cpu).unwrap()
}

#[test]
fn cumulative_lengths_reject_empty_and_malformed_inputs() {
    assert!(validate_lengths(&[], 0, "query").is_err());
    assert!(validate_lengths(&[1, 3], 3, "query").is_err());
    assert!(validate_lengths(&[0, 2, 2], 2, "query").is_err());
    assert!(validate_lengths(&[0, 2, 4], 5, "query").is_err());
    assert!(validate_lengths(&[0, 2, 5], 5, "query").is_ok());
}

#[test]
fn checked_lengths_construct_one_exact_host_device_pair() -> Result<()> {
    let lengths = lengths_on_cpu(&[0, 2, 5]);
    assert_eq!(lengths.host().as_slice(), [0, 2, 5]);
    assert_eq!(&lengths.device().to_vec1::<u32>()?, lengths.host().as_ref());
    assert_eq!(lengths.total_rows(), 5);
    let clone = lengths.clone();
    assert!(Arc::ptr_eq(lengths.host(), clone.host()));
    Ok(())
}

#[test]
fn mask_values_match_native_contract() {
    assert_eq!(RaggedMask::NonCausal.code(), 0);
    assert_eq!(RaggedMask::Causal.code(), 1);
}

#[test]
fn unsupported_gqa_groups_are_rejected() {
    assert!(is_supported_group_size(4));
    assert!(!is_supported_group_size(5));
    assert!(!is_supported_group_size(6));
    assert!(!is_supported_group_size(7));
}

#[test]
fn rejects_cpu_dtype_head_dim_and_non_contiguous_inputs() -> Result<()> {
    let device = Device::Cpu;
    let lengths = lengths_on_cpu(&[0, 2]);
    let q = Tensor::zeros((2, 1, 64), candle_core::DType::BF16, &device)?;
    let k = Tensor::zeros_like(&q)?;
    let v = Tensor::zeros_like(&q)?;
    assert!(call_for_test(&q, &k, &v, &lengths, 64)
        .unwrap_err()
        .message()
        .contains("same CUDA device"));

    let f32_q = q.to_dtype(candle_core::DType::F32)?;
    assert!(call_for_test(&f32_q, &k, &v, &lengths, 64)
        .unwrap_err()
        .message()
        .contains("dtype"));
    assert!(call_for_test(&q, &k, &v, &lengths, 32)
        .unwrap_err()
        .message()
        .contains("shapes"));

    let non_contiguous =
        Tensor::zeros((2, 2, 64), candle_core::DType::BF16, &device)?.narrow(1, 0, 1)?;
    assert!(!non_contiguous.is_contiguous());
    assert!(call_for_test(&non_contiguous, &k, &v, &lengths, 64)
        .unwrap_err()
        .message()
        .contains("contiguous"));
    Ok(())
}

fn call_for_test(
    q: &Tensor,
    k: &Tensor,
    v: &Tensor,
    lengths: &CheckedRaggedLengths,
    head_dim: usize,
) -> std::result::Result<CheckedRaggedPrefill, RaggedError> {
    let described = prefill_ragged_with_mask(
        &describe(q),
        &describe(k),
        &describe(v),
        None,
        None,
        1,
        lengths,
        lengths,
        1,
        1,
        head_dim,
        0.125f32.to_bits(),
        RaggedMask::NonCausal,
    );
    let planned = prefill_ragged_tensors(
        q,
        k,
        v,
        None,
        None,
        1,
        lengths,
        lengths,
        1,
        1,
        head_dim,
        0.125f32.to_bits(),
        RaggedMask::NonCausal,
    );
    assert_eq!(planned, described);
    planned
}

fn tensor_at(dtype: DType, dims: [usize; 3], location: Location) -> TensorDesc {
    let stride = vec![dims[1] * dims[2], dims[2], 1];
    TensorDesc::new(dtype, dims.to_vec(), stride, 0, location)
}

fn cuda(dims: [usize; 3]) -> TensorDesc {
    tensor_at(DType::BF16, dims, Location::Cuda { gpu_id: 0 })
}

/// The verdict on four query rows and six key rows in two sequences.
struct Call {
    q: TensorDesc,
    k: TensorDesc,
    v: TensorDesc,
    k_scale: Option<Tensor>,
    v_scale: Option<Tensor>,
    kv_data_type: i32,
    q_lengths: CheckedRaggedLengths,
    kv_lengths: CheckedRaggedLengths,
    num_qo_heads: usize,
    num_kv_heads: usize,
    head_dim: usize,
    sm_scale: f32,
}

fn call() -> Call {
    Call {
        q: cuda([4, 8, 128]),
        k: cuda([6, 2, 128]),
        v: cuda([6, 2, 128]),
        k_scale: None,
        v_scale: None,
        kv_data_type: 1,
        q_lengths: lengths_on_cpu(&[0, 1, 4]),
        kv_lengths: lengths_on_cpu(&[0, 2, 6]),
        num_qo_heads: 8,
        num_kv_heads: 2,
        head_dim: 128,
        sm_scale: 0.125,
    }
}

impl Call {
    fn fault(&self) -> RaggedError {
        let verdict = validate_contract(
            &self.q,
            &self.k,
            &self.v,
            self.k_scale.as_ref(),
            self.v_scale.as_ref(),
            self.kv_data_type,
            &self.q_lengths,
            &self.kv_lengths,
            self.num_qo_heads,
            self.num_kv_heads,
            self.head_dim,
            self.sm_scale.to_bits(),
        );
        let planned = prefill_ragged_with_mask(
            &self.q,
            &self.k,
            &self.v,
            self.k_scale.as_ref(),
            self.v_scale.as_ref(),
            self.kv_data_type,
            &self.q_lengths,
            &self.kv_lengths,
            self.num_qo_heads,
            self.num_kv_heads,
            self.head_dim,
            self.sm_scale.to_bits(),
            RaggedMask::Causal,
        );
        let error = verdict.unwrap_err();
        assert_eq!(planned, Err(error));
        error
    }
}

#[test]
fn every_refused_prefill_names_its_first_broken_rule() {
    // With the lengths on the host, the last rule but the counts is the one left broken.
    assert_eq!(call().fault(), RaggedError::DeviceLengths { side: Side::Query });

    assert_eq!(Call { kv_data_type: 0, ..call() }.fault(), RaggedError::NotBf16);
    let scale = || Some(Tensor::new(1f32, &Device::Cpu).unwrap());
    assert_eq!(Call { k_scale: scale(), ..call() }.fault(), RaggedError::ScalesNotAccepted);
    assert_eq!(Call { v_scale: scale(), ..call() }.fault(), RaggedError::ScalesNotAccepted);

    let device = Location::Cuda { gpu_id: 0 };
    let half = tensor_at(DType::F16, [6, 2, 128], device);
    assert_eq!(Call { v: half, ..call() }.fault(), RaggedError::DTypes);

    let strided = TensorDesc::new(DType::BF16, vec![6, 2, 128], vec![512, 256, 2], 0, device);
    assert_eq!(Call { k: strided, ..call() }.fault(), RaggedError::NotContiguous);

    let dims = || vec![usize::MAX, 2, 128];
    let wide = || TensorDesc::new(DType::BF16, dims(), vec![256, 128, 1], 0, device);
    assert_eq!(Call { q: wide(), ..call() }.fault(), RaggedError::ExtentsOverflow);
    assert_eq!(Call { v: wide(), ..call() }.fault(), RaggedError::ExtentsOverflow);
    assert_eq!(Call { q: wide(), kv_data_type: 2, ..call() }.fault(), RaggedError::NotBf16);

    let flat = || TensorDesc::new(DType::BF16, vec![4, 1024], vec![1024, 1], 0, device);
    let error = RankError { expected: 3, got: 2 };
    assert_eq!(
        Call { q: flat(), ..call() }.fault(),
        RaggedError::Rank { side: Side::Query, error }
    );
    assert_eq!(Call { k: flat(), ..call() }.fault(), RaggedError::Rank { side: Side::Kv, error });

    assert_eq!(Call { q: cuda([5, 8, 128]), ..call() }.fault(), RaggedError::Rows);
    assert_eq!(Call { v: cuda([7, 2, 128]), ..call() }.fault(), RaggedError::Rows);
    let more = || cuda([7, 2, 128]);
    assert_eq!(Call { k: more(), v: more(), ..call() }.fault(), RaggedError::Rows);

    assert_eq!(Call { num_qo_heads: 4, ..call() }.fault(), RaggedError::Shapes);
    assert_eq!(Call { num_kv_heads: 1, ..call() }.fault(), RaggedError::Shapes);
    assert_eq!(Call { head_dim: 64, ..call() }.fault(), RaggedError::Shapes);

    let small = Call {
        q: cuda([4, 8, 32]),
        k: cuda([6, 2, 32]),
        v: cuda([6, 2, 32]),
        head_dim: 32,
        ..call()
    };
    assert_eq!(small.fault(), RaggedError::HeadConfiguration);
    let uneven = Call { q: cuda([4, 7, 128]), num_qo_heads: 7, ..call() };
    assert_eq!(uneven.fault(), RaggedError::HeadConfiguration);
    let headless = Call {
        k: cuda([6, 0, 128]),
        v: cuda([6, 0, 128]),
        num_kv_heads: 0,
        ..call()
    };
    assert_eq!(headless.fault(), RaggedError::HeadConfiguration);

    let grouped = Call { q: cuda([4, 10, 128]), num_qo_heads: 10, ..call() };
    assert_eq!(grouped.fault(), RaggedError::GroupSize);
    let batches = Call { q_lengths: lengths_on_cpu(&[0, 4]), ..call() };
    assert_eq!(batches.fault(), RaggedError::BatchSizes);
    for sm_scale in [0.0, -0.0, -1.0, f32::INFINITY, f32::NEG_INFINITY, f32::NAN] {
        assert_eq!(Call { sm_scale, ..call() }.fault(), RaggedError::SmScale);
    }

    let elsewhere = tensor_at(DType::BF16, [6, 2, 128], Location::Cuda { gpu_id: 1 });
    assert_eq!(Call { v: elsewhere, ..call() }.fault(), RaggedError::NotSameCudaDevice);
    let on_host = Call {
        q: tensor_at(DType::BF16, [4, 8, 128], Location::Cpu),
        k: tensor_at(DType::BF16, [6, 2, 128], Location::Cpu),
        v: tensor_at(DType::BF16, [6, 2, 128], Location::Cpu),
        ..call()
    };
    assert_eq!(on_host.fault(), RaggedError::NotSameCudaDevice);
}

#[test]
fn broadcast_tensors_are_refused_for_the_first_broken_rule() -> Result<()> {
    let lengths = lengths_on_cpu(&[0, 2]);
    let broadcast = |dtype| {
        Tensor::zeros((1, 1, 1), dtype, &Device::Cpu)?.broadcast_as((usize::MAX, 2, 64))
    };
    let refused = |q: &Tensor, kv_data_type| {
        prefill_ragged_tensors(
            q,
            q,
            q,
            None,
            None,
            kv_data_type,
            &lengths,
            &lengths,
            1,
            1,
            64,
            0.125f32.to_bits(),
            RaggedMask::Causal,
        )
        .unwrap_err()
    };
    let halves = broadcast(candle_core::DType::BF16)?;
    assert_eq!(refused(&halves, 2), RaggedError::NotBf16);
    assert_eq!(refused(&halves, 1), RaggedError::NotContiguous);
    assert_eq!(refused(&broadcast(candle_core::DType::F32)?, 1), RaggedError::DTypes);
    Ok(())
}

#[test]
fn device_lengths_are_contiguous_u32_at_one_place() -> Result<()> {
    let lengths = Tensor::new(&[0u32, 2, 5], &Device::Cpu)?;
    let accepted = |desc: &TensorDesc, len, location| {
        let verdict = validate_device_lengths(desc, len, location, Side::Kv);
        assert!(verdict.is_ok() || verdict == Err(RaggedError::DeviceLengths { side: Side::Kv }));
        verdict.is_ok()
    };
    assert!(accepted(&describe(&lengths), 3, Location::Cpu));
    assert!(!accepted(&describe(&lengths), 2, Location::Cpu));
    assert!(!accepted(&describe(&lengths), 3, Location::Cuda { gpu_id: 0 }));
    assert!(!accepted(&describe(&lengths.to_dtype(candle_core::DType::I64)?), 3, Location::Cpu));
    assert!(!accepted(&describe(&lengths.unsqueeze(0)?), 3, Location::Cpu));
    let every_other = Tensor::zeros((3, 2), candle_core::DType::U32, &Device::Cpu)?
        .narrow(1, 0, 1)?
        .squeeze(1)?;
    assert!(!accepted(&describe(&every_other), 3, Location::Cpu));
    Ok(())
}

#[test]
fn refused_lengths_carry_their_label_and_fault() {
    let error = validate_lengths(&[0, 2, 4], 5, "KV").unwrap_err();
    assert_eq!(error.label, "KV");
    assert_eq!(error.fault, LengthsFault::Ends { total_rows: 5 });
    assert_eq!(error.message(), "KV cumulative lengths must start at zero and end at 5");

    let error = validate_lengths(&[0, 3, 2, 5], 5, "query").unwrap_err();
    assert_eq!(error.fault, LengthsFault::NotIncreasing);
    assert_eq!(error.message(), "query cumulative lengths must be strictly increasing");

    assert_eq!(
        validate_lengths(&[0], 0, "query").unwrap_err().fault,
        LengthsFault::Ends { total_rows: 0 }
    );
    for host in [&[][..], &[0][..], &[1, 2][..], &[0, 0][..], &[0, 3, 3][..]] {
        assert!(matches!(
            CheckedRaggedLengths::new(host, &Device::Cpu),
            Err(CheckedLengthsError::Lengths(_))
        ));
    }
}

#[test]
fn only_a_device_refuses_valid_lengths() {
    // Candle is built without CUDA here, so this device takes nothing.
    let unbuilt = Device::Cuda(candle_core::CudaDevice);
    assert!(matches!(
        CheckedRaggedLengths::new(&[0, 2, 5], &unbuilt),
        Err(CheckedLengthsError::Upload(_))
    ));
    assert!(matches!(
        CheckedRaggedLengths::new(&[0, 2, 2], &unbuilt),
        Err(CheckedLengthsError::Lengths(_))
    ));
    assert!(CheckedRaggedLengths::new(&[0, 2, 5], &Device::Cpu).is_ok());
}

#[test]
fn lengths_partition_their_rows() {
    let lengths = lengths_on_cpu(&[0, 1, 4, 9]);
    assert_eq!(lengths.batch_size(), 3);
    assert!(lengths.batch_size() <= lengths.total_rows() as usize);
    for row in 0..lengths.total_rows() {
        let host = lengths.host();
        let owners = (0..lengths.batch_size())
            .filter(|&sequence| host[sequence] <= row && row < host[sequence + 1])
            .count();
        assert_eq!(owners, 1);
    }
}

#[test]
fn a_clone_describes_the_same_lengths() -> Result<()> {
    let lengths = lengths_on_cpu(&[0, 2, 5]);
    let clone = lengths.clone();
    assert_eq!(clone.device().to_vec1::<u32>()?, vec![0, 2, 5]);
    assert_eq!(clone.total_rows(), 5);
    let desc = clone.device_desc();
    assert_eq!(desc.dtype(), DType::U32);
    assert_eq!(desc.dims(), &vec![3]);
    assert_eq!(desc.location(), Location::Cpu);
    Ok(())
}

#[test]
fn supported_groups_and_head_dims() {
    let groups: Vec<usize> = (0..70).filter(|&size| is_supported_group_size(size)).collect();
    assert_eq!(groups, vec![1, 2, 3, 4, 8, 16, 32, 64]);
    let dims: Vec<usize> = (0..600).filter(|&dim| is_supported_head_dim(dim)).collect();
    assert_eq!(dims, vec![64, 128, 256]);
}

#[test]
fn finite_and_positive_agrees_with_floats() {
    let values = [
        0.0f32,
        -0.0,
        1.0,
        -1.0,
        f32::MIN_POSITIVE,
        f32::from_bits(1),
        f32::from_bits(0x8000_0001),
        f32::MAX,
        f32::MIN,
        f32::INFINITY,
        f32::NEG_INFINITY,
        f32::NAN,
        -f32::NAN,
    ];
    for value in values {
        assert_eq!(
            is_finite_and_positive(value.to_bits()),
            value.is_finite() && value > 0.0,
            "{value}"
        );
    }
}

fn stored(dtype: DType, dims: &[usize], start_offset: usize, storage: Storage) -> StoredTensor {
    let mut stride = vec![1; dims.len()];
    for axis in (1..dims.len()).rev() {
        stride[axis - 1] = stride[axis] * dims[axis];
    }
    let location = Location::Cuda { gpu_id: 0 };
    StoredTensor {
        desc: TensorDesc::new(dtype, dims.to_vec(), stride, start_offset, location),
        storage,
    }
}

fn slice(dtype: DType, base: u64, len: usize) -> CudaSlice {
    CudaSlice { dtype, base, len }
}

fn prefill() -> CheckedRaggedPrefill {
    CheckedRaggedPrefill {
        query_rows: 4,
        kv_rows: 6,
        batch_size: 2,
        num_qo_heads: 8,
        num_kv_heads: 2,
        head_dim: 128,
        sm_scale_bits: 0.125f32.to_bits(),
        mask: RaggedMask::Causal,
    }
}

#[test]
fn a_launch_binds_every_operand_to_its_address() {
    let q_slice = slice(DType::BF16, 0x1000, 5000);
    let q = stored(DType::BF16, &[4, 8, 128], 10, Storage::Cuda(q_slice));
    let k_slice = slice(DType::BF16, 0x4000, 2000);
    let k = stored(DType::BF16, &[6, 2, 128], 7, Storage::Cuda(k_slice));
    let v_slice = slice(DType::BF16, 0x8000, 1536);
    let v = stored(DType::BF16, &[6, 2, 128], 0, Storage::Cuda(v_slice));
    let q_lengths = stored(DType::U32, &[3], 1, Storage::Cuda(slice(DType::U32, 0x9000, 4)));
    let kv_lengths = stored(DType::U32, &[3], 0, Storage::Cuda(slice(DType::U32, 0xa000, 3)));

    let launch = prefill().cuda_fwd(Some(90), &q, &k, &v, &q_lengths, &kv_lengths).unwrap();
    assert_eq!(
        launch,
        RaggedLaunch {
            q: 0x1000 + 20,
            k: 0x4000 + 14,
            v: 0x8000,
            q_lengths: 0x9000 + 4,
            kv_lengths: 0xa000,
            prefill: prefill(),
            mask: 1,
            data_type: 1,
            output_elements: 4096,
        }
    );

    let fwd = |sm: Option<u32>, k: &StoredTensor, v: &StoredTensor, lengths: &StoredTensor| {
        prefill().cuda_fwd(sm, &q, k, v, &q_lengths, lengths).unwrap_err()
    };
    assert_eq!(fwd(Some(89), &k, &v, &kv_lengths), RaggedError::ComputeCapability { sm: 89 });
    assert_eq!(fwd(None, &k, &v, &kv_lengths), RaggedError::ComputeCapability { sm: 0 });
    let on_host = stored(DType::BF16, &[6, 2, 128], 0, Storage::Cpu);
    assert_eq!(fwd(Some(100), &on_host, &v, &kv_lengths), RaggedError::TensorNotCuda);
    assert_eq!(fwd(Some(100), &k, &on_host, &kv_lengths), RaggedError::TensorNotCuda);
    assert_eq!(fwd(Some(100), &k, &v, &on_host), RaggedError::LengthsNotCuda);
    let mistyped = stored(DType::BF16, &[6, 2, 128], 0, Storage::Cuda(slice(DType::F16, 0, 1536)));
    assert_eq!(
        fwd(Some(100), &mistyped, &v, &kv_lengths),
        RaggedError::SliceDType { expected: DType::BF16, got: DType::F16 }
    );
    assert_eq!(
        fwd(Some(100), &k, &v, &v),
        RaggedError::SliceDType { expected: DType::U32, got: DType::BF16 }
    );
    let singles = stored(DType::F32, &[6, 2, 128], 0, Storage::Cuda(slice(DType::F32, 0, 1536)));
    assert_eq!(fwd(Some(100), &singles, &v, &kv_lengths), RaggedError::UnsupportedStorage);
    let location = Location::Cuda { gpu_id: 0 };
    let endless = StoredTensor {
        desc: TensorDesc::new(DType::BF16, vec![usize::MAX, 2], vec![2, 1], 0, location),
        storage: Storage::Cuda(q_slice),
    };
    assert_eq!(
        prefill().cuda_fwd(Some(90), &endless, &k, &v, &q_lengths, &kv_lengths),
        Err(RaggedError::ExtentsOverflow)
    );
}

#[test]
fn half_precision_queries_have_their_own_code() {
    let memory = |base| Storage::Cuda(slice(DType::F16, base, 128));
    let tensor = |base| stored(DType::F16, &[2, 1, 64], 0, memory(base));
    let lengths = stored(DType::U32, &[2], 0, Storage::Cuda(slice(DType::U32, 0x900, 2)));
    let launch = CheckedRaggedPrefill { mask: RaggedMask::NonCausal, ..prefill() }
        .cuda_fwd(Some(120), &tensor(0x100), &tensor(0x300), &tensor(0x500), &lengths, &lengths)
        .unwrap();
    assert_eq!(launch.data_type, 0);
    assert_eq!(launch.mask, 0);
}

#[test]
fn pointers_step_by_their_element_size() {
    let halves = slice(DType::F16, 0x100, 128);
    let tensor = stored(DType::F16, &[100], 28, Storage::Cuda(halves));
    assert_eq!(storage_ptr(&tensor, halves, DType::F16), Ok(0x100 + 56));
    assert_eq!(tensor_ptr(&tensor), Ok(0x100 + 56));
    assert_eq!(
        storage_ptr(&tensor, halves, DType::BF16),
        Err(RaggedError::SliceDType { expected: DType::BF16, got: DType::F16 })
    );
    assert_eq!(
        tensor_u32_ptr(&tensor),
        Err(RaggedError::SliceDType { expected: DType::U32, got: DType::F16 })
    );
    let lengths = stored(DType::U32, &[3], 2, Storage::Cuda(slice(DType::U32, 0x900, 5)));
    assert_eq!(tensor_u32_ptr(&lengths), Ok(0x908));
}

#[test]
fn the_host_has_no_ragged_prefill() {
    assert_eq!(prefill().cpu_fwd(), Err(RaggedError::CpuUnsupported));
    assert_eq!(prefill().name(), "checked-flashinfer-ragged-prefill");
    assert_eq!(launch_outcome(0), Ok(()));
    assert_eq!(launch_outcome(-3), Err(RaggedError::NativeFailed { status: -3 }));
}
