use attention_rs::tensor::{
    is_host, same_device, CudaSlice, DType, Location, RankError, Storage, StoredTensor, TensorDesc,
};
use candle_core::{Device, Result, Tensor};

fn describe(tensor: &Tensor) -> TensorDesc {
    TensorDesc::of(tensor)
}

fn zeros(dims: &[usize], dtype: candle_core::DType) -> Result<Tensor> {
    Tensor::zeros(dims, dtype, &Device::Cpu)
}

const PAIRS: [(DType, candle_core::DType, usize); 7] = [
    (DType::U8, candle_core::DType::U8, 1),
    (DType::U32, candle_core::DType::U32, 4),
    (DType::I64, candle_core::DType::I64, 8),
    (DType::BF16, candle_core::DType::BF16, 2),
    (DType::F16, candle_core::DType::F16, 2),
    (DType::F32, candle_core::DType::F32, 4),
    (DType::F64, candle_core::DType::F64, 8),
];

#[test]
fn element_types_are_those_of_candle() -> Result<()> {
    for (dtype, candle, size) in PAIRS {
        assert_eq!(dtype.size_in_bytes(), size);
        assert_eq!(dtype.message(), format!("{candle:?}"));
        assert_eq!(describe(&zeros(&[2, 3], candle)?).dtype(), dtype);
    }
    Ok(())
}

#[test]
fn a_description_holds_what_candle_says() -> Result<()> {
    let full = zeros(&[5, 4, 3], candle_core::DType::F32)?;
    let desc = describe(&full);
    assert_eq!(desc.dims(), &vec![5, 4, 3]);
    assert_eq!(desc.start_offset(), 0);
    assert_eq!(desc.elem_count(), Some(60));
    assert_eq!(desc.is_contiguous(), Some(true));
    assert_eq!(desc.location(), Location::Cpu);

    let rows = full.narrow(0, 2, 2)?;
    let desc = describe(&rows);
    assert_eq!(desc.dims(), &vec![2, 4, 3]);
    assert_eq!(desc.start_offset(), 24);
    assert_eq!(desc.elem_count(), Some(24));
    assert_eq!(desc.is_contiguous(), Some(true));

    let columns = full.narrow(2, 1, 2)?;
    let desc = describe(&columns);
    assert_eq!(desc.start_offset(), 1);
    assert_eq!(desc.is_contiguous(), Some(false));

    let transposed = full.transpose(0, 2)?;
    let desc = describe(&transposed);
    assert_eq!(desc.dims(), &vec![3, 4, 5]);
    assert_eq!(desc.is_contiguous(), Some(false));
    Ok(())
}

#[test]
fn contiguity_agrees_with_candle() -> Result<()> {
    let full = zeros(&[3, 1, 4], candle_core::DType::U8)?;
    let views = [
        full.clone(),
        full.transpose(0, 1)?,
        full.transpose(1, 2)?,
        full.transpose(0, 2)?,
        full.narrow(0, 1, 1)?,
        full.narrow(2, 1, 1)?,
        full.narrow(2, 0, 1)?.narrow(0, 0, 1)?,
        full.narrow(0, 0, 0)?,
        full.unsqueeze(0)?,
        full.squeeze(1)?,
        full.broadcast_as((3, 2, 4))?,
        Tensor::new(1u8, &Device::Cpu)?,
    ];
    for view in &views {
        let desc = describe(view);
        assert_eq!(desc.is_contiguous(), Some(view.is_contiguous()), "{:?}", view.layout());
        assert_eq!(desc.elem_count(), Some(view.elem_count()));
        assert_eq!(desc.dims(), view.dims());
    }
    Ok(())
}

#[test]
fn ranks_are_told_apart() {
    let desc = |dims: Vec<usize>| {
        let stride = vec![1; dims.len()];
        TensorDesc::new(DType::U8, dims, stride, 0, Location::Cpu)
    };
    assert_eq!(desc(vec![2, 3]).dims2(), Ok((2, 3)));
    assert_eq!(desc(vec![2]).dims2(), Err(RankError { expected: 2, got: 1 }));
    assert_eq!(desc(vec![2, 3, 4]).dims3(), Ok((2, 3, 4)));
    assert_eq!(desc(vec![]).dims3(), Err(RankError { expected: 3, got: 0 }));
    assert_eq!(desc(vec![]).elem_count(), Some(1));
    assert_eq!(desc(vec![4, 0, 5]).elem_count(), Some(0));
}

#[test]
fn extents_are_multiplied_only_as_far_as_needed() -> Result<()> {
    let desc = |dims: Vec<usize>, stride: Vec<usize>| {
        TensorDesc::new(DType::U8, dims, stride, 0, Location::Cpu)
    };
    let line = desc(vec![usize::MAX], vec![1]);
    assert_eq!(line.elem_count(), Some(usize::MAX));
    assert_eq!(line.is_contiguous(), Some(true));

    // No axis breaks the order before the product leaves the range.
    let wide = desc(vec![usize::MAX, 2], vec![2, 1]);
    assert_eq!(wide.elem_count(), None);
    assert_eq!(wide.is_contiguous(), None);
    // The last axis breaks it at once.
    assert_eq!(desc(vec![usize::MAX, 2], vec![4, 2]).is_contiguous(), Some(false));
    // An extent of zero keeps the products from the end small, not those from the front.
    let hollow = desc(vec![usize::MAX, 2, 0], vec![0, 0, 1]);
    assert_eq!(hollow.is_contiguous(), Some(true));
    assert_eq!(hollow.elem_count(), None);
    assert_eq!(desc(vec![0, usize::MAX, 2], vec![1, 2, 1]).elem_count(), Some(0));

    let broadcast = zeros(&[1, 1], candle_core::DType::U8)?.broadcast_as((usize::MAX, 2))?;
    let desc = describe(&broadcast);
    assert_eq!(desc.dims(), &vec![usize::MAX, 2]);
    assert_eq!(desc.is_contiguous(), Some(false));
    assert_eq!(broadcast.is_contiguous(), false);
    assert_eq!(desc.elem_count(), None);
    Ok(())
}

#[test]
fn a_missing_stride_is_not_contiguous() {
    let desc = TensorDesc::new(DType::U8, vec![2, 3], vec![3], 0, Location::Cpu);
    assert_eq!(desc.is_contiguous(), Some(false));
}

#[test]
fn addresses_stay_in_sixty_four_bits() {
    let stored = |offset, dtype, base, len| StoredTensor {
        desc: TensorDesc::new(dtype, vec![1], vec![1], offset, Location::Cpu),
        storage: Storage::Cuda(CudaSlice { dtype, base, len }),
    };
    assert!(stored(3, DType::F32, 0, 3).is_addressable());
    assert!(!stored(4, DType::F32, 0, 3).is_addressable());
    assert!(stored(0, DType::F32, u64::MAX - 12, 3).is_addressable());
    assert!(!stored(0, DType::F32, u64::MAX - 11, 3).is_addressable());
    let slice = |base, len| CudaSlice { dtype: DType::I64, base, len };
    assert!(slice(u64::MAX - 8, 1).is_representable());
    assert!(!slice(u64::MAX - 7, 1).is_representable());
    assert!(!slice(0, usize::MAX).is_representable());
    let desc = TensorDesc::new(DType::U8, vec![1], vec![1], 9, Location::Cpu);
    assert!(StoredTensor { desc, storage: Storage::Cpu }.is_addressable());
}

#[test]
fn the_host_is_one_device() -> Result<()> {
    let one = zeros(&[2], candle_core::DType::U8)?;
    let other = zeros(&[3], candle_core::DType::F32)?;
    assert!(same_device(&one, &other));
    assert!(same_device(&one, &one.clone()));
    assert!(is_host(&Device::Cpu));
    assert!(!is_host(&Device::Cuda(candle_core::CudaDevice)));
    let stored = StoredTensor::of(&other, Storage::Cpu);
    assert_eq!(stored.desc.dims(), &vec![3]);
    assert_eq!(stored.storage, Storage::Cpu);
    Ok(())
}
