use attention_rs::arith::{checked_product, ProductOverflow, Quantity};
use attention_rs::kv_cache_copy::{
    copy_kv_cache_block, copy_kv_cache_tensors, launch_outcome, ranges_overlap, raw_cuda_range,
    CopyPlan, CudaRange, CudaRangeError, KvCopyError,
};
use attention_rs::tensor::{CudaSlice, DType, Location, Storage, StoredTensor, TensorDesc};
use candle_core::{Device, Result, Tensor};

const BLOCKS: usize = 3;
const ELEMENTS_PER_BLOCK: usize = 1031;

/// The address at which the memory of the pretended device starts.
const MEMORY_START: u64 = 0x7000_0000;

/// Memory of a pretended CUDA device.
struct Memory {
    bytes: Vec<u8>,
}

impl Memory {
    fn new() -> Memory {
        Memory { bytes: Vec::new() }
    }

    /// Puts bytes into the memory and returns their address.
    fn place(&mut self, bytes: &[u8]) -> u64 {
        let address = MEMORY_START + self.bytes.len() as u64;
        self.bytes.extend_from_slice(bytes);
        address
    }

    fn read(&self, address: u64, len: usize) -> Vec<u8> {
        let start = (address - MEMORY_START) as usize;
        self.bytes[start..start + len].to_vec()
    }

    /// Does what the copy kernel does with a plan.
    fn run(&mut self, plan: &CopyPlan) {
        let len = plan.block_bytes as usize;
        let key = self.read(plan.key_source, len);
        let value = self.read(plan.value_source, len);
        let key_start = (plan.key_destination - MEMORY_START) as usize;
        self.bytes[key_start..key_start + len].copy_from_slice(&key);
        let value_start = (plan.value_destination - MEMORY_START) as usize;
        self.bytes[value_start..value_start + len].copy_from_slice(&value);
    }
}

fn contiguous_stride(dims: &[usize]) -> Vec<usize> {
    let mut stride = vec![1; dims.len()];
    for axis in (1..dims.len()).rev() {
        stride[axis - 1] = stride[axis] * dims[axis];
    }
    stride
}

fn cuda_view(
    dtype: DType,
    dims: &[usize],
    start_offset: usize,
    base: u64,
    len: usize,
) -> StoredTensor {
    let desc = TensorDesc::new(
        dtype,
        dims.to_vec(),
        contiguous_stride(dims),
        start_offset,
        Location::Cuda { gpu_id: 0 },
    );
    StoredTensor {
        desc,
        storage: Storage::Cuda(CudaSlice { dtype, base, len }),
    }
}

/// A contiguous tensor on the pretended device, with memory of its own.
fn cuda_tensor(dtype: DType, dims: &[usize], base: u64) -> StoredTensor {
    cuda_view(dtype, dims, 0, base, dims.iter().product())
}

fn cpu_tensor(dims: (usize, usize), dtype: candle_core::DType) -> Result<StoredTensor> {
    let tensor = Tensor::zeros(dims, dtype, &Device::Cpu)?;
    Ok(StoredTensor {
        desc: TensorDesc::of(&tensor),
        storage: Storage::Cpu,
    })
}

fn patterned<T>(count: usize, mut make: impl FnMut(usize) -> T) -> Vec<T> {
    (0..count).map(&mut make).collect()
}

fn verify_copy(dtype: DType, make: impl Fn(usize) -> Vec<u8>) {
    let count = BLOCKS * ELEMENTS_PER_BLOCK;
    let key_values = patterned(count, &make).concat();
    let value_values = patterned(count, |index| make(index + count + 17)).concat();
    let row = ELEMENTS_PER_BLOCK * dtype.size_in_bytes();
    assert_eq!(key_values.len(), BLOCKS * row);

    let mut memory = Memory::new();
    let key_base = memory.place(&key_values);
    let value_base = memory.place(&value_values);
    let key = cuda_tensor(dtype, &[BLOCKS, ELEMENTS_PER_BLOCK], key_base);
    let value = cuda_tensor(dtype, &[BLOCKS, ELEMENTS_PER_BLOCK], value_base);

    let plan = copy_kv_cache_block(&key, &value, true, 0, 2).unwrap().unwrap();
    memory.run(&plan);
    let key_after: Vec<Vec<u8>> =
        patterned(BLOCKS, |block| memory.read(key_base + (block * row) as u64, row));
    let value_after: Vec<Vec<u8>> =
        patterned(BLOCKS, |block| memory.read(value_base + (block * row) as u64, row));
    assert_eq!(key_after[2], key_after[0]);
    assert_eq!(value_after[2], value_after[0]);
    assert_eq!(key_after[0], key_values[..row]);
    assert_eq!(value_after[0], value_values[..row]);
    assert_eq!(key_after[1], key_values[row..2 * row]);
    assert_eq!(value_after[1], value_values[row..2 * row]);
    assert_eq!(key_after[2][row - 1], key_after[0][row - 1]);
    assert_eq!(value_after[2][row - 1], value_after[0][row - 1]);

    assert_eq!(copy_kv_cache_block(&key, &value, true, 1, 1), Ok(None));
}

#[test]
fn rejects_non_cuda_and_invalid_geometry_before_launch() -> Result<()> {
    let u8_type = candle_core::DType::U8;
    let key = cpu_tensor((BLOCKS, 17), u8_type)?;
    let value = cpu_tensor((BLOCKS, 17), u8_type)?;
    assert!(copy_kv_cache_block(&key, &value, true, 0, 1).is_err());
    assert!(copy_kv_cache_block(&key, &value, true, BLOCKS, BLOCKS).is_err());

    let mismatched_blocks = cpu_tensor((BLOCKS - 1, 17), u8_type)?;
    assert!(copy_kv_cache_block(&key, &mismatched_blocks, true, 0, 1).is_err());
    let mismatched_elements = cpu_tensor((BLOCKS, 18), u8_type)?;
    assert!(copy_kv_cache_block(&key, &mismatched_elements, true, 0, 1).is_err());
    let mismatched_dtype = cpu_tensor((BLOCKS, 17), candle_core::DType::F32)?;
    assert!(copy_kv_cache_block(&key, &mismatched_dtype, true, 0, 1).is_err());
    let unsupported_key = cpu_tensor((BLOCKS, 17), candle_core::DType::U32)?;
    let unsupported_value = cpu_tensor((BLOCKS, 17), candle_core::DType::U32)?;
    assert!(copy_kv_cache_block(&unsupported_key, &unsupported_value, true, 0, 1).is_err());
    let empty_blocks = cpu_tensor((0, 17), u8_type)?;
    assert!(copy_kv_cache_block(&empty_blocks, &empty_blocks, true, 0, 0).is_err());
    let empty_block = cpu_tensor((BLOCKS, 0), u8_type)?;
    assert!(copy_kv_cache_block(&empty_block, &empty_block, true, 0, 1).is_err());
    Ok(())
}

#[test]
fn copies_complete_kv_blocks_for_all_supported_dtypes() {
    verify_copy(DType::U8, |index| vec![(index * 37 % 251) as u8]);
    verify_copy(DType::BF16, |index| {
        half::bf16::from_f32((index % 127) as f32 * 0.03125 - 1.5)
            .to_le_bytes()
            .to_vec()
    });
    verify_copy(DType::F16, |index| {
        half::f16::from_f32((index % 113) as f32 * 0.0625 - 2.0)
            .to_le_bytes()
            .to_vec()
    });
    verify_copy(DType::F32, |index| {
        ((index % 109) as f32 * 0.125 - 3.0).to_le_bytes().to_vec()
    });
}

#[test]
fn copies_aligned_blocks_through_vector_path() {
    const ALIGNED_ELEMENTS: usize = 1040;
    let count = BLOCKS * ALIGNED_ELEMENTS;
    let key_values = patterned(count, |index| (index * 31 % 251) as u8);
    let value_values = patterned(count, |index| (index * 47 % 251) as u8);
    let mut memory = Memory::new();
    let key_base = memory.place(&key_values);
    let value_base = memory.place(&value_values);
    let key = cuda_tensor(DType::U8, &[BLOCKS, ALIGNED_ELEMENTS], key_base);
    let value = cuda_tensor(DType::U8, &[BLOCKS, ALIGNED_ELEMENTS], value_base);

    let plan = copy_kv_cache_block(&key, &value, true, 0, 2).unwrap().unwrap();
    memory.run(&plan);
    let key_rows: Vec<Vec<u8>> = patterned(BLOCKS, |block| {
        memory.read(key_base + (block * ALIGNED_ELEMENTS) as u64, ALIGNED_ELEMENTS)
    });
    let value_rows: Vec<Vec<u8>> = patterned(BLOCKS, |block| {
        memory.read(value_base + (block * ALIGNED_ELEMENTS) as u64, ALIGNED_ELEMENTS)
    });
    assert_eq!(key_rows[2], key_rows[0]);
    assert_eq!(value_rows[2], value_rows[0]);
    assert_eq!(key_rows[1], key_values[ALIGNED_ELEMENTS..2 * ALIGNED_ELEMENTS]);
    assert_eq!(value_rows[1], value_values[ALIGNED_ELEMENTS..2 * ALIGNED_ELEMENTS]);
    assert_eq!(key_rows[2][ALIGNED_ELEMENTS - 1], key_rows[0][ALIGNED_ELEMENTS - 1]);
    assert_eq!(value_rows[2][ALIGNED_ELEMENTS - 1], value_rows[0][ALIGNED_ELEMENTS - 1]);
}

#[test]
fn supports_nonzero_contiguous_storage_offsets() {
    let full_blocks = BLOCKS + 2;
    let count = full_blocks * ELEMENTS_PER_BLOCK;
    let mut memory = Memory::new();
    let key_base = memory.place(&patterned(count, |index| (index * 29 % 251) as u8));
    let value_base = memory.place(&patterned(count, |index| (index * 43 % 251) as u8));
    let dims = [BLOCKS, ELEMENTS_PER_BLOCK];
    let key = cuda_view(DType::U8, &dims, ELEMENTS_PER_BLOCK, key_base, count);
    let value = cuda_view(DType::U8, &dims, ELEMENTS_PER_BLOCK, value_base, count);
    assert_eq!(key.desc.is_contiguous(), Some(true));
    assert_eq!(value.desc.is_contiguous(), Some(true));

    let before = memory.bytes.clone();
    let plan = copy_kv_cache_block(&key, &value, true, 0, 2).unwrap().unwrap();
    memory.run(&plan);
    let row = |base: u64, block: usize| {
        memory.read(base + (block * ELEMENTS_PER_BLOCK) as u64, ELEMENTS_PER_BLOCK)
    };
    // The view starts one block into its memory.
    assert_eq!(row(key_base, 3), row(key_base, 1));
    assert_eq!(row(value_base, 3), row(value_base, 1));
    for block in [0, 1, 2, 4] {
        let start = block * ELEMENTS_PER_BLOCK;
        let end = start + ELEMENTS_PER_BLOCK;
        assert_eq!(row(key_base, block), before[start..end]);
        assert_eq!(row(value_base, block), before[count + start..count + end]);
    }
}

#[test]
fn rejects_aliases_devices_layouts_and_indices() {
    let u8_type = DType::U8;
    let cache = cuda_tensor(u8_type, &[BLOCKS, 17], 0x1000);
    let valid_value = cuda_tensor(u8_type, &[BLOCKS, 17], 0x2000);
    let other = cuda_tensor(u8_type, &[BLOCKS, 17], 0x3000);
    assert!(copy_kv_cache_block(&cache, &other, false, 0, 1).is_err());
    assert!(copy_kv_cache_block(&cache, &cache, true, 0, 1).is_err());
    assert!(copy_kv_cache_block(&cache, &cache, true, 1, 1).is_err());
    assert!(copy_kv_cache_block(&cache, &other, false, BLOCKS, BLOCKS).is_err());
    assert!(copy_kv_cache_block(&cache, &valid_value, true, BLOCKS, BLOCKS).is_err());

    let mismatched_blocks = cuda_tensor(u8_type, &[BLOCKS - 1, 17], 0x2000);
    assert!(copy_kv_cache_block(&cache, &mismatched_blocks, true, 0, 1).is_err());
    let mismatched_elements = cuda_tensor(u8_type, &[BLOCKS, 18], 0x2000);
    assert!(copy_kv_cache_block(&cache, &mismatched_elements, true, 0, 1).is_err());
    let mismatched_dtype = cuda_tensor(DType::F32, &[BLOCKS, 17], 0x2000);
    assert!(copy_kv_cache_block(&cache, &mismatched_dtype, true, 0, 1).is_err());
    let unsupported_key = cuda_tensor(DType::U32, &[BLOCKS, 17], 0x1000);
    let unsupported_value = cuda_tensor(DType::U32, &[BLOCKS, 17], 0x2000);
    assert!(copy_kv_cache_block(&unsupported_key, &unsupported_value, true, 0, 1).is_err());
    let empty_blocks = cuda_tensor(u8_type, &[0, 17], 0x1000);
    assert!(copy_kv_cache_block(&empty_blocks, &empty_blocks, true, 0, 0).is_err());
    let empty_block = cuda_tensor(u8_type, &[BLOCKS, 0], 0x1000);
    assert!(copy_kv_cache_block(&empty_block, &empty_block, true, 0, 1).is_err());

    let overlap_key = cuda_view(u8_type, &[BLOCKS, 17], 0, 0x4000, (BLOCKS + 1) * 17);
    let overlap_value = cuda_view(u8_type, &[BLOCKS, 17], 17, 0x4000, (BLOCKS + 1) * 17);
    assert_eq!(overlap_key.desc.is_contiguous(), Some(true));
    assert_eq!(overlap_value.desc.is_contiguous(), Some(true));
    assert!(copy_kv_cache_block(&overlap_key, &overlap_value, true, 0, 1).is_err());

    let cuda = Location::Cuda { gpu_id: 0 };
    let non_contiguous = StoredTensor {
        desc: TensorDesc::new(u8_type, vec![BLOCKS, 17], vec![34, 2], 0, cuda),
        storage: Storage::Cuda(CudaSlice { dtype: u8_type, base: 0x5000, len: BLOCKS * 34 }),
    };
    assert_eq!(non_contiguous.desc.dims(), cache.desc.dims());
    assert_eq!(non_contiguous.desc.is_contiguous(), Some(false));
    let separate = cuda_tensor(u8_type, &[BLOCKS, 17], 0x6000);
    assert!(copy_kv_cache_block(&non_contiguous, &separate, true, 0, 1).is_err());
}

#[test]
fn every_refused_copy_names_its_first_broken_rule() {
    let u8_type = DType::U8;
    let cuda = Location::Cuda { gpu_id: 0 };
    let cache = cuda_tensor(u8_type, &[BLOCKS, 17], 0x1000);
    let value = cuda_tensor(u8_type, &[BLOCKS, 17], 0x2000);
    let refused = |key: &StoredTensor, value: &StoredTensor, source, destination| {
        copy_kv_cache_block(key, value, true, source, destination).unwrap_err()
    };
    assert_eq!(
        copy_kv_cache_block(&cache, &value, false, 0, 1),
        Err(KvCopyError::DifferentDevices)
    );

    let host = StoredTensor {
        desc: TensorDesc::new(u8_type, vec![BLOCKS, 17], vec![17, 1], 0, Location::Cpu),
        storage: Storage::Cpu,
    };
    assert_eq!(refused(&host, &host, 0, 1), KvCopyError::NotCuda);

    let strided = StoredTensor {
        desc: TensorDesc::new(u8_type, vec![BLOCKS, 17], vec![34, 2], 0, cuda),
        storage: Storage::Cuda(CudaSlice { dtype: u8_type, base: 0x3000, len: 102 }),
    };
    assert_eq!(refused(&strided, &value, 0, 1), KvCopyError::NotContiguous);
    assert_eq!(refused(&cache, &strided, 0, 1), KvCopyError::NotContiguous);

    let huge = |dims: Vec<usize>, stride: Vec<usize>| StoredTensor {
        desc: TensorDesc::new(u8_type, dims, stride, 0, cuda),
        storage: Storage::Cuda(CudaSlice { dtype: u8_type, base: 0x3000, len: 102 }),
    };
    let wide = huge(vec![usize::MAX, 2], vec![2, 1]);
    assert_eq!(
        copy_kv_cache_block(&wide, &value, false, 0, 1),
        Err(KvCopyError::DifferentDevices)
    );
    assert_eq!(refused(&wide, &value, 0, 1), KvCopyError::ExtentsOverflow);
    assert_eq!(refused(&cache, &wide, 0, 1), KvCopyError::ExtentsOverflow);
    assert_eq!(raw_cuda_range(&wide), Err(CudaRangeError::ExtentsOverflow));
    let broadcast = huge(vec![usize::MAX, 2], vec![0, 0]);
    assert_eq!(refused(&broadcast, &value, 0, 1), KvCopyError::NotContiguous);
    let hollow = huge(vec![usize::MAX, 2, 0], vec![0, 0, 1]);
    assert_eq!(
        refused(&hollow, &value, 0, 1),
        KvCopyError::BlockCounts { key_blocks: usize::MAX, value_blocks: BLOCKS }
    );
    assert_eq!(refused(&hollow, &hollow, 0, 1), KvCopyError::ExtentsOverflow);

    let floats = cuda_tensor(DType::F32, &[BLOCKS, 17], 0x2000);
    assert_eq!(
        refused(&cache, &floats, 0, 1),
        KvCopyError::DTypeMismatch { key_dtype: DType::U8, value_dtype: DType::F32 }
    );
    for dtype in [DType::U32, DType::I64, DType::F64] {
        let key = cuda_tensor(dtype, &[BLOCKS, 17], 0x1000);
        assert_eq!(refused(&key, &key, 0, 1), KvCopyError::UnsupportedDType { dtype });
    }

    let scalar = cuda_tensor(u8_type, &[], 0x2000);
    assert_eq!(refused(&scalar, &value, 0, 0), KvCopyError::KeyWithoutBlocks);
    assert_eq!(refused(&cache, &scalar, 0, 0), KvCopyError::ValueWithoutBlocks);

    let fewer = cuda_tensor(u8_type, &[BLOCKS - 1, 17], 0x2000);
    assert_eq!(
        refused(&cache, &fewer, 0, 1),
        KvCopyError::BlockCounts { key_blocks: 3, value_blocks: 2 }
    );
    let none = cuda_tensor(u8_type, &[0, 17], 0x2000);
    assert_eq!(
        refused(&none, &none, 0, 0),
        KvCopyError::BlockCounts { key_blocks: 0, value_blocks: 0 }
    );
    let wider = cuda_tensor(u8_type, &[BLOCKS, 18], 0x2000);
    assert_eq!(
        refused(&cache, &wider, 0, 1),
        KvCopyError::BlockSizes { key_elements: 17, value_elements: 18 }
    );
    assert_eq!(
        refused(&cache, &value, 0, BLOCKS),
        KvCopyError::BlockIndex { source: 0, destination: 3, blocks: 3 }
    );
    assert_eq!(
        refused(&cache, &value, BLOCKS, 0),
        KvCopyError::BlockIndex { source: 3, destination: 0, blocks: 3 }
    );
    assert_eq!(refused(&cache, &cache, 0, 1), KvCopyError::OverlappingCaches);

    let unstored = StoredTensor {
        desc: TensorDesc::new(u8_type, vec![BLOCKS, 17], vec![17, 1], 0, cuda),
        storage: Storage::Metal,
    };
    assert_eq!(
        refused(&cache, &unstored, 0, 1),
        KvCopyError::Range(CudaRangeError::NotCudaStorage)
    );
    assert_eq!(
        refused(&unstored, &cache, 0, 1),
        KvCopyError::Range(CudaRangeError::NotCudaStorage)
    );
}

#[test]
fn ranges_cover_exactly_the_bytes_of_a_view() {
    let view = cuda_view(DType::F32, &[2, 5], 3, 0x1000, 13);
    assert_eq!(raw_cuda_range(&view), Ok(CudaRange { start: 0x1000 + 12, end: 0x1000 + 52 }));

    let refused = |dtype, slice_dtype, start_offset, base, len| {
        let desc = TensorDesc::new(
            dtype,
            vec![2, 5],
            vec![5, 1],
            start_offset,
            Location::Cuda { gpu_id: 0 },
        );
        let storage = Storage::Cuda(CudaSlice { dtype: slice_dtype, base, len });
        raw_cuda_range(&StoredTensor { desc, storage }).unwrap_err()
    };
    assert_eq!(
        refused(DType::F32, DType::F16, 0, 0, 10),
        CudaRangeError::StorageMismatch { dtype: DType::F32 }
    );
    assert_eq!(
        refused(DType::I64, DType::I64, 0, 0, 10),
        CudaRangeError::StorageMismatch { dtype: DType::I64 }
    );
    assert_eq!(
        refused(DType::F32, DType::F32, usize::MAX - 9, 0, usize::MAX),
        CudaRangeError::ViewEndOverflow
    );
    assert_eq!(
        refused(DType::F32, DType::F32, 4, 0, 13),
        CudaRangeError::ViewExceedsStorage { start: 4, end: 14, len: 13 }
    );
    assert_eq!(
        refused(DType::F32, DType::F32, usize::MAX / 4 + 1, 0, usize::MAX),
        CudaRangeError::Product(ProductOverflow { quantity: Quantity::CacheLayoutByteOffset })
    );
    assert_eq!(
        refused(DType::F32, DType::F32, 1, u64::MAX - 3, 13),
        CudaRangeError::PointerOverflow
    );
    assert_eq!(
        refused(DType::F32, DType::F32, 0, u64::MAX - 39, 10),
        CudaRangeError::RangeOverflow
    );
    let long = cuda_view(DType::F32, &[usize::MAX / 4 + 1], 0, 0, usize::MAX);
    assert_eq!(
        raw_cuda_range(&long),
        Err(CudaRangeError::Product(ProductOverflow { quantity: Quantity::CacheViewByteCount }))
    );
}

#[test]
fn overlap_is_a_shared_address() {
    let range = |start, end| CudaRange { start, end };
    assert!(ranges_overlap(&range(0, 10), &range(9, 20)));
    assert!(ranges_overlap(&range(9, 20), &range(0, 10)));
    assert!(ranges_overlap(&range(0, 20), &range(5, 6)));
    assert!(!ranges_overlap(&range(0, 10), &range(10, 20)));
    assert!(!ranges_overlap(&range(10, 20), &range(0, 10)));
}

#[test]
fn the_same_block_is_checked_and_left_undone() {
    let cache = cuda_tensor(DType::F16, &[BLOCKS, 17], 0x1000);
    let value = cuda_tensor(DType::F16, &[BLOCKS, 17], 0x2000);
    for block in 0..BLOCKS {
        assert_eq!(copy_kv_cache_block(&cache, &value, true, block, block), Ok(None));
    }
    assert!(copy_kv_cache_block(&cache, &value, true, BLOCKS, BLOCKS).is_err());
    assert!(copy_kv_cache_block(&cache, &cache, true, 0, 0).is_err());
}

#[test]
fn a_plan_holds_the_addresses_of_its_blocks() {
    let cache = cuda_view(DType::F16, &[4, 3, 2], 6, 0x1000, 30);
    let value = cuda_view(DType::F16, &[4, 2, 3], 0, 0x2000, 24);
    let plan = copy_kv_cache_block(&cache, &value, true, 1, 3).unwrap().unwrap();
    assert_eq!(
        plan,
        CopyPlan {
            key_source: 0x1000 + 12 + 12,
            key_destination: 0x1000 + 12 + 36,
            value_source: 0x2000 + 12,
            value_destination: 0x2000 + 36,
            block_bytes: 12,
        }
    );
    // The last block ends where the view ends.
    let range = raw_cuda_range(&cache).unwrap();
    assert_eq!(plan.key_destination + plan.block_bytes, range.end);
}

#[test]
fn only_status_zero_is_a_finished_copy() {
    assert_eq!(launch_outcome(0), Ok(()));
    assert_eq!(launch_outcome(700), Err(KvCopyError::LaunchFailed { status: 700 }));
    assert_eq!(launch_outcome(-1), Err(KvCopyError::LaunchFailed { status: -1 }));
}

#[test]
fn checked_products_name_what_overflowed() {
    assert_eq!(checked_product(6, 7, Quantity::QkvRowWidth), Ok(42));
    assert_eq!(checked_product(0, usize::MAX, Quantity::QkvRowWidth), Ok(0));
    assert_eq!(
        checked_product(usize::MAX, 2, Quantity::QkvKvHeadCount),
        Err(ProductOverflow { quantity: Quantity::QkvKvHeadCount })
    );
}

#[test]
fn tensors_are_described_before_they_are_planned() -> Result<()> {
    let device = Device::Cpu;
    let key = Tensor::zeros((BLOCKS, 17), candle_core::DType::U8, &device)?;
    let value = Tensor::zeros((BLOCKS, 17), candle_core::DType::U8, &device)?;
    // Both live on the host, which is one device, but no CUDA device.
    assert_eq!(
        copy_kv_cache_tensors(&key, Storage::Cpu, &value, Storage::Cpu, 0, 1),
        Err(KvCopyError::NotCuda)
    );
    Ok(())
}
