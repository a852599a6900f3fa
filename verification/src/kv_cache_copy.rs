//! Planning the copy of one logical K/V cache block.
//!
//! A plan is made against complete contiguous tensor views, including their storage
//! offsets and effective device-pointer ranges. The launch then copies both raw
//! blocks without looking at their element type.

use crate::arith::{checked_product, ProductOverflow, Quantity};
use crate::tensor::{
    lemma_product_first, product, same_device, tensor_identity, tensor_view, CudaSlice, DType,
    Location, Storage, StoredTensor, StoredView, TensorDesc, TensorView,
};
use vstd::prelude::*;

verus! {

/// The device addresses from `start` up to, not including, `end`.
#[derive(Clone, Copy, Debug, PartialEq, Eq, Structural)]
pub struct CudaRange {
    pub start: u64,
    pub end: u64,
}

/// Why the device addresses of a cache view cannot be told.
#[derive(Clone, Copy, Debug, PartialEq, Eq, Structural)]
pub enum CudaRangeError {
    NotCudaStorage,
    StorageMismatch { dtype: DType },
    ExtentsOverflow,
    ViewEndOverflow,
    ViewExceedsStorage { start: usize, end: usize, len: usize },
    Product(ProductOverflow),
    PointerOverflow,
    RangeOverflow,
}

/// Why a block copy is refused.
#[derive(Clone, Copy, Debug, PartialEq, Eq, Structural)]
pub enum KvCopyError {
    DifferentDevices,
    NotCuda,
    ExtentsOverflow,
    NotContiguous,
    DTypeMismatch { key_dtype: DType, value_dtype: DType },
    UnsupportedDType { dtype: DType },
    KeyWithoutBlocks,
    ValueWithoutBlocks,
    BlockCounts { key_blocks: usize, value_blocks: usize },
    BlockSizes { key_elements: usize, value_elements: usize },
    BlockIndex { source: usize, destination: usize, blocks: usize },
    Range(CudaRangeError),
    OverlappingCaches,
    LaunchFailed { status: i32 },
}

/// The four device addresses and the byte count of one block copy.
#[derive(Clone, Copy, Debug, PartialEq, Eq, Structural)]
pub struct CopyPlan {
    pub key_source: u64,
    pub key_destination: u64,
    pub value_source: u64,
    pub value_destination: u64,
    pub block_bytes: u64,
}

/// The element types that the copy kernel is offered for.
pub open spec fn copyable(dtype: DType) -> bool {
    dtype == DType::U8 || dtype == DType::BF16 || dtype == DType::F16 || dtype == DType::F32
}

fn is_copyable(dtype: DType) -> (yes: bool)
    ensures
        yes == copyable(dtype),
{
    match dtype {
        DType::U8 | DType::BF16 | DType::F16 | DType::F32 => true,
        DType::U32 | DType::I64 | DType::F64 => false,
    }
}

/// The device addresses that the elements of a view take, or the first reason why
/// they cannot be told.
pub open spec fn cuda_range(cache: StoredView) -> Result<CudaRange, CudaRangeError> {
    let view = cache.tensor;
    let end = view.start_offset + view.elem_count();
    let offset_bytes = view.start_offset * view.dtype.bytes();
    let view_bytes = view.elem_count() * view.dtype.bytes();
    match cache.storage {
        Storage::Cuda(slice) => if slice.dtype != view.dtype || !copyable(view.dtype) {
            Err(CudaRangeError::StorageMismatch { dtype: view.dtype })
        } else if !view.countable() {
            Err(CudaRangeError::ExtentsOverflow)
        } else if end > usize::MAX {
            Err(CudaRangeError::ViewEndOverflow)
        } else if end > slice.len {
            Err(
                CudaRangeError::ViewExceedsStorage {
                    start: view.start_offset,
                    end: end as usize,
                    len: slice.len,
                },
            )
        } else if offset_bytes > usize::MAX {
            Err(
                CudaRangeError::Product(
                    ProductOverflow { quantity: Quantity::CacheLayoutByteOffset },
                ),
            )
        } else if view_bytes > usize::MAX {
            Err(
                CudaRangeError::Product(ProductOverflow { quantity: Quantity::CacheViewByteCount }),
            )
        } else if slice.base + offset_bytes > u64::MAX {
            Err(CudaRangeError::PointerOverflow)
        } else if slice.base + offset_bytes + view_bytes > u64::MAX {
            Err(CudaRangeError::RangeOverflow)
        } else {
            Ok(
                CudaRange {
                    start: (slice.base + offset_bytes) as u64,
                    end: (slice.base + offset_bytes + view_bytes) as u64,
                },
            )
        },
        _ => Err(CudaRangeError::NotCudaStorage),
    }
}

/// The device addresses that the elements of a view take.
pub fn raw_cuda_range(cache: &StoredTensor) -> (result: Result<CudaRange, CudaRangeError>)
    ensures
        result == cuda_range(cache@),
{
    let slice = match cache.storage {
        Storage::Cuda(slice) => slice,
        _ => {
            return Err(CudaRangeError::NotCudaStorage);
        },
    };
    let dtype = cache.desc.dtype();
    if slice.dtype != dtype || !is_copyable(dtype) {
        return Err(CudaRangeError::StorageMismatch { dtype });
    }
    let start_offset: usize = cache.desc.start_offset();
    let elements: usize = match cache.desc.elem_count() {
        Some(elements) => elements,
        None => {
            return Err(CudaRangeError::ExtentsOverflow);
        },
    };
    let view_end: usize = match start_offset.checked_add(elements) {
        Some(view_end) => view_end,
        None => {
            return Err(CudaRangeError::ViewEndOverflow);
        },
    };
    if view_end > slice.len {
        return Err(
            CudaRangeError::ViewExceedsStorage {
                start: start_offset,
                end: view_end,
                len: slice.len,
            },
        );
    }
    let element_bytes: usize = dtype.size_in_bytes();
    let offset_bytes: usize = match checked_product(
        start_offset,
        element_bytes,
        Quantity::CacheLayoutByteOffset,
    ) {
        Ok(bytes) => bytes,
        Err(error) => {
            return Err(CudaRangeError::Product(error));
        },
    };
    let view_bytes: usize = match checked_product(
        elements,
        element_bytes,
        Quantity::CacheViewByteCount,
    ) {
        Ok(bytes) => bytes,
        Err(error) => {
            return Err(CudaRangeError::Product(error));
        },
    };
    let start: u64 = match slice.base.checked_add(offset_bytes as u64) {
        Some(start) => start,
        None => {
            return Err(CudaRangeError::PointerOverflow);
        },
    };
    let end: u64 = match start.checked_add(view_bytes as u64) {
        Some(end) => end,
        None => {
            return Err(CudaRangeError::RangeOverflow);
        },
    };
    Ok(CudaRange { start, end })
}

/// Each range starts before the other ends.
pub open spec fn overlapping(lhs: CudaRange, rhs: CudaRange) -> bool {
    lhs.start < rhs.end && rhs.start < lhs.end
}

pub fn ranges_overlap(lhs: &CudaRange, rhs: &CudaRange) -> (overlap: bool)
    ensures
        overlap == overlapping(*lhs, *rhs),
{
    lhs.start < rhs.end && rhs.start < lhs.end
}

/// The elements behind one index of the leading axis.
pub open spec fn block_elements(view: TensorView) -> nat {
    product(view.dims.drop_first())
}

/// A cache that is not contiguous, or whose extents leave the `usize` before that is told.
pub open spec fn layout_fault(cache: TensorView) -> Option<KvCopyError> {
    match cache.contiguity() {
        Some(true) => None,
        Some(false) => Some(KvCopyError::NotContiguous),
        None => Some(KvCopyError::ExtentsOverflow),
    }
}

fn check_layout(cache: &TensorDesc) -> (result: Result<(), KvCopyError>)
    ensures
        match result {
            Ok(()) => layout_fault(cache@) is None,
            Err(error) => layout_fault(cache@) == Some(error),
        },
{
    match cache.is_contiguous() {
        Some(true) => Ok(()),
        Some(false) => Err(KvCopyError::NotContiguous),
        None => Err(KvCopyError::ExtentsOverflow),
    }
}

/// The first rule on devices, layouts and block geometry that the call breaks.
pub open spec fn geometry_fault(
    key: TensorView,
    value: TensorView,
    same_device: bool,
    source: usize,
    destination: usize,
) -> Option<KvCopyError> {
    if !same_device {
        Some(KvCopyError::DifferentDevices)
    } else if !(key.location is Cuda) {
        Some(KvCopyError::NotCuda)
    } else if layout_fault(key) is Some {
        layout_fault(key)
    } else if layout_fault(value) is Some {
        layout_fault(value)
    } else if key.dtype != value.dtype {
        Some(KvCopyError::DTypeMismatch { key_dtype: key.dtype, value_dtype: value.dtype })
    } else if !copyable(key.dtype) {
        Some(KvCopyError::UnsupportedDType { dtype: key.dtype })
    } else if key.dims.len() == 0 {
        Some(KvCopyError::KeyWithoutBlocks)
    } else if value.dims.len() == 0 {
        Some(KvCopyError::ValueWithoutBlocks)
    } else if key.dims[0] == 0 || key.dims[0] != value.dims[0] {
        Some(KvCopyError::BlockCounts { key_blocks: key.dims[0], value_blocks: value.dims[0] })
    } else if !key.countable() || !value.countable() {
        Some(KvCopyError::ExtentsOverflow)
    } else if block_elements(key) == 0 || block_elements(key) != block_elements(value) {
        Some(
            KvCopyError::BlockSizes {
                key_elements: block_elements(key) as usize,
                value_elements: block_elements(value) as usize,
            },
        )
    } else if source >= key.dims[0] || destination >= key.dims[0] {
        Some(KvCopyError::BlockIndex { source, destination, blocks: key.dims[0] })
    } else {
        None
    }
}

/// The address at which a block starts in a cache.
pub open spec fn block_address(cache: CudaRange, view: TensorView, block: usize) -> int {
    cache.start + block * (block_elements(view) * view.dtype.bytes())
}

/// What becomes of a requested copy: refused with the first broken rule, nothing to
/// do where source and destination are one block, or the addresses to copy between.
pub open spec fn copy_outcome(
    key: StoredView,
    value: StoredView,
    same_device: bool,
    source: usize,
    destination: usize,
) -> Result<Option<CopyPlan>, KvCopyError> {
    match geometry_fault(key.tensor, value.tensor, same_device, source, destination) {
        Some(error) => Err(error),
        None => match (cuda_range(key), cuda_range(value)) {
            (Err(error), _) => Err(KvCopyError::Range(error)),
            (_, Err(error)) => Err(KvCopyError::Range(error)),
            (Ok(keys), Ok(values)) => if overlapping(keys, values) {
                Err(KvCopyError::OverlappingCaches)
            } else if source == destination {
                Ok(None)
            } else {
                Ok(
                    Some(
                        CopyPlan {
                            key_source: block_address(keys, key.tensor, source) as u64,
                            key_destination: block_address(keys, key.tensor, destination) as u64,
                            value_source: block_address(values, value.tensor, source) as u64,
                            value_destination: block_address(
                                values,
                                value.tensor,
                                destination,
                            ) as u64,
                            block_bytes: (block_elements(key.tensor)
                                * key.tensor.dtype.bytes()) as u64,
                        },
                    ),
                )
            },
        },
    }
}

/// A block that a cache has lies inside the bytes of the cache.
proof fn lemma_block_inside(blocks: nat, elements: nat, bytes: nat, block: nat)
    requires
        block < blocks,
    ensures
        block * (elements * bytes) + elements * bytes <= (blocks * elements) * bytes,
        block * (elements * bytes) <= (blocks * elements) * bytes,
        elements * bytes <= (blocks * elements) * bytes,
{
    let size = elements * bytes;
    assert((blocks * elements) * bytes == blocks * size) by (nonlinear_arith)
        requires
            size == elements * bytes,
    ;
    assert(block * size + size == (block + 1) * size) by (nonlinear_arith);
    assert((block + 1) * size <= blocks * size) by (nonlinear_arith)
        requires
            block + 1 <= blocks,
    ;
    assert(block * size >= 0) by (nonlinear_arith);
}

/// Plans the copy of one source block to one destination block in both caches.
///
/// `same_device` is Candle's answer to whether both caches live on the same device
/// identity. Nothing is to be launched where the plan is `None`.
pub fn copy_kv_cache_block(
    key_cache: &StoredTensor,
    value_cache: &StoredTensor,
    same_device: bool,
    source_block: usize,
    destination_block: usize,
) -> (result: Result<Option<CopyPlan>, KvCopyError>)
    ensures
        result == copy_outcome(
            key_cache@,
            value_cache@,
            same_device,
            source_block,
            destination_block,
        ),
{
    if !same_device {
        return Err(KvCopyError::DifferentDevices);
    }
    match key_cache.desc.location() {
        Location::Cuda { gpu_id: _ } => {},
        _ => {
            return Err(KvCopyError::NotCuda);
        },
    }
    check_layout(&key_cache.desc)?;
    check_layout(&value_cache.desc)?;
    let dtype = key_cache.desc.dtype();
    let value_dtype = value_cache.desc.dtype();
    if value_dtype != dtype {
        return Err(KvCopyError::DTypeMismatch { key_dtype: dtype, value_dtype });
    }
    if !is_copyable(dtype) {
        return Err(KvCopyError::UnsupportedDType { dtype });
    }
    if key_cache.desc.dims().len() == 0 {
        return Err(KvCopyError::KeyWithoutBlocks);
    }
    if value_cache.desc.dims().len() == 0 {
        return Err(KvCopyError::ValueWithoutBlocks);
    }
    let key_blocks: usize = key_cache.desc.dims()[0];
    let value_blocks: usize = value_cache.desc.dims()[0];
    if key_blocks == 0 || key_blocks != value_blocks {
        return Err(KvCopyError::BlockCounts { key_blocks, value_blocks });
    }
    let ghost key = key_cache@.tensor;
    let ghost value = value_cache@.tensor;
    let (key_elements, value_elements): (usize, usize) = match (
        key_cache.desc.elem_count(),
        value_cache.desc.elem_count(),
    ) {
        (Some(key_elements), Some(value_elements)) => (key_elements, value_elements),
        _ => {
            return Err(KvCopyError::ExtentsOverflow);
        },
    };
    proof {
        lemma_product_first(key.dims);
        lemma_product_first(value.dims);
        vstd::arithmetic::div_mod::lemma_div_multiples_vanish(
            block_elements(key) as int,
            key_blocks as int,
        );
        vstd::arithmetic::div_mod::lemma_div_multiples_vanish(
            block_elements(value) as int,
            value_blocks as int,
        );
    }
    // The leading extent divides the element count.
    let key_block_elements: usize = key_elements / key_blocks;
    let value_block_elements: usize = value_elements / value_blocks;
    assert(key_block_elements == block_elements(key));
    assert(value_block_elements == block_elements(value));
    if key_block_elements == 0 || key_block_elements != value_block_elements {
        return Err(
            KvCopyError::BlockSizes {
                key_elements: key_block_elements,
                value_elements: value_block_elements,
            },
        );
    }
    if source_block >= key_blocks || destination_block >= key_blocks {
        return Err(
            KvCopyError::BlockIndex {
                source: source_block,
                destination: destination_block,
                blocks: key_blocks,
            },
        );
    }
    let key_range = match raw_cuda_range(key_cache) {
        Ok(range) => range,
        Err(error) => {
            return Err(KvCopyError::Range(error));
        },
    };
    let value_range = match raw_cuda_range(value_cache) {
        Ok(range) => range,
        Err(error) => {
            return Err(KvCopyError::Range(error));
        },
    };
    if ranges_overlap(&key_range, &value_range) {
        return Err(KvCopyError::OverlappingCaches);
    }
    if source_block == destination_block {
        return Ok(None);
    }
    proof {
        let bytes = dtype.bytes();
        lemma_block_inside(
            key_blocks as nat,
            block_elements(key),
            bytes,
            source_block as nat,
        );
        lemma_block_inside(
            key_blocks as nat,
            block_elements(key),
            bytes,
            destination_block as nat,
        );
    }
    // Both ranges were found to hold their whole view, so no product or address below
    // leaves its range.
    let block_bytes: usize = key_block_elements * dtype.size_in_bytes();
    let source_offset: usize = source_block * block_bytes;
    let destination_offset: usize = destination_block * block_bytes;
    Ok(
        Some(
            CopyPlan {
                key_source: key_range.start + source_offset as u64,
                key_destination: key_range.start + destination_offset as u64,
                value_source: value_range.start + source_offset as u64,
                value_destination: value_range.start + destination_offset as u64,
                block_bytes: block_bytes as u64,
            },
        ),
    )
}

/// What becomes of a requested copy between Candle tensors that are kept as given.
pub open spec fn tensors_outcome(
    key_cache: candle_core::Tensor,
    key_storage: Storage,
    value_cache: candle_core::Tensor,
    value_storage: Storage,
    source: usize,
    destination: usize,
) -> Result<Option<CopyPlan>, KvCopyError> {
    copy_outcome(
        StoredView { tensor: tensor_view(key_cache), storage: key_storage },
        StoredView { tensor: tensor_view(value_cache), storage: value_storage },
        tensor_identity(key_cache) == tensor_identity(value_cache),
        source,
        destination,
    )
}

/// Plans the copy of one source block to one destination block in two Candle tensors whose
/// elements are kept as given. Tensors on the host are refused for that.
pub fn copy_kv_cache_tensors(
    key_cache: &candle_core::Tensor,
    key_storage: Storage,
    value_cache: &candle_core::Tensor,
    value_storage: Storage,
    source_block: usize,
    destination_block: usize,
) -> (result: Result<Option<CopyPlan>, KvCopyError>)
    ensures
        result == tensors_outcome(
            *key_cache,
            key_storage,
            *value_cache,
            value_storage,
            source_block,
            destination_block,
        ),
        tensor_view(*key_cache).location is Cpu && tensor_view(*value_cache).location is Cpu
            ==> result == Err::<Option<CopyPlan>, _>(KvCopyError::NotCuda),
{
    copy_kv_cache_block(
        &StoredTensor::of(key_cache, key_storage),
        &StoredTensor::of(value_cache, value_storage),
        same_device(key_cache, value_cache),
        source_block,
        destination_block,
    )
}

/// What the status of the copy kernel means: zero is success.
pub fn launch_outcome(status: i32) -> (result: Result<(), KvCopyError>)
    ensures
        result == (if status == 0 {
            Ok::<(), KvCopyError>(())
        } else {
            Err(KvCopyError::LaunchFailed { status })
        }),
{
    if status != 0 {
        return Err(KvCopyError::LaunchFailed { status });
    }
    Ok(())
}

/// Device memory as one byte per address.
pub type Memory = spec_fn(int) -> u8;

/// Memory after `count` bytes were copied from `source` on to `destination` on.
pub open spec fn copied(memory: Memory, source: int, destination: int, count: int) -> Memory {
    |address: int|
        if destination <= address < destination + count {
            memory(source + (address - destination))
        } else {
            memory(address)
        }
}

/// Memory after the key block of a plan was copied.
pub open spec fn key_copied(memory: Memory, plan: CopyPlan) -> Memory {
    copied(
        memory,
        plan.key_source as int,
        plan.key_destination as int,
        plan.block_bytes as int,
    )
}

/// Memory after the value block of a plan was copied.
pub open spec fn value_copied(memory: Memory, plan: CopyPlan) -> Memory {
    copied(
        memory,
        plan.value_source as int,
        plan.value_destination as int,
        plan.block_bytes as int,
    )
}

/// The byte at an offset inside a block of a cache.
pub open spec fn block_byte(
    memory: Memory,
    cache: CudaRange,
    view: TensorView,
    block: usize,
    offset: int,
) -> u8 {
    memory(block_address(cache, view, block) + offset)
}

/// Two non-empty ranges overlap exactly where they share an address.
pub proof fn law_overlap_is_a_shared_address(lhs: CudaRange, rhs: CudaRange)
    requires
        lhs.start < lhs.end,
        rhs.start < rhs.end,
    ensures
        overlapping(lhs, rhs) <==> exists|address: u64|
            lhs.start <= address < lhs.end && #[trigger] in_range(rhs, address),
        overlapping(lhs, rhs) == overlapping(rhs, lhs),
{
    if overlapping(lhs, rhs) {
        let address = if lhs.start < rhs.start {
            rhs.start
        } else {
            lhs.start
        };
        assert(in_range(rhs, address));
    }
}

/// The address belongs to the range.
pub open spec fn in_range(range: CudaRange, address: u64) -> bool {
    range.start <= address < range.end
}

/// Every byte that a plan reads or writes belongs to the view of its own cache; the
/// plan holds at least one byte, and the two caches share none.
pub proof fn law_plan_stays_inside_its_views(
    key: StoredView,
    value: StoredView,
    same_device: bool,
    source: usize,
    destination: usize,
    plan: CopyPlan,
)
    requires
        copy_outcome(key, value, same_device, source, destination) == Ok::<_, KvCopyError>(
            Some(plan),
        ),
    ensures
        cuda_range(key) is Ok,
        cuda_range(value) is Ok,
        cuda_range(key)->Ok_0.start <= plan.key_source,
        plan.key_source + plan.block_bytes <= cuda_range(key)->Ok_0.end,
        cuda_range(key)->Ok_0.start <= plan.key_destination,
        plan.key_destination + plan.block_bytes <= cuda_range(key)->Ok_0.end,
        cuda_range(value)->Ok_0.start <= plan.value_source,
        plan.value_source + plan.block_bytes <= cuda_range(value)->Ok_0.end,
        cuda_range(value)->Ok_0.start <= plan.value_destination,
        plan.value_destination + plan.block_bytes <= cuda_range(value)->Ok_0.end,
        plan.block_bytes > 0,
        !overlapping(cuda_range(key)->Ok_0, cuda_range(value)->Ok_0),
        plan.key_source == block_address(cuda_range(key)->Ok_0, key.tensor, source),
        plan.key_destination == block_address(cuda_range(key)->Ok_0, key.tensor, destination),
        plan.value_source == block_address(cuda_range(value)->Ok_0, value.tensor, source),
        plan.value_destination == block_address(cuda_range(value)->Ok_0, value.tensor, destination),
        plan.block_bytes == block_elements(key.tensor) * key.tensor.dtype.bytes(),
{
    let blocks = key.tensor.dims[0] as nat;
    let elements = block_elements(key.tensor);
    let bytes = key.tensor.dtype.bytes();
    lemma_product_first(key.tensor.dims);
    lemma_product_first(value.tensor.dims);
    lemma_block_inside(blocks, elements, bytes, source as nat);
    lemma_block_inside(blocks, elements, bytes, destination as nat);
    assert(elements * bytes > 0) by (nonlinear_arith)
        requires
            elements > 0,
            bytes > 0,
    ;
}

/// Where source and destination differ, their blocks share no byte.
proof fn lemma_blocks_apart(size: int, lower: int, upper: int)
    requires
        size > 0,
        lower < upper,
    ensures
        lower * size + size <= upper * size,
{
    assert(lower * size + size == (lower + 1) * size) by (nonlinear_arith);
    assert((lower + 1) * size <= upper * size) by (nonlinear_arith)
        requires
            lower + 1 <= upper,
            size > 0,
    ;
}

/// Between two states of memory, the destination block of a cache took over the bytes
/// of the source block and every other block of the cache kept its own.
pub open spec fn block_replaced(
    before: Memory,
    after: Memory,
    cache: CudaRange,
    view: TensorView,
    source: usize,
    destination: usize,
) -> bool {
    forall|block: usize, offset: int|
        block < view.dims[0] && 0 <= offset < block_elements(view) * view.dtype.bytes()
            ==> #[trigger] block_byte(after, cache, view, block, offset) == block_byte(
            before,
            cache,
            view,
            if block == destination {
                source
            } else {
                block
            },
            offset,
        )
}

/// Carrying out a plan makes the destination block of both caches equal to what the
/// source block held, leaves every other block of both caches as it was, and changes
/// no byte outside the two destination blocks. The two copies may run in either order.
pub proof fn law_copy_replaces_exactly_the_destination_blocks(
    memory: Memory,
    key: StoredView,
    value: StoredView,
    same_device: bool,
    source: usize,
    destination: usize,
    plan: CopyPlan,
)
    requires
        copy_outcome(key, value, same_device, source, destination) == Ok::<_, KvCopyError>(
            Some(plan),
        ),
    ensures
        value_copied(key_copied(memory, plan), plan) =~= key_copied(
            value_copied(memory, plan),
            plan,
        ),
        block_replaced(
            memory,
            value_copied(key_copied(memory, plan), plan),
            cuda_range(key)->Ok_0,
            key.tensor,
            source,
            destination,
        ),
        block_replaced(
            memory,
            value_copied(key_copied(memory, plan), plan),
            cuda_range(value)->Ok_0,
            value.tensor,
            source,
            destination,
        ),
        forall|address: int|
            !(plan.key_destination <= address < plan.key_destination + plan.block_bytes) && !(
            plan.value_destination <= address < plan.value_destination + plan.block_bytes)
                ==> #[trigger] value_copied(key_copied(memory, plan), plan)(address) == memory(
                address,
            ),
{
    law_plan_stays_inside_its_views(key, value, same_device, source, destination, plan);
    let keys = cuda_range(key)->Ok_0;
    let values = cuda_range(value)->Ok_0;
    let size = plan.block_bytes as int;
    let after = value_copied(key_copied(memory, plan), plan);
    let other = key_copied(value_copied(memory, plan), plan);
    if source < destination {
        lemma_blocks_apart(size, source as int, destination as int);
    } else {
        lemma_blocks_apart(size, destination as int, source as int);
    }
    assert forall|address: int| #[trigger] after(address) == other(address) by {}
    lemma_product_first(key.tensor.dims);
    lemma_product_first(value.tensor.dims);
    assert forall|block: usize, offset: int|
        block < key.tensor.dims[0] && 0 <= offset < size implies #[trigger] block_byte(
        after,
        keys,
        key.tensor,
        block,
        offset,
    ) == block_byte(
        memory,
        keys,
        key.tensor,
        if block == destination {
            source
        } else {
            block
        },
        offset,
    ) by {
        lemma_block_apart_and_inside(key.tensor, block, destination);
    }
    assert forall|block: usize, offset: int|
        block < value.tensor.dims[0] && 0 <= offset < size implies #[trigger] block_byte(
        after,
        values,
        value.tensor,
        block,
        offset,
    ) == block_byte(
        memory,
        values,
        value.tensor,
        if block == destination {
            source
        } else {
            block
        },
        offset,
    ) by {
        lemma_block_apart_and_inside(value.tensor, block, destination);
    }
}

proof fn lemma_block_apart_and_inside(view: TensorView, block: usize, destination: usize)
    requires
        view.dims.len() > 0,
        block < view.dims[0],
        block_elements(view) > 0,
    ensures
        ({
            let size = block_elements(view) * view.dtype.bytes();
            &&& block * size + size <= view.elem_count() * view.dtype.bytes()
            &&& block < destination ==> block * size + size <= destination * size
            &&& destination < block ==> destination * size + size <= block * size
        }),
{
    let size = block_elements(view) * view.dtype.bytes();
    assert(size > 0) by (nonlinear_arith)
        requires
            size == block_elements(view) * view.dtype.bytes(),
            block_elements(view) > 0,
            view.dtype.bytes() > 0,
    ;
    lemma_product_first(view.dims);
    lemma_block_inside(
        view.dims[0] as nat,
        block_elements(view),
        view.dtype.bytes(),
        block as nat,
    );
    if block < destination {
        lemma_blocks_apart(size as int, block as int, destination as int);
    } else if destination < block {
        lemma_blocks_apart(size as int, destination as int, block as int);
    }
}

/// Whether a call is refused does not depend on which blocks it names, as long as the
/// caches have them: a copy of a block on to itself is checked like any other, and is
/// then left undone.
pub proof fn law_same_block_is_checked_and_left_undone(
    key: StoredView,
    value: StoredView,
    same_device: bool,
    source: usize,
    destination: usize,
    block: usize,
)
    requires
        key.tensor.dims.len() > 0,
        source < key.tensor.dims[0],
        destination < key.tensor.dims[0],
        block < key.tensor.dims[0],
        source != destination,
    ensures
        match copy_outcome(key, value, same_device, source, destination) {
            Ok(plan) => plan is Some && copy_outcome(key, value, same_device, block, block) == Ok::<
                _,
                KvCopyError,
            >(None::<CopyPlan>),
            Err(error) => copy_outcome(key, value, same_device, block, block) == Err::<
                Option<CopyPlan>,
                _,
            >(error),
        },
{
}

/// A cache is never copied within itself through both names: a key and a value cache
/// over the same non-empty memory are refused.
pub proof fn law_aliased_caches_are_refused(
    cache: StoredView,
    same_device: bool,
    source: usize,
    destination: usize,
)
    ensures
        copy_outcome(cache, cache, same_device, source, destination) is Err,
{
    if copy_outcome(cache, cache, same_device, source, destination) is Ok {
        let view = cache.tensor;
        lemma_product_first(view.dims);
        let count = view.elem_count();
        assert(count > 0) by (nonlinear_arith)
            requires
                count == view.dims[0] as nat * block_elements(view),
                view.dims[0] > 0,
                block_elements(view) > 0,
        ;
        let bytes = view.dtype.bytes();
        assert(count * bytes > 0) by (nonlinear_arith)
            requires
                count > 0,
                bytes > 0,
        ;
    }
}

/// Caches on different device identities are refused, whatever else they are.
pub proof fn law_different_identities_are_refused(
    key: StoredView,
    value: StoredView,
    source: usize,
    destination: usize,
)
    ensures
        copy_outcome(key, value, false, source, destination) == Err::<Option<CopyPlan>, _>(
            KvCopyError::DifferentDevices,
        ),
{
}

/// The elements of one block are the elements of the cache, divided by its blocks.
proof fn lemma_block_is_a_share(view: TensorView)
    requires
        view.dims.len() > 0,
        view.dims[0] > 0,
    ensures
        block_elements(view) == view.elem_count() / (view.dims[0] as nat),
        block_elements(view) * view.dims[0] == view.elem_count(),
{
    lemma_product_first(view.dims);
    let blocks = view.dims[0] as int;
    let share = block_elements(view) as int;
    vstd::arithmetic::div_mod::lemma_div_multiples_vanish(share, blocks);
    assert(blocks * share == share * blocks) by (nonlinear_arith);
}

/// The address range of a view in device memory of its own element type goes from its first
/// element to the end of its last one. It is refused exactly where the memory is of another
/// type or place, does not hold the view, or a number on the way does not fit.
pub proof fn law_a_range_spans_the_elements_of_its_view(cache: StoredView)
    ensures
        ({
            let view = cache.tensor;
            let slice = cache.storage->Cuda_0;
            let copied = view.dtype is U8 || view.dtype is BF16 || view.dtype is F16
                || view.dtype is F32;
            let cuda = cache.storage is Cuda;
            let typed = cuda && slice.dtype == view.dtype && copied;
            let counted = typed && view.countable();
            let end = view.start_offset + view.elem_count();
            let held = counted && end <= usize::MAX && end <= slice.len;
            let first = slice.base + view.start_offset * view.dtype.bytes();
            let last = first + view.elem_count() * view.dtype.bytes();
            match cuda_range(cache) {
                Ok(range) => held && range.start == first && range.end == last,
                Err(CudaRangeError::NotCudaStorage) => !cuda,
                Err(CudaRangeError::StorageMismatch { dtype }) => cuda && !typed && dtype
                    == view.dtype,
                Err(CudaRangeError::ExtentsOverflow) => typed && !counted,
                Err(CudaRangeError::ViewEndOverflow) => counted && end > usize::MAX,
                Err(CudaRangeError::ViewExceedsStorage { start, end: found, len }) => {
                    &&& counted && slice.len < end <= usize::MAX
                    &&& start == view.start_offset && found == end && len == slice.len
                },
                Err(CudaRangeError::Product(error)) => match error.quantity {
                    Quantity::CacheLayoutByteOffset => held && view.start_offset
                        * view.dtype.bytes() > usize::MAX,
                    Quantity::CacheViewByteCount => {
                        &&& held && view.start_offset * view.dtype.bytes() <= usize::MAX
                        &&& view.elem_count() * view.dtype.bytes() > usize::MAX
                    },
                    _ => false,
                },
                Err(CudaRangeError::PointerOverflow) => held && first > u64::MAX,
                Err(CudaRangeError::RangeOverflow) => held && first <= u64::MAX && last > u64::MAX,
            }
        }),
{
}

/// Two caches of one element type, contiguous, on one CUDA device, with the same number of
/// non-empty blocks of the same size and with memory that holds them apart, are never refused
/// a copy between blocks they have. It goes from the elements of the source block to those of
/// the destination block, counted from the first element of each view.
pub proof fn law_a_sound_copy_is_planned(
    key: StoredView,
    value: StoredView,
    source: usize,
    destination: usize,
)
    requires
        key.tensor.location is Cuda,
        key.tensor.contiguity() == Some(true),
        value.tensor.contiguity() == Some(true),
        key.tensor.dtype == value.tensor.dtype,
        key.tensor.dtype is U8 || key.tensor.dtype is BF16 || key.tensor.dtype is F16
            || key.tensor.dtype is F32,
        key.tensor.dims.len() > 0,
        value.tensor.dims.len() > 0,
        key.tensor.dims[0] == value.tensor.dims[0],
        key.tensor.countable(),
        value.tensor.countable(),
        key.tensor.elem_count() == value.tensor.elem_count(),
        key.tensor.elem_count() > 0,
        source < key.tensor.dims[0],
        destination < key.tensor.dims[0],
        key.storage is Cuda,
        value.storage is Cuda,
        key.storage->Cuda_0.dtype == key.tensor.dtype,
        value.storage->Cuda_0.dtype == value.tensor.dtype,
        key.tensor.start_offset + key.tensor.elem_count() <= key.storage->Cuda_0.len,
        value.tensor.start_offset + value.tensor.elem_count() <= value.storage->Cuda_0.len,
        key.storage->Cuda_0.len * key.tensor.dtype.bytes() <= usize::MAX,
        value.storage->Cuda_0.len * value.tensor.dtype.bytes() <= usize::MAX,
        key.storage->Cuda_0.base + key.storage->Cuda_0.len * key.tensor.dtype.bytes() <= u64::MAX,
        value.storage->Cuda_0.base + value.storage->Cuda_0.len * value.tensor.dtype.bytes()
            <= u64::MAX,
        key.storage->Cuda_0.base + key.storage->Cuda_0.len * key.tensor.dtype.bytes()
            <= value.storage->Cuda_0.base || value.storage->Cuda_0.base
            + value.storage->Cuda_0.len * value.tensor.dtype.bytes() <= key.storage->Cuda_0.base,
    ensures
        ({
            let outcome = copy_outcome(key, value, true, source, destination);
            let plan = outcome->Ok_0->Some_0;
            let size = key.tensor.dtype.bytes();
            let block = key.tensor.elem_count() / (key.tensor.dims[0] as nat);
            &&& outcome is Ok
            &&& outcome->Ok_0 is None <==> source == destination
            &&& source != destination ==> {
                &&& plan.key_source == key.storage->Cuda_0.base + (key.tensor.start_offset + source
                    * block) * size
                &&& plan.key_destination == key.storage->Cuda_0.base + (key.tensor.start_offset
                    + destination * block) * size
                &&& plan.value_source == value.storage->Cuda_0.base + (value.tensor.start_offset
                    + source * block) * size
                &&& plan.value_destination == value.storage->Cuda_0.base
                    + (value.tensor.start_offset + destination * block) * size
                &&& plan.block_bytes == block * size
            }
        }),
{
    let bytes = key.tensor.dtype.bytes();
    lemma_block_is_a_share(key.tensor);
    lemma_block_is_a_share(value.tensor);
    let count = key.tensor.elem_count();
    let share = block_elements(key.tensor);
    let blocks = key.tensor.dims[0] as nat;
    assert(share > 0) by (nonlinear_arith)
        requires
            share * blocks == count,
            count > 0,
    ;
    lemma_inside_memory(
        key.tensor.start_offset as nat,
        count,
        key.storage->Cuda_0.len as nat,
        bytes,
    );
    lemma_inside_memory(
        value.tensor.start_offset as nat,
        count,
        value.storage->Cuda_0.len as nat,
        bytes,
    );
    law_a_range_spans_the_elements_of_its_view(key);
    law_a_range_spans_the_elements_of_its_view(value);
    let outcome = copy_outcome(key, value, true, source, destination);
    if source != destination {
        let plan = outcome->Ok_0->Some_0;
        law_plan_stays_inside_its_views(key, value, true, source, destination, plan);
        law_every_plan_starts_at_the_elements_of_its_blocks(
            key,
            value,
            true,
            source,
            destination,
            plan,
        );
    }
}

/// Elements that memory holds take bytes that memory holds.
proof fn lemma_inside_memory(offset: nat, count: nat, len: nat, bytes: nat)
    requires
        offset + count <= len,
    ensures
        offset * bytes + count * bytes <= len * bytes,
        offset * bytes <= len * bytes,
        count * bytes <= len * bytes,
{
    assert(offset * bytes + count * bytes == (offset + count) * bytes) by (nonlinear_arith);
    assert((offset + count) * bytes <= len * bytes) by (nonlinear_arith)
        requires
            offset + count <= len,
    ;
    assert(offset * bytes >= 0 && count * bytes >= 0) by (nonlinear_arith);
}

/// Every plan, whatever led to it, reads the elements of the source block and writes those of
/// the destination block, in elements counted from the first one of each view.
pub proof fn law_every_plan_starts_at_the_elements_of_its_blocks(
    key: StoredView,
    value: StoredView,
    same_device: bool,
    source: usize,
    destination: usize,
    plan: CopyPlan,
)
    requires
        copy_outcome(key, value, same_device, source, destination) == Ok::<_, KvCopyError>(
            Some(plan),
        ),
    ensures
        ({
            let size = key.tensor.dtype.bytes();
            let block = key.tensor.elem_count() / (key.tensor.dims[0] as nat);
            &&& key.storage is Cuda && value.storage is Cuda
            &&& plan.key_source == key.storage->Cuda_0.base + (key.tensor.start_offset + source
                * block) * size
            &&& plan.key_destination == key.storage->Cuda_0.base + (key.tensor.start_offset
                + destination * block) * size
            &&& plan.value_source == value.storage->Cuda_0.base + (value.tensor.start_offset
                + source * block) * size
            &&& plan.value_destination == value.storage->Cuda_0.base + (value.tensor.start_offset
                + destination * block) * size
            &&& plan.block_bytes == block * size
            &&& block > 0
            &&& source != destination
        }),
{
    law_plan_stays_inside_its_views(key, value, same_device, source, destination, plan);
    lemma_block_is_a_share(key.tensor);
    lemma_block_is_a_share(value.tensor);
    let size = key.tensor.dtype.bytes() as int;
    let block = block_elements(key.tensor) as int;
    lemma_elements_in_bytes(key.tensor.start_offset as int, source as int, block, size);
    lemma_elements_in_bytes(key.tensor.start_offset as int, destination as int, block, size);
    lemma_elements_in_bytes(value.tensor.start_offset as int, source as int, block, size);
    lemma_elements_in_bytes(value.tensor.start_offset as int, destination as int, block, size);
}

/// Counting elements and counting bytes comes to the same address.
proof fn lemma_elements_in_bytes(offset: int, block: int, elements: int, size: int)
    ensures
        (offset + block * elements) * size == offset * size + block * (elements * size),
{
    assert((offset + block * elements) * size == offset * size + block * (elements * size))
        by (nonlinear_arith);
}

/// What memory holds after both copies of a plan: row `row` of either cache starts `row`
/// strides of the leading axis behind the first element of its view. The destination row
/// holds what the source row held, byte for byte, and every other row what it held itself.
///
/// `after` is any memory in which the bytes at both destinations are those that stood at the
/// sources, and all other bytes are as they were.
pub proof fn law_rows_read_back_after_the_copy(
    before: Memory,
    after: Memory,
    key: StoredView,
    value: StoredView,
    same_device: bool,
    source: usize,
    destination: usize,
    plan: CopyPlan,
    row: usize,
    byte: int,
)
    requires
        copy_outcome(key, value, same_device, source, destination) == Ok::<_, KvCopyError>(
            Some(plan),
        ),
        forall|address: int|
            plan.key_destination <= address < plan.key_destination + plan.block_bytes
                ==> #[trigger] after(address) == before(
                plan.key_source + (address - plan.key_destination),
            ),
        forall|address: int|
            plan.value_destination <= address < plan.value_destination + plan.block_bytes
                ==> #[trigger] after(address) == before(
                plan.value_source + (address - plan.value_destination),
            ),
        forall|address: int|
            !(plan.key_destination <= address < plan.key_destination + plan.block_bytes) && !(
            plan.value_destination <= address < plan.value_destination + plan.block_bytes)
                ==> #[trigger] after(address) == before(address),
        row < key.tensor.dims[0],
        0 <= byte < key.tensor.stride[0] * key.tensor.dtype.bytes(),
    ensures
        ({
            let size = key.tensor.dtype.bytes();
            let from = if row == destination {
                source
            } else {
                row
            };
            let keys = key.storage->Cuda_0.base;
            let values = value.storage->Cuda_0.base;
            let key_row = key.tensor.start_offset + row * key.tensor.stride[0];
            let key_from = key.tensor.start_offset + from * key.tensor.stride[0];
            let value_row = value.tensor.start_offset + row * value.tensor.stride[0];
            let value_from = value.tensor.start_offset + from * value.tensor.stride[0];
            &&& after(keys + key_row * size + byte) == before(keys + key_from * size + byte)
            &&& after(values + value_row * size + byte) == before(
                values + value_from * size + byte,
            )
            &&& key.tensor.stride[0] == value.tensor.stride[0]
        }),
{
    law_plan_stays_inside_its_views(key, value, same_device, source, destination, plan);
    law_every_plan_starts_at_the_elements_of_its_blocks(
        key,
        value,
        same_device,
        source,
        destination,
        plan,
    );
    lemma_block_is_a_share(key.tensor);
    lemma_block_is_a_share(value.tensor);
    crate::tensor::law_contiguous_axes_skip_the_elements_behind_them(key.tensor);
    crate::tensor::law_contiguous_axes_skip_the_elements_behind_them(value.tensor);
    assert(key.tensor.dims[0] > 1 && value.tensor.dims[0] > 1);
    assert(key.tensor.dims.skip(1) =~= key.tensor.dims.drop_first());
    assert(value.tensor.dims.skip(1) =~= value.tensor.dims.drop_first());
    let block = key.tensor.stride[0] as int;
    assert(key.tensor.stride[0] == block_elements(key.tensor));
    assert(value.tensor.stride[0] == block_elements(value.tensor));
    let size = key.tensor.dtype.bytes() as int;
    let bytes = block * size;
    lemma_elements_in_bytes(key.tensor.start_offset as int, row as int, block, size);
    lemma_elements_in_bytes(value.tensor.start_offset as int, row as int, block, size);
    lemma_elements_in_bytes(key.tensor.start_offset as int, source as int, block, size);
    lemma_elements_in_bytes(value.tensor.start_offset as int, source as int, block, size);
    lemma_elements_in_bytes(key.tensor.start_offset as int, destination as int, block, size);
    lemma_elements_in_bytes(value.tensor.start_offset as int, destination as int, block, size);
    lemma_block_apart_and_inside(key.tensor, row, destination);
    lemma_block_apart_and_inside(value.tensor, row, destination);
    law_a_range_spans_the_elements_of_its_view(key);
    law_a_range_spans_the_elements_of_its_view(value);
    let key_at = key.storage->Cuda_0.base + key.tensor.start_offset * size + row * bytes + byte;
    let value_at = value.storage->Cuda_0.base + value.tensor.start_offset * size + row * bytes
        + byte;
    assert(after(key_at) == after(key_at));
    assert(after(value_at) == after(value_at));
}

/// A call is refused for a rule that it breaks while it keeps all rules before that one, and
/// the refusal reports what was found.
pub proof fn law_a_refused_copy_breaks_the_rule_it_is_refused_for(
    key: StoredView,
    value: StoredView,
    same_device: bool,
    source: usize,
    destination: usize,
)
    ensures
        ({
            let k = key.tensor;
            let v = value.tensor;
            let cuda = same_device && k.location is Cuda;
            let laid_out = cuda && k.contiguity() == Some(true) && v.contiguity() == Some(true);
            let typed = laid_out && k.dtype == v.dtype;
            let supported = typed && (k.dtype is U8 || k.dtype is BF16 || k.dtype is F16
                || k.dtype is F32);
            let ranked = supported && k.dims.len() > 0 && v.dims.len() > 0;
            let blocked = ranked && k.dims[0] > 0 && k.dims[0] == v.dims[0];
            let counted = blocked && k.countable() && v.countable();
            let k_block = k.elem_count() / (k.dims[0] as nat);
            let v_block = v.elem_count() / (v.dims[0] as nat);
            let sized = counted && k_block > 0 && k_block == v_block;
            let found = sized && source < k.dims[0] && destination < k.dims[0];
            let ranges = found && cuda_range(key) is Ok && cuda_range(value) is Ok;
            let keys = cuda_range(key)->Ok_0;
            let values = cuda_range(value)->Ok_0;
            let apart = keys.end <= values.start || values.end <= keys.start;
            match copy_outcome(key, value, same_device, source, destination) {
                Ok(plan) => ranges && apart && (plan is None <==> source == destination),
                Err(KvCopyError::DifferentDevices) => !same_device,
                Err(KvCopyError::NotCuda) => same_device && !cuda,
                Err(KvCopyError::ExtentsOverflow) => {
                    ||| cuda && k.contiguity() is None
                    ||| cuda && k.contiguity() == Some(true) && v.contiguity() is None
                    ||| blocked && !counted
                },
                Err(KvCopyError::NotContiguous) => {
                    ||| cuda && k.contiguity() == Some(false)
                    ||| cuda && k.contiguity() == Some(true) && v.contiguity() == Some(false)
                },
                Err(KvCopyError::DTypeMismatch { key_dtype, value_dtype }) => laid_out && !typed
                    && key_dtype == k.dtype && value_dtype == v.dtype,
                Err(KvCopyError::UnsupportedDType { dtype }) => typed && !supported && dtype
                    == k.dtype,
                Err(KvCopyError::KeyWithoutBlocks) => supported && k.dims.len() == 0,
                Err(KvCopyError::ValueWithoutBlocks) => supported && k.dims.len() > 0
                    && v.dims.len() == 0,
                Err(KvCopyError::BlockCounts { key_blocks, value_blocks }) => ranked && !blocked
                    && key_blocks == k.dims[0] && value_blocks == v.dims[0],
                Err(KvCopyError::BlockSizes { key_elements, value_elements }) => {
                    &&& counted && !sized
                    &&& k_block <= usize::MAX ==> key_elements == k_block
                    &&& v_block <= usize::MAX ==> value_elements == v_block
                },
                Err(
                    KvCopyError::BlockIndex { source: from, destination: to, blocks },
                ) => sized && !found && from == source && to == destination && blocks == k.dims[0],
                Err(KvCopyError::Range(error)) => {
                    ||| found && cuda_range(key) == Err::<CudaRange, _>(error)
                    ||| found && cuda_range(key) is Ok && cuda_range(value) == Err::<CudaRange, _>(
                        error,
                    )
                },
                Err(KvCopyError::OverlappingCaches) => ranges && !apart,
                Err(KvCopyError::LaunchFailed { status: _ }) => false,
            }
        }),
{
    if key.tensor.dims.len() > 0 && key.tensor.dims[0] > 0 {
        lemma_block_is_a_share(key.tensor);
    }
    if value.tensor.dims.len() > 0 && value.tensor.dims[0] > 0 {
        lemma_block_is_a_share(value.tensor);
    }
}

/// Candle tensors are judged by what Candle says of them, kept as told, with the key in the
/// place of the key and the value in the place of the value.
pub proof fn law_tensors_are_judged_by_their_own_descriptions(
    key_cache: candle_core::Tensor,
    key_storage: Storage,
    value_cache: candle_core::Tensor,
    value_storage: Storage,
    source: usize,
    destination: usize,
    key: StoredView,
    value: StoredView,
)
    requires
        key.tensor == tensor_view(key_cache),
        key.storage == key_storage,
        value.tensor == tensor_view(value_cache),
        value.storage == value_storage,
    ensures
        tensors_outcome(
            key_cache,
            key_storage,
            value_cache,
            value_storage,
            source,
            destination,
        ) == copy_outcome(
            key,
            value,
            tensor_identity(key_cache) == tensor_identity(value_cache),
            source,
            destination,
        ),
{
}

/// Ranges do not overlap where, and only where, one of them ends before the other starts.
pub proof fn law_ranges_are_apart_or_overlap(lhs: CudaRange, rhs: CudaRange)
    ensures
        overlapping(lhs, rhs) <==> !(lhs.end <= rhs.start || rhs.end <= lhs.start),
{
}

} // verus!
