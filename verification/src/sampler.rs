//! Planning token selection on the device.

use crate::tensor::{
    lemma_contiguous_product, lemma_product_of_two, lemma_two_axes_fit, tensor_view, CudaSlice,
    DType, Location, RankError, Storage, StoredTensor, StoredView, TensorDesc, TensorView,
};
use vstd::prelude::*;

verus! {

/// The row width that greedy selection is offered for.
pub const VOCAB: usize = 151_936;

/// The blocks per row in the first stage of greedy selection.
pub const STAGE_ONE_BLOCKS: usize = 256;

/// The bytes of one candidate: a single-precision logit and its index.
pub const PAIR_BYTES: usize = 8;

/// The second extent of a launch grid is limited to this on supported devices.
pub const MAX_GRID_Y: usize = 65_535;

/// Why token selection is refused.
#[derive(Clone, Copy, Debug, PartialEq, Eq, Structural)]
pub enum SamplerError {
    Rank(RankError),
    EmptyBatch,
    VocabWidth { vocab: usize },
    LogitsDType { dtype: DType },
    ExtentsOverflow,
    NotContiguous,
    ScratchOverflow,
    BatchExceedsI32,
    BatchExceedsGrid,
    NotCuda,
    NotCudaStorage,
    StorageMismatch,
    ViewOverflow,
    ViewExceedsStorage,
    GreedyFailed { status: i32 },
    RowCounts,
    SamplerNotCuda { location: Location },
    SamplerNotCudaStorage,
    SliceDType { expected: DType },
    UnsupportedDType { sampled: DType },
    RequiresCudaOrMetal,
}

/// Selects tokens from rows of logits.
pub struct Sampler;

/// What the greedy kernel is called with, apart from its output and its stream.
#[derive(Clone, Copy, Debug, PartialEq, Eq, Structural)]
pub struct GreedyLaunch {
    pub logits: u64,
    pub batch: i32,
    pub vocab: i32,
    /// The number of tokens that come out.
    pub outputs: usize,
}

/// The bytes of scratch memory that greedy selection takes.
pub open spec fn scratch_bytes(batch: usize) -> int {
    batch * STAGE_ONE_BLOCKS * PAIR_BYTES
}

/// The bytes of scratch memory that greedy selection takes, where they are a `usize`.
pub fn greedy_scratch_bytes(batch: usize) -> (result: Result<usize, SamplerError>)
    ensures
        match result {
            Ok(bytes) => bytes == scratch_bytes(batch),
            Err(error) => scratch_bytes(batch) > usize::MAX && error
                == SamplerError::ScratchOverflow,
        },
{
    let elements: usize = match batch.checked_mul(STAGE_ONE_BLOCKS) {
        Some(elements) => elements,
        None => {
            return Err(SamplerError::ScratchOverflow);
        },
    };
    match elements.checked_mul(PAIR_BYTES) {
        Some(bytes) => Ok(bytes),
        None => Err(SamplerError::ScratchOverflow),
    }
}

/// The first rule that the logits break on their way to greedy selection.
pub open spec fn greedy_fault(logits: StoredView) -> Option<SamplerError> {
    let view = logits.tensor;
    if view.dims.len() != 2 {
        Some(SamplerError::Rank(RankError { expected: 2, got: view.dims.len() as usize }))
    } else if view.dims[0] == 0 {
        Some(SamplerError::EmptyBatch)
    } else if view.dims[1] != VOCAB {
        Some(SamplerError::VocabWidth { vocab: view.dims[1] })
    } else if view.dtype != DType::F32 {
        Some(SamplerError::LogitsDType { dtype: view.dtype })
    } else if view.contiguity() is None {
        Some(SamplerError::ExtentsOverflow)
    } else if !view.contiguous() {
        Some(SamplerError::NotContiguous)
    } else if view.dims[0] > i32::MAX {
        Some(SamplerError::BatchExceedsI32)
    } else if view.dims[0] > MAX_GRID_Y {
        Some(SamplerError::BatchExceedsGrid)
    } else if !(view.location is Cuda) {
        Some(SamplerError::NotCuda)
    } else {
        match logits.storage {
            Storage::Cuda(slice) => if slice.dtype != DType::F32 {
                Some(SamplerError::StorageMismatch)
            } else if view.start_offset + view.elem_count() > usize::MAX {
                Some(SamplerError::ViewOverflow)
            } else if view.start_offset + view.elem_count() > slice.len {
                Some(SamplerError::ViewExceedsStorage)
            } else {
                None
            },
            _ => Some(SamplerError::NotCudaStorage),
        }
    }
}

/// The low 32 bits of a size, read as a signed number.
pub open spec fn low_i32(size: usize) -> int {
    let low = size as int % 0x1_0000_0000;
    if low < 0x8000_0000 {
        low
    } else {
        low - 0x1_0000_0000
    }
}

fn truncated_i32(size: usize) -> (low: i32)
    ensures
        low == low_i32(size),
{
    let low: u32 = (size as u64 % 0x1_0000_0000) as u32;
    assert(low < 0x8000_0000 ==> low as i32 == low) by (bit_vector);
    assert(low >= 0x8000_0000 ==> low as i32 == low - 0x1_0000_0000) by (bit_vector);
    #[verifier::truncate]
    (low as i32)
}

/// A token as the kernel returns it, read as an unsigned number.
pub open spec fn unsigned_token(token: i32) -> u32 {
    if token >= 0 {
        token as u32
    } else {
        (token + 0x1_0000_0000) as u32
    }
}

/// A kernel that samples logits of one element type.
#[derive(Clone, Copy, Debug, PartialEq, Eq, Structural)]
pub enum SampleKernel {
    F32,
    F16,
    BF16,
}

/// A sampling request whose row counts match and whose logits are on a CUDA device.
#[derive(Clone, Copy, Debug, PartialEq, Eq, Structural)]
pub struct SampleRequest {
    pub batch: usize,
    pub vocab: usize,
    pub k: usize,
    pub p_bits: u32,
    pub temperature_bits: u32,
    pub dtype: DType,
    /// The logits have to be made contiguous first.
    pub make_contiguous: bool,
}

/// What a sampling kernel is called with, apart from its output, its seeds and positions
/// and its stream.
#[derive(Clone, Copy, Debug, PartialEq, Eq, Structural)]
pub struct SampleLaunch {
    pub kernel: SampleKernel,
    pub logits: u64,
    pub batch: i32,
    pub vocab: i32,
    pub k: i32,
    pub temperature_bits: u32,
    pub p_bits: u32,
}

/// The first rule that a sampling request breaks.
pub open spec fn sample_fault(
    logits: TensorView,
    seeds: nat,
    positions: nat,
) -> Option<SamplerError> {
    if logits.dims.len() != 2 {
        Some(SamplerError::Rank(RankError { expected: 2, got: logits.dims.len() as usize }))
    } else if seeds != logits.dims[0] || positions != logits.dims[0] {
        Some(SamplerError::RowCounts)
    } else if !(logits.location is Cuda) {
        Some(SamplerError::SamplerNotCuda { location: logits.location })
    } else if logits.contiguity() is None {
        Some(SamplerError::ExtentsOverflow)
    } else {
        None
    }
}

/// The kernel for logits of an element type, if there is one.
pub open spec fn kernel_for(dtype: DType) -> Option<SampleKernel> {
    match dtype {
        DType::F32 => Some(SampleKernel::F32),
        DType::F16 => Some(SampleKernel::F16),
        DType::BF16 => Some(SampleKernel::BF16),
        _ => None,
    }
}

impl Sampler {
    pub fn new() -> (sampler: Sampler)
        ensures
            sampler == Sampler,
    {
        Sampler
    }

    /// Plans the selection of the greedy token for each row of eligible exact-width
    /// logits.
    ///
    /// Callers must use their general sampler for every other shape, element type, device
    /// or layout.
    pub fn greedy_cuda(&self, logits: &StoredTensor) -> (result: Result<
        GreedyLaunch,
        SamplerError,
    >)
        requires
            greedy_fault(logits@) is None ==> logits@.storage->Cuda_0.representable(),
        ensures
            match result {
                Ok(launch) => {
                    &&& greedy_fault(logits@) is None
                    &&& launch.logits == logits@.address()
                    &&& launch.batch == logits@.tensor.dims[0]
                    &&& launch.vocab == VOCAB
                    &&& launch.outputs == logits@.tensor.dims[0]
                },
                Err(error) => greedy_fault(logits@) == Some(error),
            },
    {
        let (batch, vocab): (usize, usize) = match logits.desc.dims2() {
            Ok(dims) => dims,
            Err(error) => {
                return Err(SamplerError::Rank(error));
            },
        };
        if batch == 0 {
            return Err(SamplerError::EmptyBatch);
        }
        if vocab != VOCAB {
            return Err(SamplerError::VocabWidth { vocab });
        }
        if logits.desc.dtype() != DType::F32 {
            return Err(SamplerError::LogitsDType { dtype: logits.desc.dtype() });
        }
        match logits.desc.is_contiguous() {
            Some(true) => {},
            Some(false) => {
                return Err(SamplerError::NotContiguous);
            },
            None => {
                return Err(SamplerError::ExtentsOverflow);
            },
        }
        proof {
            law_scratch_is_smaller_than_the_logits(logits@.tensor);
            lemma_product_of_two(logits@.tensor.dims);
            lemma_two_axes_fit(logits@.tensor.dims);
        }
        greedy_scratch_bytes(batch)?;
        if batch as u64 > i32::MAX as u64 {
            return Err(SamplerError::BatchExceedsI32);
        }
        if batch > MAX_GRID_Y {
            return Err(SamplerError::BatchExceedsGrid);
        }
        match logits.desc.location() {
            Location::Cuda { gpu_id: _ } => {},
            _ => {
                return Err(SamplerError::NotCuda);
            },
        }
        let slice = match logits.storage {
            Storage::Cuda(slice) => {
                if slice.dtype != DType::F32 {
                    return Err(SamplerError::StorageMismatch);
                }
                slice
            },
            _ => {
                return Err(SamplerError::NotCudaStorage);
            },
        };
        let start: usize = logits.desc.start_offset();
        let view_end: usize = match start.checked_add(logits.desc.elem_count().unwrap()) {
            Some(view_end) => view_end,
            None => {
                return Err(SamplerError::ViewOverflow);
            },
        };
        if view_end > slice.len {
            return Err(SamplerError::ViewExceedsStorage);
        }
        Ok(
            GreedyLaunch {
                logits: logits.element_address(slice),
                batch: batch as i32,
                vocab: VOCAB as i32,
                outputs: batch,
            },
        )
    }

    /// Plans greedy selection on a Candle tensor whose elements are kept as given.
    pub fn greedy_cuda_tensor(&self, logits: &candle_core::Tensor, storage: Storage) -> (result:
        Result<GreedyLaunch, SamplerError>)
        requires
            greedy_fault(StoredView { tensor: tensor_view(*logits), storage }) is None
                ==> storage->Cuda_0.representable(),
        ensures
            ({
                let stored = StoredView { tensor: tensor_view(*logits), storage };
                match result {
                    Ok(launch) => {
                        &&& greedy_fault(stored) is None
                        &&& launch.logits == stored.address()
                        &&& launch.batch == stored.tensor.dims[0]
                        &&& launch.vocab == VOCAB
                        &&& launch.outputs == stored.tensor.dims[0]
                    },
                    Err(error) => greedy_fault(stored) == Some(error),
                }
            }),
    {
        self.greedy_cuda(&StoredTensor::of(logits, storage))
    }

    /// What the status of the greedy kernel means: zero is success.
    pub fn greedy_outcome(&self, status: i32) -> (result: Result<(), SamplerError>)
        ensures
            result == (if status == 0 {
                Ok::<(), SamplerError>(())
            } else {
                Err(SamplerError::GreedyFailed { status })
            }),
    {
        if status != 0 {
            return Err(SamplerError::GreedyFailed { status });
        }
        Ok(())
    }

    /// Plans the sampling of one token per row, with a seed and a position of its own for
    /// each row.
    ///
    /// `p_bits` and `temperature_bits` are the bits of single-precision numbers.
    pub fn sample_cuda(
        &self,
        logits: &TensorDesc,
        k: usize,
        p_bits: u32,
        temperature_bits: u32,
        seeds: &[u64],
        positions: &[u64],
    ) -> (result: Result<SampleRequest, SamplerError>)
        ensures
            match result {
                Ok(request) => {
                    &&& sample_fault(logits@, seeds@.len(), positions@.len()) is None
                    &&& request == (SampleRequest {
                        batch: logits@.dims[0],
                        vocab: logits@.dims[1],
                        k,
                        p_bits,
                        temperature_bits,
                        dtype: logits@.dtype,
                        make_contiguous: !logits@.contiguous(),
                    })
                },
                Err(error) => sample_fault(logits@, seeds@.len(), positions@.len()) == Some(error),
            },
    {
        let (batch, vocab): (usize, usize) = match logits.dims2() {
            Ok(dims) => dims,
            Err(error) => {
                return Err(SamplerError::Rank(error));
            },
        };
        if seeds.len() != batch || positions.len() != batch {
            return Err(SamplerError::RowCounts);
        }
        match logits.location() {
            Location::Cuda { gpu_id: _ } => {},
            location => {
                return Err(SamplerError::SamplerNotCuda { location });
            },
        }
        let contiguous: bool = match logits.is_contiguous() {
            Some(contiguous) => contiguous,
            None => {
                return Err(SamplerError::ExtentsOverflow);
            },
        };
        Ok(
            SampleRequest {
                batch,
                vocab,
                k,
                p_bits,
                temperature_bits,
                dtype: logits.dtype(),
                make_contiguous: !contiguous,
            },
        )
    }

    /// Plans sampling from a Candle tensor.
    pub fn sample_cuda_tensor(
        &self,
        logits: &candle_core::Tensor,
        k: usize,
        p_bits: u32,
        temperature_bits: u32,
        seeds: &[u64],
        positions: &[u64],
    ) -> (result: Result<SampleRequest, SamplerError>)
        ensures
            ({
                let view = tensor_view(*logits);
                match result {
                    Ok(request) => {
                        &&& sample_fault(view, seeds@.len(), positions@.len()) is None
                        &&& request == (SampleRequest {
                            batch: view.dims[0],
                            vocab: view.dims[1],
                            k,
                            p_bits,
                            temperature_bits,
                            dtype: view.dtype,
                            make_contiguous: !view.contiguous(),
                        })
                    },
                    Err(error) => sample_fault(view, seeds@.len(), positions@.len()) == Some(
                        error,
                    ),
                }
            }),
    {
        self.sample_cuda(
            &TensorDesc::of(logits),
            k,
            p_bits,
            temperature_bits,
            seeds,
            positions,
        )
    }

    /// There is no sampling without a CUDA or Metal device.
    pub fn sample(
        &self,
        _logits: &candle_core::Tensor,
        _k: usize,
        _p_bits: u32,
        _temperature_bits: u32,
        _seed: u64,
    ) -> (result: Result<Vec<u32>, SamplerError>)
        ensures
            result == Err::<Vec<u32>, _>(SamplerError::RequiresCudaOrMetal),
    {
        Err(SamplerError::RequiresCudaOrMetal)
    }
}

impl SampleRequest {
    /// The device memory of the contiguous logits.
    pub fn accept_storage(&self, storage: Storage) -> (result: Result<CudaSlice, SamplerError>)
        ensures
            result == (match storage {
                Storage::Cuda(slice) => Ok::<_, SamplerError>(slice),
                _ => Err(SamplerError::SamplerNotCudaStorage),
            }),
    {
        match storage {
            Storage::Cuda(slice) => Ok(slice),
            _ => Err(SamplerError::SamplerNotCudaStorage),
        }
    }

    /// Binds the request to the kernel of its element type and to the start of its device
    /// memory; the offset of a view into that memory is not added. Sizes reach the kernel as
    /// their low 32 bits.
    pub fn bind(&self, slice: CudaSlice) -> (result: Result<SampleLaunch, SamplerError>)
        ensures
            match result {
                Ok(launch) => {
                    &&& kernel_for(self.dtype) == Some(launch.kernel)
                    &&& slice.dtype == self.dtype
                    &&& launch.logits == slice.base
                    &&& launch.batch == low_i32(self.batch)
                    &&& launch.vocab == low_i32(self.vocab)
                    &&& launch.k == low_i32(self.k)
                    &&& launch.temperature_bits == self.temperature_bits
                    &&& launch.p_bits == self.p_bits
                },
                Err(error) => if kernel_for(self.dtype) is None {
                    error == (SamplerError::UnsupportedDType { sampled: self.dtype })
                } else {
                    slice.dtype != self.dtype && error == (SamplerError::SliceDType {
                        expected: self.dtype,
                    })
                },
            },
    {
        let kernel = match self.dtype {
            DType::F32 => SampleKernel::F32,
            DType::F16 => SampleKernel::F16,
            DType::BF16 => SampleKernel::BF16,
            _ => {
                return Err(SamplerError::UnsupportedDType { sampled: self.dtype });
            },
        };
        if slice.dtype != self.dtype {
            return Err(SamplerError::SliceDType { expected: self.dtype });
        }
        Ok(
            SampleLaunch {
                kernel,
                logits: slice.base,
                batch: truncated_i32(self.batch),
                vocab: truncated_i32(self.vocab),
                k: truncated_i32(self.k),
                temperature_bits: self.temperature_bits,
                p_bits: self.p_bits,
            },
        )
    }

    /// The tokens that the kernel returned, row by row.
    pub fn tokens(&self, native: &[i32]) -> (tokens: Vec<u32>)
        ensures
            tokens@ == native@.map_values(|token: i32| unsigned_token(token)),
            tokens@.len() == native@.len(),
            forall|row: int|
                0 <= row < native@.len() ==> #[trigger] tokens@[row] == native@[row] as int || (
                native@[row] < 0 && tokens@[row] == native@[row] + 0x1_0000_0000),
    {
        let mut tokens: Vec<u32> = Vec::with_capacity(native.len());
        let mut row: usize = 0;
        while row < native.len()
            invariant
                row <= native@.len(),
                tokens@ == native@.take(row as int).map_values(
                    |token: i32| unsigned_token(token),
                ),
            decreases native@.len() - row,
        {
            let token: i32 = native[row];
            assert(token >= 0 ==> token as u32 == token) by (bit_vector);
            assert(token < 0 ==> token as u32 == token + 0x1_0000_0000) by (bit_vector);
            tokens.push(
                #[verifier::truncate]
                (token as u32),
            );
            assert(native@.take(row + 1) =~= native@.take(row as int).push(token));
            row = row + 1;
        }
        assert(native@.take(native@.len() as int) =~= native@);
        tokens
    }
}

/// Scratch memory never overflows for contiguous logits: it takes fewer bytes than the
/// logits have elements.
pub proof fn law_scratch_is_smaller_than_the_logits(logits: TensorView)
    requires
        logits.dims.len() == 2,
        logits.dims[1] == VOCAB,
        logits.contiguity() == Some(true),
    ensures
        scratch_bytes(logits.dims[0]) <= logits.elem_count() <= usize::MAX,
{
    lemma_product_of_two(logits.dims);
    lemma_contiguous_product(logits);
}

/// Every row that an accepted greedy launch reads lies inside the device memory of the
/// logits.
pub proof fn law_greedy_rows_lie_inside_the_storage(logits: StoredView, row: int)
    requires
        greedy_fault(logits) is None,
        0 <= row < logits.tensor.dims[0],
    ensures
        logits.storage is Cuda,
        logits.storage->Cuda_0.base <= logits.address(),
        logits.address() + (row + 1) * VOCAB * 4 <= logits.storage->Cuda_0.base
            + logits.storage->Cuda_0.len * 4,
{
    lemma_product_of_two(logits.tensor.dims);
    let rows = logits.tensor.dims[0] as int;
    assert(logits.tensor.elem_count() == rows * VOCAB);
    assert((row + 1) * VOCAB <= rows * VOCAB);
}

/// Contiguous single-precision logits with up to 65535 rows of the exact width, on a CUDA
/// device whose single-precision memory holds them, are never refused greedy selection.
pub proof fn law_eligible_logits_are_accepted(logits: StoredView)
    requires
        logits.tensor.dims.len() == 2,
        1 <= logits.tensor.dims[0] <= 65_535,
        logits.tensor.dims[1] == 151_936,
        logits.tensor.dtype is F32,
        logits.tensor.contiguous(),
        logits.tensor.location is Cuda,
        logits.storage is Cuda,
        logits.storage->Cuda_0.dtype is F32,
        logits.tensor.start_offset + logits.tensor.dims[0] * 151_936
            <= logits.storage->Cuda_0.len,
    ensures
        greedy_fault(logits) is None,
{
    lemma_two_axes_fit(logits.tensor.dims);
}

/// Logits are refused greedy selection for a rule that they break while they keep all rules
/// before that one, and the refusal reports what was found.
pub proof fn law_refused_logits_break_the_rule_they_are_refused_for(logits: StoredView)
    ensures
        ({
            let view = logits.tensor;
            let slice = logits.storage->Cuda_0;
            let ranked = view.dims.len() == 2;
            let filled = ranked && view.dims[0] > 0;
            let exact = filled && view.dims[1] == 151_936;
            let typed = exact && view.dtype is F32;
            let laid_out = typed && view.contiguity() == Some(true);
            let counted = laid_out && view.dims[0] <= i32::MAX;
            let gridded = counted && view.dims[0] <= 65_535;
            let placed = gridded && view.location is Cuda;
            let stored = placed && logits.storage is Cuda;
            let matched = stored && slice.dtype is F32;
            let end = view.start_offset + view.dims[0] * 151_936;
            match greedy_fault(logits) {
                None => matched && end <= usize::MAX && end <= slice.len,
                Some(SamplerError::Rank(error)) => !ranked && error.expected == 2 && error.got
                    == view.dims.len() as usize,
                Some(SamplerError::EmptyBatch) => ranked && !filled,
                Some(SamplerError::VocabWidth { vocab }) => filled && !exact && vocab
                    == view.dims[1],
                Some(SamplerError::LogitsDType { dtype }) => exact && !typed && dtype
                    == view.dtype,
                Some(SamplerError::ExtentsOverflow) => typed && view.contiguity() is None,
                Some(SamplerError::NotContiguous) => typed && view.contiguity() == Some(false),
                Some(SamplerError::BatchExceedsI32) => laid_out && !counted,
                Some(SamplerError::BatchExceedsGrid) => counted && !gridded,
                Some(SamplerError::NotCuda) => gridded && !placed,
                Some(SamplerError::NotCudaStorage) => placed && !stored,
                Some(SamplerError::StorageMismatch) => stored && !matched,
                Some(SamplerError::ViewOverflow) => matched && end > usize::MAX,
                Some(SamplerError::ViewExceedsStorage) => matched && slice.len < end
                    <= usize::MAX,
                _ => false,
            }
        }),
{
    if logits.tensor.dims.len() == 2 {
        lemma_product_of_two(logits.tensor.dims);
    }
}

/// Sampling is refused for a rule that the request breaks while it keeps all rules before that
/// one, and for no other reason: any element type and any width is taken on.
pub proof fn law_refused_sampling_breaks_the_rule_it_is_refused_for(
    logits: TensorView,
    seeds: nat,
    positions: nat,
)
    ensures
        ({
            let ranked = logits.dims.len() == 2;
            let paired = ranked && seeds == logits.dims[0] && positions == logits.dims[0];
            let placed = paired && logits.location is Cuda;
            match sample_fault(logits, seeds, positions) {
                None => placed && logits.contiguity() is Some,
                Some(SamplerError::Rank(error)) => !ranked && error.expected == 2 && error.got
                    == logits.dims.len() as usize,
                Some(SamplerError::RowCounts) => ranked && !paired,
                Some(SamplerError::SamplerNotCuda { location }) => paired && !placed && location
                    == logits.location,
                Some(SamplerError::ExtentsOverflow) => placed && logits.contiguity() is None,
                _ => false,
            }
        }),
{
}

/// A token comes back as the number the kernel gave, and a negative one as the unsigned
/// number with the same bits.
pub proof fn law_tokens_keep_their_bits(token: i32)
    ensures
        token >= 0 ==> unsigned_token(token) == token,
        (unsigned_token(token) - token) % 0x1_0000_0000 == 0,
{
}

/// A size reaches the kernel as itself where it is an `i32`, and otherwise as the `i32` with
/// the same low bits.
pub proof fn law_sizes_keep_their_low_bits(size: usize)
    ensures
        size <= i32::MAX ==> low_i32(size) == size,
        i32::MIN <= low_i32(size) <= i32::MAX,
        (size - low_i32(size)) % 0x1_0000_0000 == 0,
{
}

/// Each of the three floating-point types up to single precision has the kernel of its own
/// name, and no other type has one.
pub proof fn law_kernels_match_their_element_types(dtype: DType)
    ensures
        dtype is F32 <==> kernel_for(dtype) == Some(SampleKernel::F32),
        dtype is F16 <==> kernel_for(dtype) == Some(SampleKernel::F16),
        dtype is BF16 <==> kernel_for(dtype) == Some(SampleKernel::BF16),
        kernel_for(dtype) is Some <==> dtype is F32 || dtype is F16 || dtype is BF16,
{
}

/// Scratch memory has eight bytes for each of 256 blocks of each row, so it grows by the same
/// amount with every row.
pub proof fn law_scratch_grows_with_every_row(batch: usize)
    ensures
        scratch_bytes(0) == 0,
        batch < usize::MAX ==> scratch_bytes((batch + 1) as usize) == scratch_bytes(batch) + 256
            * 8,
{
}

} // verus!
